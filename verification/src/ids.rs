//! Identifier newtypes shared across tenant contexts, packs and flows.
use vstd::prelude::*;

verus! {

/// Environment identifier for a tenant context.
#[derive(Debug, PartialEq, Eq, Hash)]
pub struct EnvId(pub String);

impl EnvId {
    /// Returns the identifier as a string slice.
    pub fn as_str(&self) -> (r: &str)
        ensures
            r@ == self.0@,
    {
        self.0.as_str()
    }
}

impl Clone for EnvId {
    fn clone(&self) -> (r: Self)
        ensures
            r == *self,
    {
        EnvId(self.0.clone())
    }
}

impl From<String> for EnvId {
    fn from(value: String) -> (r: Self)
        ensures
            r.0 == value,
    {
        EnvId(value)
    }
}

impl vstd::std_specs::convert::FromSpecImpl<String> for EnvId {
    open spec fn obeys_from_spec() -> bool {
        true
    }

    open spec fn from_spec(v: String) -> Self {
        EnvId(v)
    }
}

impl<'a> From<&'a str> for EnvId {
    fn from(value: &'a str) -> (r: Self)
        ensures
            r.0@ == value@,
    {
        EnvId(value.to_owned())
    }
}

impl<'a> vstd::std_specs::convert::FromSpecImpl<&'a str> for EnvId {
    /// Only the characters of the result are specified (see `from`).
    open spec fn obeys_from_spec() -> bool {
        false
    }

    open spec fn from_spec(v: &'a str) -> Self {
        vstd::pervasive::arbitrary()
    }
}

/// Tenant identifier within an environment.
#[derive(Debug, PartialEq, Eq, Hash)]
pub struct TenantId(pub String);

impl TenantId {
    /// Returns the identifier as a string slice.
    pub fn as_str(&self) -> (r: &str)
        ensures
            r@ == self.0@,
    {
        self.0.as_str()
    }
}

impl Clone for TenantId {
    fn clone(&self) -> (r: Self)
        ensures
            r == *self,
    {
        TenantId(self.0.clone())
    }
}

impl From<String> for TenantId {
    fn from(value: String) -> (r: Self)
        ensures
            r.0 == value,
    {
        TenantId(value)
    }
}

impl vstd::std_specs::convert::FromSpecImpl<String> for TenantId {
    open spec fn obeys_from_spec() -> bool {
        true
    }

    open spec fn from_spec(v: String) -> Self {
        TenantId(v)
    }
}

impl<'a> From<&'a str> for TenantId {
    fn from(value: &'a str) -> (r: Self)
        ensures
            r.0@ == value@,
    {
        TenantId(value.to_owned())
    }
}

impl<'a> vstd::std_specs::convert::FromSpecImpl<&'a str> for TenantId {
    /// Only the characters of the result are specified (see `from`).
    open spec fn obeys_from_spec() -> bool {
        false
    }

    open spec fn from_spec(v: &'a str) -> Self {
        vstd::pervasive::arbitrary()
    }
}

/// Team identifier belonging to a tenant.
#[derive(Debug, PartialEq, Eq, Hash)]
pub struct TeamId(pub String);

impl TeamId {
    /// Returns the identifier as a string slice.
    pub fn as_str(&self) -> (r: &str)
        ensures
            r@ == self.0@,
    {
        self.0.as_str()
    }
}

impl Clone for TeamId {
    fn clone(&self) -> (r: Self)
        ensures
            r == *self,
    {
        TeamId(self.0.clone())
    }
}

impl From<String> for TeamId {
    fn from(value: String) -> (r: Self)
        ensures
            r.0 == value,
    {
        TeamId(value)
    }
}

impl vstd::std_specs::convert::FromSpecImpl<String> for TeamId {
    open spec fn obeys_from_spec() -> bool {
        true
    }

    open spec fn from_spec(v: String) -> Self {
        TeamId(v)
    }
}

impl<'a> From<&'a str> for TeamId {
    fn from(value: &'a str) -> (r: Self)
        ensures
            r.0@ == value@,
    {
        TeamId(value.to_owned())
    }
}

impl<'a> vstd::std_specs::convert::FromSpecImpl<&'a str> for TeamId {
    /// Only the characters of the result are specified (see `from`).
    open spec fn obeys_from_spec() -> bool {
        false
    }

    open spec fn from_spec(v: &'a str) -> Self {
        vstd::pervasive::arbitrary()
    }
}

/// User identifier within a tenant.
#[derive(Debug, PartialEq, Eq, Hash)]
pub struct UserId(pub String);

impl UserId {
    /// Returns the identifier as a string slice.
    pub fn as_str(&self) -> (r: &str)
        ensures
            r@ == self.0@,
    {
        self.0.as_str()
    }
}

impl Clone for UserId {
    fn clone(&self) -> (r: Self)
        ensures
            r == *self,
    {
        UserId(self.0.clone())
    }
}

impl From<String> for UserId {
    fn from(value: String) -> (r: Self)
        ensures
            r.0 == value,
    {
        UserId(value)
    }
}

impl vstd::std_specs::convert::FromSpecImpl<String> for UserId {
    open spec fn obeys_from_spec() -> bool {
        true
    }

    open spec fn from_spec(v: String) -> Self {
        UserId(v)
    }
}

impl<'a> From<&'a str> for UserId {
    fn from(value: &'a str) -> (r: Self)
        ensures
            r.0@ == value@,
    {
        UserId(value.to_owned())
    }
}

impl<'a> vstd::std_specs::convert::FromSpecImpl<&'a str> for UserId {
    /// Only the characters of the result are specified (see `from`).
    open spec fn obeys_from_spec() -> bool {
        false
    }

    open spec fn from_spec(v: &'a str) -> Self {
        vstd::pervasive::arbitrary()
    }
}

/// Logical pack identifier.
#[derive(Debug, PartialEq, Eq, Hash, PartialOrd, Ord)]
pub struct PackId(pub String);

impl PackId {
    /// Returns the identifier as a string slice.
    pub fn as_str(&self) -> (r: &str)
        ensures
            r@ == self.0@,
    {
        self.0.as_str()
    }
}

impl Clone for PackId {
    fn clone(&self) -> (r: Self)
        ensures
            r == *self,
    {
        PackId(self.0.clone())
    }
}

impl From<String> for PackId {
    fn from(value: String) -> (r: Self)
        ensures
            r.0 == value,
    {
        PackId(value)
    }
}

impl vstd::std_specs::convert::FromSpecImpl<String> for PackId {
    open spec fn obeys_from_spec() -> bool {
        true
    }

    open spec fn from_spec(v: String) -> Self {
        PackId(v)
    }
}

impl<'a> From<&'a str> for PackId {
    fn from(value: &'a str) -> (r: Self)
        ensures
            r.0@ == value@,
    {
        PackId(value.to_owned())
    }
}

impl<'a> vstd::std_specs::convert::FromSpecImpl<&'a str> for PackId {
    /// Only the characters of the result are specified (see `from`).
    open spec fn obeys_from_spec() -> bool {
        false
    }

    open spec fn from_spec(v: &'a str) -> Self {
        vstd::pervasive::arbitrary()
    }
}

/// Flow identifier inside a pack.
#[derive(Debug, PartialEq, Eq, Hash, PartialOrd, Ord)]
pub struct FlowId(pub String);

impl FlowId {
    /// Returns the identifier as a string slice.
    pub fn as_str(&self) -> (r: &str)
        ensures
            r@ == self.0@,
    {
        self.0.as_str()
    }
}

impl Clone for FlowId {
    fn clone(&self) -> (r: Self)
        ensures
            r == *self,
    {
        FlowId(self.0.clone())
    }
}

impl From<String> for FlowId {
    fn from(value: String) -> (r: Self)
        ensures
            r.0 == value,
    {
        FlowId(value)
    }
}

impl vstd::std_specs::convert::FromSpecImpl<String> for FlowId {
    open spec fn obeys_from_spec() -> bool {
        true
    }

    open spec fn from_spec(v: String) -> Self {
        FlowId(v)
    }
}

impl<'a> From<&'a str> for FlowId {
    fn from(value: &'a str) -> (r: Self)
        ensures
            r.0@ == value@,
    {
        FlowId(value.to_owned())
    }
}

impl<'a> vstd::std_specs::convert::FromSpecImpl<&'a str> for FlowId {
    /// Only the characters of the result are specified (see `from`).
    open spec fn obeys_from_spec() -> bool {
        false
    }

    open spec fn from_spec(v: &'a str) -> Self {
        vstd::pervasive::arbitrary()
    }
}

/// Component identifier.
#[derive(Debug, PartialEq, Eq, Hash, PartialOrd, Ord)]
pub struct ComponentId(pub String);

impl ComponentId {
    /// Returns the identifier as a string slice.
    pub fn as_str(&self) -> (r: &str)
        ensures
            r@ == self.0@,
    {
        self.0.as_str()
    }
}

impl Clone for ComponentId {
    fn clone(&self) -> (r: Self)
        ensures
            r == *self,
    {
        ComponentId(self.0.clone())
    }
}

impl From<String> for ComponentId {
    fn from(value: String) -> (r: Self)
        ensures
            r.0 == value,
    {
        ComponentId(value)
    }
}

impl vstd::std_specs::convert::FromSpecImpl<String> for ComponentId {
    open spec fn obeys_from_spec() -> bool {
        true
    }

    open spec fn from_spec(v: String) -> Self {
        ComponentId(v)
    }
}

impl<'a> From<&'a str> for ComponentId {
    fn from(value: &'a str) -> (r: Self)
        ensures
            r.0@ == value@,
    {
        ComponentId(value.to_owned())
    }
}

impl<'a> vstd::std_specs::convert::FromSpecImpl<&'a str> for ComponentId {
    /// Only the characters of the result are specified (see `from`).
    open spec fn obeys_from_spec() -> bool {
        false
    }

    open spec fn from_spec(v: &'a str) -> Self {
        vstd::pervasive::arbitrary()
    }
}

/// Node identifier inside a flow.
#[derive(Debug, PartialEq, Eq, Hash, PartialOrd, Ord)]
pub struct NodeId(pub String);

impl NodeId {
    /// Returns the identifier as a string slice.
    pub fn as_str(&self) -> (r: &str)
        ensures
            r@ == self.0@,
    {
        self.0.as_str()
    }
}

impl Clone for NodeId {
    fn clone(&self) -> (r: Self)
        ensures
            r == *self,
    {
        NodeId(self.0.clone())
    }
}

impl From<String> for NodeId {
    fn from(value: String) -> (r: Self)
        ensures
            r.0 == value,
    {
        NodeId(value)
    }
}

impl vstd::std_specs::convert::FromSpecImpl<String> for NodeId {
    open spec fn obeys_from_spec() -> bool {
        true
    }

    open spec fn from_spec(v: String) -> Self {
        NodeId(v)
    }
}

impl<'a> From<&'a str> for NodeId {
    fn from(value: &'a str) -> (r: Self)
        ensures
            r.0@ == value@,
    {
        NodeId(value.to_owned())
    }
}

impl<'a> vstd::std_specs::convert::FromSpecImpl<&'a str> for NodeId {
    /// Only the characters of the result are specified (see `from`).
    open spec fn obeys_from_spec() -> bool {
        false
    }

    open spec fn from_spec(v: &'a str) -> Self {
        vstd::pervasive::arbitrary()
    }
}

} // verus!
