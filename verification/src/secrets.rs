//! Shared secret requirement primitives.
use vstd::prelude::*;

verus! {

/// Canonical secret identifier used across manifests and bindings.
#[derive(Debug, PartialEq, Eq, PartialOrd, Ord, Hash, Default)]
pub struct SecretKey(String);

impl SecretKey {
    /// The key's text.
    pub closed spec fn text(self) -> Seq<char> {
        self.0@
    }

    /// Returns the key as a string slice.
    pub fn as_str(&self) -> (r: &str)
        ensures
            r@ == self.text(),
    {
        self.0.as_str()
    }
}

impl Clone for SecretKey {
    fn clone(&self) -> (r: Self)
        ensures
            r == *self,
    {
        SecretKey(self.0.clone())
    }
}

impl From<String> for SecretKey {
    fn from(key: String) -> (r: Self)
        ensures
            r.text() == key@,
    {
        Self(key)
    }
}

impl vstd::std_specs::convert::FromSpecImpl<String> for SecretKey {
    /// Only the text of the result is specified (see `from`).
    open spec fn obeys_from_spec() -> bool {
        false
    }

    open spec fn from_spec(v: String) -> Self {
        vstd::pervasive::arbitrary()
    }
}

} // verus!
