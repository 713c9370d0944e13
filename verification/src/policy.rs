//! Network policy primitives.
use vstd::prelude::*;

use crate::text::{opt_text, texts};

verus! {

/// Network protocols supported by allow lists.
#[derive(Clone, Debug, PartialEq, Eq, Hash)]
pub enum Protocol {
    /// Hypertext Transfer Protocol.
    Http,
    /// Hypertext Transfer Protocol Secure.
    Https,
    /// Generic TCP connectivity.
    Tcp,
    /// Generic UDP connectivity.
    Udp,
    /// gRPC.
    Grpc,
    /// Any protocol not covered above.
    Custom(String),
}

/// Allow list describing permitted domains, ports, and protocols.
#[derive(Clone, Debug, PartialEq, Eq)]
pub struct AllowList {
    /// Allowed domain suffixes or exact hosts.
    pub domains: Vec<String>,
    /// Allowed port numbers.
    pub ports: Vec<u16>,
    /// Allowed network protocols.
    pub protocols: Vec<Protocol>,
}

impl AllowList {
    /// Creates an empty allow list.
    pub fn empty() -> (r: Self)
        ensures
            r.domains@.len() == 0,
            r.ports@.len() == 0,
            r.protocols@.len() == 0,
    {
        Self { domains: Vec::new(), ports: Vec::new(), protocols: Vec::new() }
    }

    /// Returns `true` when the allow list contains no rules.
    pub fn is_empty(&self) -> (r: bool)
        ensures
            r == (self.domains@.len() == 0 && self.ports@.len() == 0 && self.protocols@.len() == 0),
    {
        self.domains.len() == 0 && self.ports.len() == 0 && self.protocols.len() == 0
    }
}

impl Default for AllowList {
    fn default() -> (r: Self)
        ensures
            r.domains@.len() == 0,
            r.ports@.len() == 0,
            r.protocols@.len() == 0,
    {
        Self::empty()
    }
}

/// High-level network policy composed of allow lists.
#[derive(Clone, Debug, PartialEq, Eq)]
pub struct NetworkPolicy {
    /// Allow list enforced for egress connections.
    pub egress: AllowList,
    /// Whether destinations not present in the allow list should be denied.
    pub deny_on_miss: bool,
}

impl NetworkPolicy {
    /// Creates a policy denying unknown destinations by default.
    pub fn strict(egress: AllowList) -> (r: Self)
        ensures
            r.egress == egress,
            r.deny_on_miss,
    {
        Self { egress, deny_on_miss: true }
    }
}

impl Default for NetworkPolicy {
    fn default() -> (r: Self)
        ensures
            r.egress.domains@.len() == 0,
            r.egress.ports@.len() == 0,
            r.egress.protocols@.len() == 0,
            !r.deny_on_miss,
    {
        Self { egress: AllowList::empty(), deny_on_miss: false }
    }
}

/// Status for a policy decision.
#[derive(Clone, Copy, Debug, PartialEq, Eq, Hash, Structural)]
pub enum PolicyDecisionStatus {
    /// Request is allowed.
    Allow,
    /// Request is denied.
    Deny,
}

/// Result of evaluating a network policy.
#[derive(Clone, Debug, PartialEq, Eq)]
pub struct PolicyDecision {
    /// Canonical status for the decision.
    pub status: PolicyDecisionStatus,
    /// Optional list of reasons.
    pub reasons: Vec<String>,
    /// Legacy allow flag (retained for backward compatibility).
    pub allow: Option<bool>,
    /// Legacy single reason (retained for backward compatibility).
    pub reason: Option<String>,
}

/// What a policy decision says.
pub struct PolicyDecisionModel {
    /// Status.
    pub status: PolicyDecisionStatus,
    /// Reason texts.
    pub reasons: Seq<Seq<char>>,
    /// Legacy allow flag.
    pub allow: Option<bool>,
    /// Legacy reason text.
    pub reason: Option<Seq<char>>,
}

impl View for PolicyDecision {
    type V = PolicyDecisionModel;

    open spec fn view(&self) -> PolicyDecisionModel {
        PolicyDecisionModel {
            status: self.status,
            reasons: texts(self.reasons@),
            allow: self.allow,
            reason: opt_text(self.reason),
        }
    }
}

impl PolicyDecision {
    /// Number of fields the serialized form carries: `status` and `reasons`
    /// always, `allow` and `reason` only when present.
    pub fn serialized_field_count(&self) -> (r: usize)
        ensures
            r == 2 + (if self.allow is Some { 1int } else { 0 }) + (if self.reason is Some {
                1int
            } else {
                0
            }),
    {
        let mut len: usize = 2;
        if self.allow.is_some() {
            len = len + 1;
        }
        if self.reason.is_some() {
            len = len + 1;
        }
        len
    }
}

/// Keys of a serialized policy decision.
#[derive(Clone, Copy, Debug, PartialEq, Eq, Structural)]
pub enum PolicyDecisionKey {
    /// `allow`
    Allow,
    /// `reason`
    Reason,
    /// `status`
    Status,
    /// `reasons`
    Reasons,
    /// Any other key (ignored for forward compatibility).
    Unknown,
}

/// Which key a field name denotes.
pub open spec fn spec_decision_key(name: Seq<char>) -> PolicyDecisionKey {
    if name == seq!['a', 'l', 'l', 'o', 'w'] {
        PolicyDecisionKey::Allow
    } else if name == seq!['r', 'e', 'a', 's', 'o', 'n'] {
        PolicyDecisionKey::Reason
    } else if name == seq!['s', 't', 'a', 't', 'u', 's'] {
        PolicyDecisionKey::Status
    } else if name == seq!['r', 'e', 'a', 's', 'o', 'n', 's'] {
        PolicyDecisionKey::Reasons
    } else {
        PolicyDecisionKey::Unknown
    }
}

/// Identifies the key a serialized field name denotes.
pub fn decision_key(name: &str) -> (r: PolicyDecisionKey)
    ensures
        r == spec_decision_key(name@),
{
    proof {
        reveal_strlit("allow");
        reveal_strlit("reason");
        reveal_strlit("status");
        reveal_strlit("reasons");
    }
    assert("allow"@ =~= seq!['a', 'l', 'l', 'o', 'w']);
    assert("reason"@ =~= seq!['r', 'e', 'a', 's', 'o', 'n']);
    assert("status"@ =~= seq!['s', 't', 'a', 't', 'u', 's']);
    assert("reasons"@ =~= seq!['r', 'e', 'a', 's', 'o', 'n', 's']);
    if crate::text::str_eq(name, "allow") {
        PolicyDecisionKey::Allow
    } else if crate::text::str_eq(name, "reason") {
        PolicyDecisionKey::Reason
    } else if crate::text::str_eq(name, "status") {
        PolicyDecisionKey::Status
    } else if crate::text::str_eq(name, "reasons") {
        PolicyDecisionKey::Reasons
    } else {
        PolicyDecisionKey::Unknown
    }
}

/// A key that appeared twice while reading a policy decision.
#[derive(Clone, Copy, Debug, PartialEq, Eq, Structural)]
pub enum DuplicateDecisionField {
    /// `allow` appeared twice.
    Allow,
    /// `reason` appeared twice.
    Reason,
    /// `status` appeared twice.
    Status,
    /// `reasons` appeared twice.
    Reasons,
}

impl DuplicateDecisionField {
    /// The field's name.
    pub fn name(&self) -> (r: &'static str)
        ensures
            r@ == match self {
                DuplicateDecisionField::Allow => "allow"@,
                DuplicateDecisionField::Reason => "reason"@,
                DuplicateDecisionField::Status => "status"@,
                DuplicateDecisionField::Reasons => "reasons"@,
            },
    {
        match self {
            DuplicateDecisionField::Allow => "allow",
            DuplicateDecisionField::Reason => "reason",
            DuplicateDecisionField::Status => "status",
            DuplicateDecisionField::Reasons => "reasons",
        }
    }
}

/// Fields read so far while deserializing a policy decision.
#[derive(Clone, Debug, PartialEq, Eq)]
pub struct PolicyDecisionFields {
    /// `allow` as read (itself optional), once read.
    pub allow: Option<Option<bool>>,
    /// `reason` as read (itself optional), once read.
    pub reason: Option<Option<String>>,
    /// `status`, once read.
    pub status: Option<PolicyDecisionStatus>,
    /// `reasons`, once read.
    pub reasons: Option<Vec<String>>,
}

/// The status implied by the fields: `status`, else the legacy `allow` flag,
/// else allow.
pub open spec fn implied_status(f: PolicyDecisionFields) -> PolicyDecisionStatus {
    match f.status {
        Some(s) => s,
        None => match f.allow {
            Some(Some(flag)) => if flag {
                PolicyDecisionStatus::Allow
            } else {
                PolicyDecisionStatus::Deny
            },
            _ => PolicyDecisionStatus::Allow,
        },
    }
}

/// The reasons implied by the fields: `reasons`, else the legacy `reason`
/// as a single entry, else none.
pub open spec fn implied_reasons(f: PolicyDecisionFields) -> Seq<Seq<char>> {
    match f.reasons {
        Some(list) => texts(list@),
        None => match f.reason {
            Some(Some(msg)) => seq![msg@],
            _ => Seq::empty(),
        },
    }
}

/// The decision that a complete set of fields describes.
pub open spec fn spec_decision_from_fields(f: PolicyDecisionFields) -> PolicyDecisionModel {
    PolicyDecisionModel {
        status: implied_status(f),
        reasons: implied_reasons(f),
        allow: match f.allow {
            Some(a) => a,
            None => None,
        },
        reason: match f.reason {
            Some(r) => opt_text(r),
            None => None,
        },
    }
}

impl PolicyDecisionFields {
    /// No field read yet.
    pub fn new() -> (r: Self)
        ensures
            r.allow is None,
            r.reason is None,
            r.status is None,
            r.reasons is None,
    {
        Self { allow: None, reason: None, status: None, reasons: None }
    }

    /// Checks that `key` has not been read before.
    pub fn check_key(&self, key: PolicyDecisionKey) -> (r: Result<(), DuplicateDecisionField>)
        ensures
            r == match key {
                PolicyDecisionKey::Allow => if self.allow is Some {
                    Err(DuplicateDecisionField::Allow)
                } else {
                    Ok(())
                },
                PolicyDecisionKey::Reason => if self.reason is Some {
                    Err(DuplicateDecisionField::Reason)
                } else {
                    Ok(())
                },
                PolicyDecisionKey::Status => if self.status is Some {
                    Err(DuplicateDecisionField::Status)
                } else {
                    Ok(())
                },
                PolicyDecisionKey::Reasons => if self.reasons is Some {
                    Err(DuplicateDecisionField::Reasons)
                } else {
                    Ok(())
                },
                PolicyDecisionKey::Unknown => Ok(()),
            },
    {
        match key {
            PolicyDecisionKey::Allow => if self.allow.is_some() {
                Err(DuplicateDecisionField::Allow)
            } else {
                Ok(())
            },
            PolicyDecisionKey::Reason => if self.reason.is_some() {
                Err(DuplicateDecisionField::Reason)
            } else {
                Ok(())
            },
            PolicyDecisionKey::Status => if self.status.is_some() {
                Err(DuplicateDecisionField::Status)
            } else {
                Ok(())
            },
            PolicyDecisionKey::Reasons => if self.reasons.is_some() {
                Err(DuplicateDecisionField::Reasons)
            } else {
                Ok(())
            },
            PolicyDecisionKey::Unknown => Ok(()),
        }
    }

    /// Builds the decision, applying the legacy fallbacks.
    pub fn finish(self) -> (r: PolicyDecision)
        ensures
            r@ == spec_decision_from_fields(self),
    {
        let ghost f = self;
        let status = match self.status {
            Some(s) => s,
            None => match self.allow {
                Some(Some(flag)) => if flag {
                    PolicyDecisionStatus::Allow
                } else {
                    PolicyDecisionStatus::Deny
                },
                _ => PolicyDecisionStatus::Allow,
            },
        };
        let allow = match self.allow {
            Some(a) => a,
            None => None,
        };
        let (reasons, reason) = match self.reasons {
            Some(list) => (
                list,
                match self.reason {
                    Some(r) => r,
                    None => None,
                },
            ),
            None => match self.reason {
                Some(Some(msg)) => {
                    let copy = msg.clone();
                    let mut v: Vec<String> = Vec::new();
                    v.push(msg);
                    assert(texts(v@) =~= seq![copy@]);
                    (v, Some(copy))
                },
                Some(None) => (Vec::new(), None),
                None => (Vec::new(), None),
            },
        };
        let r = PolicyDecision { status, reasons, allow, reason };
        assert(r@.reasons =~= implied_reasons(f));
        r
    }
}

/// The fields a serialized decision carries, as read back.
pub open spec fn serialized_fields(d: PolicyDecision) -> PolicyDecisionFields {
    PolicyDecisionFields {
        allow: match d.allow {
            Some(a) => Some(Some(a)),
            None => None,
        },
        reason: match d.reason {
            Some(r) => Some(Some(r)),
            None => None,
        },
        status: Some(d.status),
        reasons: Some(d.reasons),
    }
}

/// Reading back what serializing a decision writes gives the same decision.
pub proof fn law_policy_decision_roundtrip(d: PolicyDecision)
    ensures
        spec_decision_from_fields(serialized_fields(d)) == d@,
{
}

/// An explicit `status` field decides the decision's status. Without one,
/// the legacy `allow` flag decides: the decision allows exactly when the flag
/// is absent (or null) or `true`, and denies exactly when it is `false`.
/// Reasons come from `reasons` when present, else from the legacy `reason`
/// as a single entry, else there are none.
pub proof fn law_policy_status_from_fields(f: PolicyDecisionFields)
    ensures
        f.status matches Some(s) ==> spec_decision_from_fields(f).status == s,
        f.status is None ==> (spec_decision_from_fields(f).status == PolicyDecisionStatus::Allow
            <==> f.allow != Some(Some(false))),
        f.status is None ==> (spec_decision_from_fields(f).status == PolicyDecisionStatus::Deny
            <==> f.allow == Some(Some(false))),
        f.reasons matches Some(list) ==> spec_decision_from_fields(f).reasons == texts(list@),
        f.reasons is None ==> (f.reason matches Some(Some(m)) ==> spec_decision_from_fields(
            f,
        ).reasons == seq![m@]),
        (f.reasons is None && !(f.reason matches Some(Some(_)))) ==> spec_decision_from_fields(
            f,
        ).reasons.len() == 0,
{
}

} // verus!
