//! Session identity and cursor helpers.
use vstd::prelude::*;

use crate::ids::FlowId;
use crate::invocation::TenantCtx;
use crate::text::{owned, push_char, push_str};

verus! {

/// Unique key referencing a persisted session.
#[derive(Debug, PartialEq, Eq, Hash)]
pub struct SessionKey(pub String);

impl Clone for SessionKey {
    fn clone(&self) -> (r: Self)
        ensures
            r == *self,
    {
        SessionKey(self.0.clone())
    }
}

/// A lowercase hexadecimal digit.
pub open spec fn is_lower_hex_digit(c: char) -> bool {
    ('0' <= c && c <= '9') || ('a' <= c && c <= 'f')
}

/// The hyphenated lowercase text of a version-4 (random) UUID: 36
/// characters, hyphens at positions 8, 13, 18 and 23, lowercase hex digits
/// elsewhere, version digit `4` at position 14 and an RFC 4122 variant digit
/// (`8`, `9`, `a` or `b`) at position 19.
pub open spec fn is_v4_uuid_text(s: Seq<char>) -> bool {
    &&& s.len() == 36
    &&& forall|i: int|
        0 <= i < 36 ==> if i == 8 || i == 13 || i == 18 || i == 23 {
            #[trigger] s[i] == '-'
        } else {
            is_lower_hex_digit(s[i])
        }
    &&& s[14] == '4'
    &&& (s[19] == '8' || s[19] == '9' || s[19] == 'a' || s[19] == 'b')
}

/// Generates a random version-4 UUID with `uuid::Uuid::new_v4` and renders
/// it with `to_string` (its `Display`, the hyphenated lowercase form).
///
/// Claimed of the call: the text has the shape of a version-4 UUID
/// ([`is_v4_uuid_text`]): `new_v4` sets the version nibble to 4 and the
/// variant bits to `10`, and `Display` writes lowercase hex with hyphens after
/// 8, 12, 16 and 20 digits. The random digits themselves are not claimed.
#[verifier::external_body]
fn random_uuid_text() -> (r: String)
    ensures
        is_v4_uuid_text(r@),
{
    uuid::Uuid::new_v4().to_string()
}

impl SessionKey {
    /// Returns the session key as a string slice.
    pub fn as_str(&self) -> (r: &str)
        ensures
            r@ == self.0@,
    {
        self.0.as_str()
    }

    /// Creates a new session key from the supplied string.
    pub fn new(value: &str) -> (r: Self)
        ensures
            r.0@ == value@,
    {
        Self(owned(value))
    }

    /// Generates a random session key (a version-4 UUID).
    pub fn generate() -> (r: Self)
        ensures
            is_v4_uuid_text(r.0@),
    {
        Self(random_uuid_text())
    }
}

/// Anchor used when none is supplied.
pub open spec fn default_anchor() -> Seq<char> {
    seq!['c', 'o', 'n', 'v', 'e', 'r', 's', 'a', 't', 'i', 'o', 'n']
}

/// User used when none is supplied.
pub open spec fn default_user() -> Seq<char> {
    seq!['u', 's', 'e', 'r']
}

/// The canonical `{tenant}:{provider}:{anchor}:{user}` text.
pub open spec fn spec_canonical_session_key(
    tenant: Seq<char>,
    provider: Seq<char>,
    anchor: Option<&str>,
    user: Option<&str>,
) -> Seq<char> {
    let a = match anchor {
        Some(a) => a@,
        None => default_anchor(),
    };
    let u = match user {
        Some(u) => u@,
        None => default_user(),
    };
    tenant + seq![':'] + provider + seq![':'] + a + seq![':'] + u
}

/// Build the canonical `{tenant}:{provider}:{anchor}:{user}` session key.
///
/// All canonical adapters are expected to follow this format so pause/resume semantics remain
/// deterministic across ingress providers. The anchor defaults to `conversation` and the user
/// defaults to `user` when those fields are not supplied.
pub fn canonical_session_key(
    tenant: &str,
    provider: &str,
    anchor: Option<&str>,
    user: Option<&str>,
) -> (r: SessionKey)
    ensures
        r.0@ == spec_canonical_session_key(tenant@, provider@, anchor, user),
{
    proof {
        reveal_strlit("conversation");
        reveal_strlit("user");
    }
    let a: &str = match anchor {
        Some(a) => a,
        None => "conversation",
    };
    let u: &str = match user {
        Some(u) => u,
        None => "user",
    };
    let mut key = owned(tenant);
    push_char(&mut key, ':');
    push_str(&mut key, provider);
    push_char(&mut key, ':');
    push_str(&mut key, a);
    push_char(&mut key, ':');
    push_str(&mut key, u);
    assert(key@ =~= spec_canonical_session_key(tenant@, provider@, anchor, user));
    SessionKey(key)
}

/// Cursor pointing at a session's position in a flow graph.
#[derive(Clone, Debug, PartialEq, Eq, Hash)]
pub struct SessionCursor {
    /// Identifier of the node currently owning the session.
    pub node_pointer: String,
    /// Optional wait reason emitted by the node.
    pub wait_reason: Option<String>,
    /// Optional marker describing pending outbox operations.
    pub outbox_marker: Option<String>,
}

impl SessionCursor {
    /// Creates a new cursor pointing at the provided node identifier.
    pub fn new(node_pointer: &str) -> (r: Self)
        ensures
            r.node_pointer@ == node_pointer@,
            r.wait_reason is None,
            r.outbox_marker is None,
    {
        Self { node_pointer: owned(node_pointer), wait_reason: None, outbox_marker: None }
    }

    /// Assigns a wait reason to the cursor.
    pub fn with_wait_reason(self, reason: &str) -> (r: Self)
        ensures
            r.wait_reason matches Some(w) && w@ == reason@,
            r == (SessionCursor { wait_reason: r.wait_reason, ..self }),
    {
        let mut c = self;
        c.wait_reason = Some(owned(reason));
        c
    }

    /// Assigns an outbox marker to the cursor.
    pub fn with_outbox_marker(self, marker: &str) -> (r: Self)
        ensures
            r.outbox_marker matches Some(m) && m@ == marker@,
            r == (SessionCursor { outbox_marker: r.outbox_marker, ..self }),
    {
        let mut c = self;
        c.outbox_marker = Some(owned(marker));
        c
    }
}

/// Persisted session payload describing how to resume a flow.
#[derive(Clone, Debug, PartialEq, Eq)]
pub struct SessionData {
    /// Tenant context associated with the session.
    pub tenant_ctx: TenantCtx,
    /// Flow identifier being executed.
    pub flow_id: FlowId,
    /// Cursor pinpointing where execution paused.
    pub cursor: SessionCursor,
    /// Serialized execution context/state snapshot.
    pub context_json: String,
}

/// The user segment of a session key is the user argument, or `user` when it
/// is absent, whatever the anchor: the key ends with `:` and that segment,
/// and leaving the user out gives the same key as passing `user`. Likewise
/// leaving the anchor out gives the same key as passing `conversation`, and
/// the key starts with the tenant and provider, each followed by `:`.
pub proof fn law_session_key_user_segment(
    tenant: Seq<char>,
    provider: Seq<char>,
    anchor: Option<&str>,
    user: Option<&str>,
)
    ensures
        ({
            let k = spec_canonical_session_key(tenant, provider, anchor, user);
            let u = match user {
                Some(u) => u@,
                None => seq!['u', 's', 'e', 'r'],
            };
            &&& k.len() >= u.len() + 1
            &&& k.subrange(k.len() - u.len() - 1, k.len() as int) == seq![':'] + u
        }),
        spec_canonical_session_key(tenant, provider, anchor, None) == spec_canonical_session_key(
            tenant,
            provider,
            anchor,
            Some("user"),
        ),
        spec_canonical_session_key(tenant, provider, None, user) == spec_canonical_session_key(
            tenant,
            provider,
            Some("conversation"),
            user,
        ),
        ({
            let k = spec_canonical_session_key(tenant, provider, anchor, user);
            let head = tenant + seq![':'] + provider + seq![':'];
            k.len() >= head.len() && k.subrange(0, head.len() as int) == head
        }),
{
    reveal_strlit("user");
    reveal_strlit("conversation");
    assert("conversation"@ =~= default_anchor());
    let k = spec_canonical_session_key(tenant, provider, anchor, user);
    let u = match user {
        Some(u) => u@,
        None => seq!['u', 's', 'e', 'r'],
    };
    let a = match anchor {
        Some(a) => a@,
        None => default_anchor(),
    };
    let head = tenant + seq![':'] + provider + seq![':'] + a;
    assert(k =~= head + (seq![':'] + u));
    assert(k.subrange(k.len() - u.len() - 1, k.len() as int) =~= seq![':'] + u);
    assert("user"@ =~= seq!['u', 's', 'e', 'r']);
    assert(k.subrange(0, (tenant + seq![':'] + provider + seq![':']).len() as int) =~= tenant
        + seq![':'] + provider + seq![':']);
}

} // verus!
