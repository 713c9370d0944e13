//! Tenant contexts, invocation envelopes, node errors and idempotency keys.
use std::collections::BTreeMap;
use vstd::prelude::*;
use vstd::utf8::encode_utf8;

use crate::ids::{EnvId, TeamId, TenantId, UserId};
use crate::tenant::Impersonation;
use crate::text::{owned, push_char, push_str};

verus! {

/// Deadline metadata for an invocation, stored as Unix epoch milliseconds.
#[derive(Clone, Copy, Debug, PartialEq, Eq, Hash)]
pub struct InvocationDeadline {
    unix_millis: i128,
}

impl InvocationDeadline {
    /// Creates a deadline from a Unix timestamp expressed in milliseconds.
    pub fn from_unix_millis(unix_millis: i128) -> (r: Self)
        ensures
            r.millis() == unix_millis,
    {
        Self { unix_millis }
    }

    /// Returns the deadline as Unix epoch milliseconds.
    pub fn unix_millis(&self) -> (r: i128)
        ensures
            r == self.millis(),
    {
        self.unix_millis
    }

    /// The deadline in Unix epoch milliseconds.
    pub closed spec fn millis(self) -> i128 {
        self.unix_millis
    }

    /// Converts the deadline into an `OffsetDateTime` (UTC), or the range
    /// error of `time` when the instant lies outside the dates it supports.
    pub fn to_offset_date_time(&self) -> (r: Result<time::OffsetDateTime, time::error::ComponentRange>)
        requires
            i128::MIN <= self.millis() * 1_000_000 <= i128::MAX,
        ensures
            r == datetime_from_unix_nanos((self.millis() * 1_000_000) as i128),
            r matches Ok(t) ==> unix_nanos_of(t) == self.millis() * 1_000_000,
    {
        offset_date_time_from_unix_nanos(self.unix_millis * 1_000_000)
    }

    /// Creates a deadline from an `OffsetDateTime`, truncating to milliseconds
    /// (toward zero).
    pub fn from_offset_date_time(value: time::OffsetDateTime) -> (r: Self)
        ensures
            r.millis() == nanos_to_millis(unix_nanos_of(value) as int),
    {
        let nanos = unix_timestamp_nanos(&value);
        Self { unix_millis: nanos / 1_000_000 }
    }
}

/// Nanoseconds to whole milliseconds, rounding toward zero as integer
/// division does.
pub open spec fn nanos_to_millis(nanos: int) -> int {
    if nanos >= 0 {
        nanos / 1_000_000
    } else {
        -((-nanos) / 1_000_000)
    }
}

/// What `time::OffsetDateTime::from_unix_timestamp_nanos` returns for a Unix
/// timestamp in nanoseconds.
pub uninterp spec fn datetime_from_unix_nanos(nanos: i128) -> Result<
    time::OffsetDateTime,
    time::error::ComponentRange,
>;

/// What `time::OffsetDateTime::unix_timestamp_nanos` returns: the instant as
/// nanoseconds since the Unix epoch.
pub uninterp spec fn unix_nanos_of(t: time::OffsetDateTime) -> i128;

/// Builds a UTC timestamp from Unix nanoseconds with
/// `OffsetDateTime::from_unix_timestamp_nanos`.
///
/// Claimed of the call: the result is [`datetime_from_unix_nanos`] of the
/// argument, and a timestamp it builds reads back (`unix_timestamp_nanos`) as
/// that argument: `time` splits the nanoseconds into whole seconds (floored)
/// and the remaining nanoseconds, and `unix_timestamp_nanos` adds them back.
/// When the range error comes is not spelled out here.
#[verifier::external_body]
fn offset_date_time_from_unix_nanos(nanos: i128) -> (r: Result<
    time::OffsetDateTime,
    time::error::ComponentRange,
>)
    ensures
        r == datetime_from_unix_nanos(nanos),
        r matches Ok(t) ==> unix_nanos_of(t) == nanos,
{
    time::OffsetDateTime::from_unix_timestamp_nanos(nanos)
}

/// The instant as Unix nanoseconds, with
/// `OffsetDateTime::unix_timestamp_nanos`; claimed: [`unix_nanos_of`] of it.
#[verifier::external_body]
fn unix_timestamp_nanos(t: &time::OffsetDateTime) -> (r: i128)
    ensures
        r == unix_nanos_of(*t),
{
    t.unix_timestamp_nanos()
}

/// Copies an optional string.
pub(crate) fn clone_opt_string(o: &Option<String>) -> (r: Option<String>)
    ensures
        r == *o,
{
    match o {
        Some(s) => Some(s.clone()),
        None => None,
    }
}

/// Copies an optional team identifier.
pub(crate) fn clone_opt_team(o: &Option<TeamId>) -> (r: Option<TeamId>)
    ensures
        r == *o,
{
    match o {
        Some(s) => Some(s.clone()),
        None => None,
    }
}

/// Copies an optional user identifier.
pub(crate) fn clone_opt_user(o: &Option<UserId>) -> (r: Option<UserId>)
    ensures
        r == *o,
{
    match o {
        Some(s) => Some(s.clone()),
        None => None,
    }
}

/// Borrows the text of an optional string.
pub(crate) fn opt_str(o: &Option<String>) -> (r: Option<&str>)
    ensures
        r is Some <==> o is Some,
        r is Some ==> r->Some_0@ == o->Some_0@,
{
    match o {
        Some(s) => Some(s.as_str()),
        None => None,
    }
}

/// Context that accompanies every invocation across Greentic runtimes.
#[derive(Clone, Debug, PartialEq, Eq, Hash)]
pub struct TenantCtx {
    /// Environment scope (for example `dev`, `staging`, or `prod`).
    pub env: EnvId,
    /// Tenant identifier for the current execution.
    pub tenant: TenantId,
    /// Stable tenant identifier reference used across systems.
    pub tenant_id: TenantId,
    /// Optional team identifier scoped to the tenant.
    pub team: Option<TeamId>,
    /// Optional team identifier accessible via the shared schema.
    pub team_id: Option<TeamId>,
    /// Optional user identifier scoped to the tenant.
    pub user: Option<UserId>,
    /// Optional user identifier aligned with the shared schema.
    pub user_id: Option<UserId>,
    /// Optional session identifier propagated by the runtime.
    pub session_id: Option<String>,
    /// Optional flow identifier for the current execution.
    pub flow_id: Option<String>,
    /// Optional node identifier within the flow.
    pub node_id: Option<String>,
    /// Optional provider identifier describing the runtime surface.
    pub provider_id: Option<String>,
    /// Distributed tracing identifier when available.
    pub trace_id: Option<String>,
    /// Correlation identifier for linking related events.
    pub correlation_id: Option<String>,
    /// Deadline when the invocation should finish.
    pub deadline: Option<InvocationDeadline>,
    /// Attempt counter for retried invocations (starting at zero).
    pub attempt: u32,
    /// Stable idempotency key propagated across retries.
    pub idempotency_key: Option<String>,
    /// Optional impersonation context describing the acting identity.
    pub impersonation: Option<Impersonation>,
    /// Free-form attributes propagated for routing and tracing.
    pub attributes: BTreeMap<String, String>,
}

impl TenantCtx {
    /// Creates a new tenant context with the provided environment and tenant identifiers.
    pub fn new(env: EnvId, tenant: TenantId) -> (r: Self)
        ensures
            r.env == env,
            r.tenant == tenant,
            r.tenant_id == tenant,
            r.team is None,
            r.team_id is None,
            r.user is None,
            r.user_id is None,
            r.session_id is None,
            r.flow_id is None,
            r.node_id is None,
            r.provider_id is None,
            r.trace_id is None,
            r.correlation_id is None,
            r.deadline is None,
            r.attempt == 0,
            r.idempotency_key is None,
            r.impersonation is None,
            r.attributes@ == Map::<String, String>::empty(),
    {
        let tenant_id = tenant.clone();
        Self {
            env,
            tenant: tenant.clone(),
            tenant_id,
            team: None,
            team_id: None,
            user: None,
            user_id: None,
            session_id: None,
            flow_id: None,
            node_id: None,
            provider_id: None,
            trace_id: None,
            correlation_id: None,
            deadline: None,
            attempt: 0,
            idempotency_key: None,
            impersonation: None,
            attributes: BTreeMap::new(),
        }
    }

    /// Updates the team information ensuring legacy and shared fields stay aligned.
    pub fn with_team(self, team: Option<TeamId>) -> (r: Self)
        ensures
            r == (TenantCtx { team: team, team_id: team, ..self }),
    {
        let mut ctx = self;
        ctx.team = clone_opt_team(&team);
        ctx.team_id = team;
        ctx
    }

    /// Updates the user information ensuring legacy and shared fields stay aligned.
    pub fn with_user(self, user: Option<UserId>) -> (r: Self)
        ensures
            r == (TenantCtx { user: user, user_id: user, ..self }),
    {
        let mut ctx = self;
        ctx.user = clone_opt_user(&user);
        ctx.user_id = user;
        ctx
    }

    /// Updates the session identifier.
    pub fn with_session(self, session: &str) -> (r: Self)
        ensures
            r.session_id matches Some(s) && s@ == session@,
            r == (TenantCtx { session_id: r.session_id, ..self }),
    {
        let mut ctx = self;
        ctx.session_id = Some(owned(session));
        ctx
    }

    /// Updates the flow identifier.
    pub fn with_flow(self, flow: &str) -> (r: Self)
        ensures
            r.flow_id matches Some(s) && s@ == flow@,
            r == (TenantCtx { flow_id: r.flow_id, ..self }),
    {
        let mut ctx = self;
        ctx.flow_id = Some(owned(flow));
        ctx
    }

    /// Updates the node identifier.
    pub fn with_node(self, node: &str) -> (r: Self)
        ensures
            r.node_id matches Some(s) && s@ == node@,
            r == (TenantCtx { node_id: r.node_id, ..self }),
    {
        let mut ctx = self;
        ctx.node_id = Some(owned(node));
        ctx
    }

    /// Updates the provider identifier.
    pub fn with_provider(self, provider: &str) -> (r: Self)
        ensures
            r.provider_id matches Some(s) && s@ == provider@,
            r == (TenantCtx { provider_id: r.provider_id, ..self }),
    {
        let mut ctx = self;
        ctx.provider_id = Some(owned(provider));
        ctx
    }

    /// Sets the impersonation context.
    pub fn with_impersonation(self, impersonation: Option<Impersonation>) -> (r: Self)
        ensures
            r == (TenantCtx { impersonation: impersonation, ..self }),
    {
        let mut ctx = self;
        ctx.impersonation = impersonation;
        ctx
    }

    /// Returns a copy of the context with the provided attempt value.
    pub fn with_attempt(self, attempt: u32) -> (r: Self)
        ensures
            r == (TenantCtx { attempt: attempt, ..self }),
    {
        let mut ctx = self;
        ctx.attempt = attempt;
        ctx
    }

    /// Updates the deadline metadata for subsequent invocations.
    pub fn with_deadline(self, deadline: Option<InvocationDeadline>) -> (r: Self)
        ensures
            r == (TenantCtx { deadline: deadline, ..self }),
    {
        let mut ctx = self;
        ctx.deadline = deadline;
        ctx
    }

    /// Returns the session identifier, when present.
    pub fn session_id(&self) -> (r: Option<&str>)
        ensures
            r is Some <==> self.session_id is Some,
            r is Some ==> r->Some_0@ == self.session_id->Some_0@,
    {
        opt_str(&self.session_id)
    }

    /// Returns the flow identifier, when present.
    pub fn flow_id(&self) -> (r: Option<&str>)
        ensures
            r is Some <==> self.flow_id is Some,
            r is Some ==> r->Some_0@ == self.flow_id->Some_0@,
    {
        opt_str(&self.flow_id)
    }

    /// Returns the node identifier, when present.
    pub fn node_id(&self) -> (r: Option<&str>)
        ensures
            r is Some <==> self.node_id is Some,
            r is Some ==> r->Some_0@ == self.node_id->Some_0@,
    {
        opt_str(&self.node_id)
    }

    /// Returns the provider identifier, when present.
    pub fn provider_id(&self) -> (r: Option<&str>)
        ensures
            r is Some <==> self.provider_id is Some,
            r is Some ==> r->Some_0@ == self.provider_id->Some_0@,
    {
        opt_str(&self.provider_id)
    }
}


/// Normalized ingress payload delivered to nodes.
#[derive(Clone, Debug, PartialEq, Eq)]
pub struct InvocationEnvelope {
    /// Tenant context for the invocation.
    pub ctx: TenantCtx,
    /// Flow identifier the event belongs to.
    pub flow_id: String,
    /// Optional node identifier within the flow.
    pub node_id: Option<String>,
    /// Operation being invoked (for example `on_message` or `tick`).
    pub op: String,
    /// Normalized payload for the invocation.
    pub payload: Vec<u8>,
    /// Raw metadata propagated from the ingress surface.
    pub metadata: Vec<u8>,
}

/// Structured detail payload attached to a node error.
#[derive(Clone, Debug, PartialEq, Eq)]
pub enum ErrorDetail {
    /// UTF-8 encoded detail payload.
    Text(String),
    /// Binary payload detail (for example message pack or CBOR).
    Binary(Vec<u8>),
}

/// Error type emitted by Greentic nodes.
#[derive(Debug)]
pub struct NodeError {
    /// Machine readable error code.
    pub code: String,
    /// Human readable message explaining the failure.
    pub message: String,
    /// Whether the failure is retryable by the runtime.
    pub retryable: bool,
    /// Optional backoff duration in milliseconds for the next retry.
    pub backoff_ms: Option<u64>,
    /// Optional structured error detail payload.
    pub details: Option<ErrorDetail>,
    /// Rendered description of the underlying error, when one was attached.
    pub source: Option<String>,
}

impl NodeError {
    /// Whether a source error has been attached.
    pub open spec fn has_source(self) -> bool {
        self.source is Some
    }

    /// Constructs a non-retryable failure with the supplied code and message.
    pub fn new(code: &str, message: &str) -> (r: Self)
        ensures
            r.code@ == code@,
            r.message@ == message@,
            !r.retryable,
            r.backoff_ms is None,
            r.details is None,
            !r.has_source(),
    {
        Self {
            code: owned(code),
            message: owned(message),
            retryable: false,
            backoff_ms: None,
            details: None,
            source: None,
        }
    }

    /// Marks the error as retryable with an optional backoff value.
    pub fn with_retry(self, backoff_ms: Option<u64>) -> (r: Self)
        ensures
            r == (NodeError { retryable: true, backoff_ms: backoff_ms, ..self }),
    {
        let mut err = self;
        err.retryable = true;
        err.backoff_ms = backoff_ms;
        err
    }

    /// Attaches structured details to the error.
    pub fn with_detail(self, detail: ErrorDetail) -> (r: Self)
        ensures
            r == (NodeError { details: Some(detail), ..self }),
    {
        let mut err = self;
        err.details = Some(detail);
        err
    }

    /// Attaches a textual detail payload to the error.
    pub fn with_detail_text(self, detail: &str) -> (r: Self)
        ensures
            r.details matches Some(ErrorDetail::Text(t)) && t@ == detail@,
            r == (NodeError { details: r.details, ..self }),
    {
        let mut err = self;
        err.details = Some(ErrorDetail::Text(owned(detail)));
        err
    }

    /// Attaches a binary detail payload to the error.
    pub fn with_detail_binary(self, detail: Vec<u8>) -> (r: Self)
        ensures
            r == (NodeError { details: Some(ErrorDetail::Binary(detail)), ..self }),
    {
        let mut err = self;
        err.details = Some(ErrorDetail::Binary(detail));
        err
    }

    /// Attaches a source error to the failure for debugging purposes; the
    /// error is kept as its rendered description.
    pub fn with_source<E: core::fmt::Display>(self, source: E) -> (r: Self)
        ensures
            r.has_source(),
            r.code == self.code,
            r.message == self.message,
            r.retryable == self.retryable,
            r.backoff_ms == self.backoff_ms,
            r.details == self.details,
    {
        let mut err = self;
        err.source = Some(source.to_string());
        err
    }

    /// Returns the structured details, when available.
    pub fn detail(&self) -> (r: Option<&ErrorDetail>)
        ensures
            r is Some <==> self.details is Some,
            r is Some ==> *r->Some_0 == self.details->Some_0,
    {
        self.details.as_ref()
    }

    /// Returns the description of the attached source error, when one has been provided.
    pub fn source(&self) -> (r: Option<&str>)
        ensures
            r is Some <==> self.has_source(),
    {
        opt_str(&self.source)
    }

    /// The error rendered as `code: message`.
    pub fn to_message(&self) -> (r: String)
        ensures
            r@ == self.code@ + seq![':', ' '] + self.message@,
    {
        let mut out = owned(self.code.as_str());
        push_char(&mut out, ':');
        push_char(&mut out, ' ');
        push_str(&mut out, self.message.as_str());
        proof {
            lemma_join_with_colon(self.code@, self.message@, out@);
        }
        out
    }
}

proof fn lemma_join_with_colon(a: Seq<char>, b: Seq<char>, out: Seq<char>)
    requires
        out == a.push(':').push(' ') + b,
    ensures
        out == a + seq![':', ' '] + b,
{
    assert(a.push(':').push(' ') =~= a + seq![':', ' ']);
}

// ---------------------------------------------------------------------------
// Idempotency keys.

/// FNV-1a 128-bit offset basis.
pub const FNV_OFFSET_BASIS: u128 = 0x6c62272e07bb014262b821756295c58d;

/// FNV-1a 128-bit prime.
pub const FNV_PRIME: u128 = 0x0000000001000000000000000000013b;

/// The 128-bit FNV-1a hash of a byte string.
pub open spec fn fnv1a_128(bytes: Seq<u8>) -> u128
    decreases bytes.len(),
{
    if bytes.len() == 0 {
        FNV_OFFSET_BASIS
    } else {
        (fnv1a_128(bytes.drop_last()) ^ (bytes.last() as u128)).wrapping_mul(FNV_PRIME)
    }
}

/// Lowercase hexadecimal digit for a value below 16.
pub open spec fn hex_digit(n: u8) -> char {
    if n < 10 {
        (('0' as u8) + n) as char
    } else {
        (('a' as u8) + (n - 10)) as char
    }
}

/// The 4-bit group of `h` at position `k` (0 is the least significant).
pub open spec fn nibble(h: u128, k: int) -> u8 {
    ((h >> ((k * 4) as u128)) & 0xf) as u8
}

/// The 32 lowercase hexadecimal digits of `h`, most significant first.
pub open spec fn hex128(h: u128) -> Seq<char> {
    Seq::new(32, |i: int| hex_digit(nibble(h, 31 - i)))
}

/// The text hashed for an idempotency key: `tenant|flow|node|correlation`.
pub open spec fn idempotency_input(
    tenant: Seq<char>,
    flow: Seq<char>,
    node: Seq<char>,
    correlation: Seq<char>,
) -> Seq<char> {
    tenant + seq!['|'] + flow + seq!['|'] + node + seq!['|'] + correlation
}

/// The text of an optional string slice, empty when absent.
pub open spec fn text_or_empty(o: Option<&str>) -> Seq<char> {
    match o {
        Some(s) => s@,
        None => Seq::empty(),
    }
}

/// The correlation segment: the argument, else the context's, else empty.
pub open spec fn correlation_segment(ctx: TenantCtx, correlation: Option<&str>) -> Seq<char> {
    match correlation {
        Some(c) => c@,
        None => match ctx.correlation_id {
            Some(c) => c@,
            None => Seq::empty(),
        },
    }
}

/// The idempotency key for an invocation.
pub open spec fn spec_idempotency_key(
    ctx: TenantCtx,
    flow: Seq<char>,
    node_id: Option<&str>,
    correlation: Option<&str>,
) -> Seq<char> {
    hex128(
        fnv1a_128(
            encode_utf8(
                idempotency_input(
                    ctx.tenant_id.0@,
                    flow,
                    text_or_empty(node_id),
                    correlation_segment(ctx, correlation),
                ),
            ),
        ),
    )
}

proof fn lemma_nibble_small(h: u128, k: int)
    requires
        0 <= k < 32,
    ensures
        nibble(h, k) < 16,
{
    let s = (k * 4) as u128;
    assert((h >> s) & 0xf <= 0xf) by (bit_vector);
}

/// Lowercase hexadecimal rendering of a 128-bit FNV-1a hash.
fn fnv1a_128_hex(bytes: &[u8]) -> (r: String)
    ensures
        r@ == hex128(fnv1a_128(bytes@)),
{
    let mut hash: u128 = FNV_OFFSET_BASIS;
    let mut i: usize = 0;
    while i < bytes.len()
        invariant
            i <= bytes.len(),
            hash == fnv1a_128(bytes@.subrange(0, i as int)),
        decreases bytes.len() - i,
    {
        proof {
            assert(bytes@.subrange(0, i + 1).drop_last() =~= bytes@.subrange(0, i as int));
        }
        hash = hash ^ (bytes[i] as u128);
        hash = hash.wrapping_mul(FNV_PRIME);
        i = i + 1;
    }
    assert(bytes@.subrange(0, bytes.len() as int) =~= bytes@);
    let mut output = String::new();
    let mut shift: u32 = 32;
    while shift > 0
        invariant
            shift <= 32,
            output@ =~= Seq::new((32 - shift) as nat, |i: int| hex_digit(nibble(hash, 31 - i))),
        decreases shift,
    {
        shift = shift - 1;
        let s: u128 = (shift as u128) * 4;
        let nib: u8 = ((hash >> s) & 0x0f) as u8;
        proof {
            lemma_nibble_small(hash, shift as int);
            assert(nib == nibble(hash, shift as int));
        }
        let c = if nib < 10 {
            (48u8 + nib) as char
        } else {
            (97u8 + (nib - 10)) as char
        };
        assert(c == hex_digit(nibble(hash, shift as int)));
        push_char(&mut output, c);
    }
    output
}

/// Generates a stable idempotency key for a node invocation.
///
/// The key uses tenant, flow, node, and correlation identifiers. Missing
/// correlation values fall back to the value stored on the context.
pub fn make_idempotency_key(
    ctx: &TenantCtx,
    flow_id: &str,
    node_id: Option<&str>,
    correlation: Option<&str>,
) -> (r: String)
    ensures
        r@ == spec_idempotency_key(*ctx, flow_id@, node_id, correlation),
        r@.len() == 32,
{
    let node_segment: &str = match node_id {
        Some(n) => n,
        None => "",
    };
    let corr_segment: &str = match correlation {
        Some(c) => c,
        None => match &ctx.correlation_id {
            Some(c) => c.as_str(),
            None => "",
        },
    };
    proof {
        reveal_strlit("");
    }
    let mut input = owned(ctx.tenant_id.as_str());
    push_char(&mut input, '|');
    push_str(&mut input, flow_id);
    push_char(&mut input, '|');
    push_str(&mut input, node_segment);
    push_char(&mut input, '|');
    push_str(&mut input, corr_segment);
    assert(input@ =~= idempotency_input(
        ctx.tenant_id.0@,
        flow_id@,
        text_or_empty(node_id),
        correlation_segment(*ctx, correlation),
    ));
    fnv1a_128_hex(input.as_str().as_bytes())
}

/// Keys are 32 characters long, and a missing correlation argument means the
/// context's own correlation identifier.
pub proof fn law_idempotency_key_shape(
    ctx: TenantCtx,
    flow: Seq<char>,
    node_id: Option<&str>,
    ctx_correlation: Option<&str>,
)
    requires
        ctx_correlation is Some <==> ctx.correlation_id is Some,
        ctx_correlation is Some ==> ctx_correlation->Some_0@ == ctx.correlation_id->Some_0@,
    ensures
        spec_idempotency_key(ctx, flow, node_id, None) == spec_idempotency_key(
            ctx,
            flow,
            node_id,
            ctx_correlation,
        ),
        spec_idempotency_key(ctx, flow, node_id, None).len() == 32,
{
    assert(correlation_segment(ctx, None) == correlation_segment(ctx, ctx_correlation));
}

} // verus!
