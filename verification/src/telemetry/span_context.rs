//! Telemetry span context shared across providers.
use crate::ids::TenantId;
use crate::session::SessionKey;
use crate::text::owned;
use vstd::prelude::*;

verus! {

/// Minimal telemetry context compatible with OTLP semantic conventions.
#[derive(Clone, Debug, PartialEq, Eq)]
pub struct SpanContext {
    /// Tenant identifier owning the span.
    pub tenant: TenantId,
    /// Optional session identifier emitting the span.
    pub session_id: Option<SessionKey>,
    /// Flow identifier.
    pub flow_id: String,
    /// Node identifier.
    pub node_id: Option<String>,
    /// Provider or runtime emitting the span.
    pub provider: String,
    /// Span start timestamp.
    pub start: Option<time::OffsetDateTime>,
    /// Span end timestamp.
    pub end: Option<time::OffsetDateTime>,
}

impl SpanContext {
    /// Creates a new span context with the supplied tenant and flow identifiers.
    pub fn new(tenant: TenantId, flow_id: &str, provider: &str) -> (r: Self)
        ensures
            r.tenant == tenant,
            r.session_id is None,
            r.flow_id@ == flow_id@,
            r.node_id is None,
            r.provider@ == provider@,
            r.start is None,
            r.end is None,
    {
        Self {
            tenant,
            session_id: None,
            flow_id: owned(flow_id),
            node_id: None,
            provider: owned(provider),
            start: None,
            end: None,
        }
    }

    /// Sets the session identifier.
    pub fn with_session(self, session_id: SessionKey) -> (r: Self)
        ensures
            r == (SpanContext { session_id: Some(session_id), ..self }),
    {
        let mut s = self;
        s.session_id = Some(session_id);
        s
    }

    /// Sets the node identifier.
    pub fn with_node(self, node_id: &str) -> (r: Self)
        ensures
            r.node_id matches Some(n) && n@ == node_id@,
            r == (SpanContext { node_id: r.node_id, ..self }),
    {
        let mut s = self;
        s.node_id = Some(owned(node_id));
        s
    }

    /// Marks the span start timestamp.
    pub fn started(self, start: time::OffsetDateTime) -> (r: Self)
        ensures
            r == (SpanContext { start: Some(start), ..self }),
    {
        let mut s = self;
        s.start = Some(start);
        s
    }

    /// Marks the span end timestamp.
    pub fn finished(self, end: time::OffsetDateTime) -> (r: Self)
        ensures
            r == (SpanContext { end: Some(end), ..self }),
    {
        let mut s = self;
        s.end = Some(end);
        s
    }
}

} // verus!
