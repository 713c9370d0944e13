//! Telemetry helpers exposed by `greentic-types`.
pub mod keys;
pub mod span_context;

pub use keys::OtlpKeys;
pub use span_context::SpanContext;
