//! Provider capability descriptors for event fabrics.
use crate::text::owned;
use vstd::prelude::*;

verus! {

/// High-level role of an event provider.
#[derive(Clone, Debug, PartialEq, Eq, Hash)]
pub enum EventProviderKind {
    /// Message broker capable of publish/subscribe.
    Broker,
    /// Source emitting events into the fabric.
    Source,
    /// Sink consuming events from the fabric.
    Sink,
    /// Bridge translating between fabrics.
    Bridge,
}

/// Transport protocols supported by a provider.
#[derive(Clone, Debug, PartialEq, Eq, Hash)]
pub enum TransportKind {
    /// NATS transport.
    Nats,
    /// Apache Kafka transport.
    Kafka,
    /// Amazon SQS transport.
    Sqs,
    /// Webhook delivery.
    Webhook,
    /// Email transport.
    Email,
    /// Any other transport not covered above.
    Other(String),
}

/// Delivery guarantees advertised by a provider.
#[derive(Clone, Debug, PartialEq, Eq, Hash)]
pub enum ReliabilityKind {
    /// At-most-once delivery (lossy).
    AtMostOnce,
    /// At-least-once delivery (duplicates possible).
    AtLeastOnce,
    /// Effectively-once delivery (deduplicated).
    EffectivelyOnce,
}

/// Ordering guarantees for delivered events.
#[derive(Clone, Debug, PartialEq, Eq, Hash)]
pub enum OrderingKind {
    /// No ordering guarantee (serialized as `none`).
    Unordered,
    /// Ordering preserved per key/partition.
    PerKey,
    /// Global ordering across all events.
    Global,
}

/// Descriptor capturing the capabilities of an event provider.
#[derive(Clone, Debug, PartialEq, Eq)]
pub struct EventProviderDescriptor {
    /// Human-readable name for the provider instance.
    pub name: String,
    /// Provider role (broker, source, sink, bridge).
    pub kind: EventProviderKind,
    /// Transport used by the provider.
    pub transport: TransportKind,
    /// Reliability guarantees.
    pub reliability: ReliabilityKind,
    /// Ordering guarantees.
    pub ordering: OrderingKind,
    /// Optional free-form notes.
    pub notes: Option<String>,
    /// Tags for discovery and filtering.
    pub tags: Vec<String>,
}

impl Default for EventProviderDescriptor {
    fn default() -> (r: Self)
        ensures
            r.name@ == "provider"@,
            r.kind == EventProviderKind::Broker,
            r.transport matches TransportKind::Other(t) && t@ == "unspecified"@,
            r.reliability == ReliabilityKind::AtMostOnce,
            r.ordering == OrderingKind::Unordered,
            r.notes is None,
            r.tags@.len() == 0,
    {
        Self {
            name: owned("provider"),
            kind: EventProviderKind::Broker,
            transport: TransportKind::Other(owned("unspecified")),
            reliability: ReliabilityKind::AtMostOnce,
            ordering: OrderingKind::Unordered,
            notes: None,
            tags: Vec::new(),
        }
    }
}

} // verus!
