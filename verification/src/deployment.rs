//! Generic deployment planning structures shared between packs, runners, and deployers.
use vstd::prelude::*;

verus! {

/// Provider-agnostic deployment description shared across tools.
#[derive(Clone, Debug, PartialEq)]
pub struct DeploymentPlan {
    /// Pack being deployed.
    pub pack_id: String,
    /// Pack version.
    pub pack_version: semver::Version,
    /// Tenant identifier.
    pub tenant: String,
    /// Environment identifier.
    pub environment: String,
    /// Logical runtime topology.
    pub runners: Vec<RunnerPlan>,
    /// Messaging fabric description.
    pub messaging: Option<MessagingPlan>,
    /// Channel entrypoints into the pack.
    pub channels: Vec<ChannelPlan>,
    /// Secrets required to operate the pack.
    pub secrets: Vec<SecretPlan>,
    /// OAuth client requirements.
    pub oauth: Vec<OAuthPlan>,
    /// Telemetry guidance.
    pub telemetry: Option<TelemetryPlan>,
    /// Free-form extension space.
    pub extra: serde_json::Value,
}

/// Runner sizing and capabilities plan.
#[derive(Clone, Debug, PartialEq)]
pub struct RunnerPlan {
    /// Logical runner name.
    pub name: String,
    /// Desired concurrency level.
    pub replicas: u32,
    /// Additional hints/capabilities (opaque).
    pub capabilities: serde_json::Value,
}

/// Messaging cluster plan.
#[derive(Clone, Debug, PartialEq)]
pub struct MessagingPlan {
    /// Logical cluster identifier.
    pub logical_cluster: String,
    /// Subjects/streams required by the pack.
    pub subjects: Vec<MessagingSubjectPlan>,
    /// Extension metadata.
    pub extra: serde_json::Value,
}

/// Messaging subject plan entry.
#[derive(Clone, Debug, PartialEq)]
pub struct MessagingSubjectPlan {
    /// Subject/stream name.
    pub name: String,
    /// Intended use.
    pub purpose: String,
    /// Whether durability is required.
    pub durable: bool,
    /// Extension metadata.
    pub extra: serde_json::Value,
}

/// Channel entrypoint description.
#[derive(Clone, Debug, PartialEq)]
pub struct ChannelPlan {
    /// Logical channel name.
    pub name: String,
    /// Flow entrypoint.
    pub flow_id: String,
    /// Connector kind (opaque).
    pub kind: String,
    /// Connector-specific configuration.
    pub config: serde_json::Value,
}

/// Secret requirement entry.
#[derive(Clone, Debug, PartialEq, Eq)]
pub struct SecretPlan {
    /// Logical secret key.
    pub key: String,
    /// Whether the secret must exist.
    pub required: bool,
    /// Scope identifier (tenant/environment/etc.).
    pub scope: String,
}

/// OAuth client requirement entry.
#[derive(Clone, Debug, PartialEq)]
pub struct OAuthPlan {
    /// Provider identifier.
    pub provider_id: String,
    /// Logical client identifier.
    pub logical_client_id: String,
    /// Redirect path relative to host choice.
    pub redirect_path: String,
    /// Extension metadata.
    pub extra: serde_json::Value,
}

/// Telemetry configuration hints.
#[derive(Clone, Debug, PartialEq)]
pub struct TelemetryPlan {
    /// Whether telemetry must be configured.
    pub required: bool,
    /// Optional suggested endpoint.
    pub suggested_endpoint: Option<String>,
    /// Extension metadata.
    pub extra: serde_json::Value,
}

} // verus!
