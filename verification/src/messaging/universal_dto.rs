//! Shared DTOs for the universal messaging operator-provider protocol.
use std::collections::BTreeMap;

use crate::messaging::ChannelMessageEnvelope;
use vstd::prelude::*;

verus! {

/// HTTP header name/value pair.
#[derive(Clone, Debug, PartialEq)]
pub struct Header {
    /// Header name.
    pub name: String,
    /// Header value.
    pub value: String,
}

/// Normalized HTTP ingress payload (v1).
#[derive(Clone, Debug, PartialEq)]
pub struct HttpInV1 {
    /// HTTP method.
    pub method: String,
    /// Request path.
    pub path: String,
    /// Optional raw query string.
    pub query: Option<String>,
    /// Request headers.
    pub headers: Vec<Header>,
    /// Base64-encoded request body.
    pub body_b64: String,
    /// Optional route hint for dispatching.
    pub route_hint: Option<String>,
    /// Optional binding identifier for routing.
    pub binding_id: Option<String>,
    /// Optional provider configuration payload.
    pub config: Option<serde_json::Value>,
}

/// Normalized HTTP egress response (v1).
#[derive(Clone, Debug, PartialEq)]
pub struct HttpOutV1 {
    /// Response status code.
    pub status: u16,
    /// Response headers.
    pub headers: Vec<Header>,
    /// Base64-encoded response body.
    pub body_b64: String,
    /// Emitted inbound events.
    pub events: Vec<ChannelMessageEnvelope>,
}

/// Render planning input for provider payloads.
#[derive(Clone, Debug, PartialEq)]
pub struct RenderPlanInV1 {
    /// Message to be rendered.
    pub message: ChannelMessageEnvelope,
    /// Optional metadata for renderer hints.
    pub metadata: BTreeMap<String, serde_json::Value>,
}

/// Render planning output containing the serialized plan.
#[derive(Clone, Debug, PartialEq)]
pub struct RenderPlanOutV1 {
    /// Serialized plan JSON.
    pub plan_json: String,
}

/// Provider-encoded payload plus metadata.
#[derive(Clone, Debug, PartialEq)]
pub struct ProviderPayloadV1 {
    /// MIME content type of the payload.
    pub content_type: String,
    /// Base64-encoded payload body.
    pub body_b64: String,
    /// Provider-specific metadata.
    pub metadata: BTreeMap<String, serde_json::Value>,
}

/// Encode request combining the message and render plan.
#[derive(Clone, Debug, PartialEq)]
pub struct EncodeInV1 {
    /// Message to be encoded.
    pub message: ChannelMessageEnvelope,
    /// Render plan to apply.
    pub plan: RenderPlanInV1,
}

/// Authenticated user reference used for provider operations.
#[derive(Clone, Debug, Default, PartialEq, Eq)]
pub struct AuthUserRefV1 {
    /// Provider user identifier.
    pub user_id: String,
    /// Token key reference.
    pub token_key: String,
    /// Optional tenant identifier.
    pub tenant_id: Option<String>,
    /// Optional user email address.
    pub email: Option<String>,
    /// Optional display name.
    pub display_name: Option<String>,
}

/// Send request for a provider payload.
#[derive(Clone, Debug, PartialEq)]
pub struct SendPayloadInV1 {
    /// Provider type identifier.
    pub provider_type: String,
    /// Optional tenant identifier override.
    pub tenant_id: Option<String>,
    /// Optional auth user reference.
    pub auth_user: Option<AuthUserRefV1>,
    /// Provider payload to deliver.
    pub payload: ProviderPayloadV1,
}

/// Send result status and retry hint.
#[derive(Clone, Debug, PartialEq)]
pub struct SendPayloadResultV1 {
    /// Whether the send succeeded.
    pub ok: bool,
    /// Optional error or status message.
    pub message: Option<String>,
    /// Whether the operation is retryable.
    pub retryable: bool,
}

/// Subscription ensure request (v1).
#[derive(Clone, Debug, PartialEq)]
pub struct SubscriptionEnsureInV1 {
    /// Protocol version.
    pub v: u32,
    /// Provider identifier.
    pub provider: String,
    /// Optional tenant hint.
    pub tenant_hint: Option<String>,
    /// Optional team hint.
    pub team_hint: Option<String>,
    /// Optional binding identifier.
    pub binding_id: Option<String>,
    /// Resource to subscribe to.
    pub resource: String,
    /// Change types to subscribe to.
    pub change_types: Vec<String>,
    /// Notification URL for callbacks.
    pub notification_url: String,
    /// Optional expiration in minutes.
    pub expiration_minutes: Option<u32>,
    /// Optional target expiration timestamp (ms since epoch).
    pub expiration_target_unix_ms: Option<u64>,
    /// Optional client state token.
    pub client_state: Option<String>,
    /// Optional provider metadata.
    pub metadata: Option<serde_json::Value>,
    /// Authenticated user reference.
    pub user: AuthUserRefV1,
}

/// Subscription ensure response (v1).
#[derive(Clone, Debug, PartialEq)]
pub struct SubscriptionEnsureOutV1 {
    /// Protocol version.
    pub v: u32,
    /// Provider subscription identifier.
    pub subscription_id: String,
    /// Expiration timestamp (ms since epoch).
    pub expiration_unix_ms: u64,
    /// Resource subscribed to.
    pub resource: String,
    /// Change types in the subscription.
    pub change_types: Vec<String>,
    /// Optional client state token.
    pub client_state: Option<String>,
    /// Optional provider metadata.
    pub metadata: Option<serde_json::Value>,
    /// Optional binding identifier.
    pub binding_id: Option<String>,
    /// Authenticated user reference.
    pub user: AuthUserRefV1,
}

/// Subscription renewal request (v1).
#[derive(Clone, Debug, PartialEq)]
pub struct SubscriptionRenewInV1 {
    /// Protocol version.
    pub v: u32,
    /// Provider identifier.
    pub provider: String,
    /// Subscription identifier.
    pub subscription_id: String,
    /// Optional expiration in minutes.
    pub expiration_minutes: Option<u32>,
    /// Optional target expiration timestamp (ms since epoch).
    pub expiration_target_unix_ms: Option<u64>,
    /// Optional provider metadata.
    pub metadata: Option<serde_json::Value>,
    /// Authenticated user reference.
    pub user: AuthUserRefV1,
}

/// Subscription renewal response (v1).
#[derive(Clone, Debug, PartialEq)]
pub struct SubscriptionRenewOutV1 {
    /// Protocol version.
    pub v: u32,
    /// Subscription identifier.
    pub subscription_id: String,
    /// Expiration timestamp (ms since epoch).
    pub expiration_unix_ms: u64,
    /// Optional provider metadata.
    pub metadata: Option<serde_json::Value>,
    /// Authenticated user reference.
    pub user: AuthUserRefV1,
}

/// Subscription deletion request (v1).
#[derive(Clone, Debug, PartialEq, Eq)]
pub struct SubscriptionDeleteInV1 {
    /// Protocol version.
    pub v: u32,
    /// Provider identifier.
    pub provider: String,
    /// Subscription identifier.
    pub subscription_id: String,
    /// Authenticated user reference.
    pub user: AuthUserRefV1,
}

/// Subscription deletion response (v1).
#[derive(Clone, Debug, PartialEq, Eq)]
pub struct SubscriptionDeleteOutV1 {
    /// Protocol version.
    pub v: u32,
    /// Subscription identifier.
    pub subscription_id: String,
    /// Authenticated user reference.
    pub user: AuthUserRefV1,
}

/// Result alias for subscription ensure calls.
pub type SubscriptionEnsureResultV1 = SubscriptionEnsureOutV1;
/// Result alias for subscription delete calls.
pub type SubscriptionDeleteResultV1 = SubscriptionDeleteOutV1;
/// Alias for subscription renewal input.
pub type SubscriptionRenewalInV1 = SubscriptionRenewInV1;
/// Alias for subscription renewal output.
pub type SubscriptionRenewalOutV1 = SubscriptionRenewOutV1;

} // verus!
