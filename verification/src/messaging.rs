//! Generic channel messaging envelope shared across providers.
use std::collections::BTreeMap;

use crate::invocation::TenantCtx;
use vstd::prelude::*;

verus! {

pub mod rendering;
pub mod universal_dto;

/// Collection of metadata entries associated with a channel message.
pub type MessageMetadata = BTreeMap<String, String>;

/// Generic attachment referenced by a channel message.
#[derive(Clone, Debug, PartialEq, Eq)]
pub struct Attachment {
    /// MIME type of the attachment (for example `image/png`).
    pub mime_type: String,
    /// URL pointing at the attachment payload.
    pub url: String,
    /// Optional display name for the attachment.
    pub name: Option<String>,
    /// Optional attachment size in bytes.
    pub size_bytes: Option<u64>,
}

/// Envelope for channel messages exchanged with adapters.
#[derive(Clone, Debug, PartialEq, Eq)]
pub struct ChannelMessageEnvelope {
    /// Stable identifier for the message.
    pub id: String,
    /// Tenant context propagated with the message.
    pub tenant: TenantCtx,
    /// Abstract channel identifier or type.
    pub channel: String,
    /// Conversation or thread identifier.
    pub session_id: String,
    /// Optional user identifier associated with the message.
    pub user_id: Option<String>,
    /// Optional text content.
    pub text: Option<String>,
    /// Attachments included with the message.
    pub attachments: Vec<Attachment>,
    /// Free-form metadata for adapters and flows.
    pub metadata: MessageMetadata,
}

} // verus!
