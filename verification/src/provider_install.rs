//! Provider installation records shared across provisioning workflows.
use vstd::prelude::*;

use crate::ids::PackId;
use crate::invocation::TenantCtx;
use crate::refs::ProviderInstallId;

verus! {

/// Reference map for configuration or secret entries.
pub type ProviderInstallRefs = std::collections::BTreeMap<String, String>;

/// Provider installation record shared across domains.
#[derive(Clone, Debug, PartialEq)]
pub struct ProviderInstallRecord {
    /// Tenant context for the install.
    pub tenant: TenantCtx,
    /// Provider identifier (string-based to avoid enum coupling).
    pub provider_id: String,
    /// Installation identifier.
    pub install_id: ProviderInstallId,
    /// Pack identifier used for provisioning.
    pub pack_id: PackId,
    /// Pack version used for provisioning.
    pub pack_version: semver::Version,
    /// Install creation timestamp.
    pub created_at: time::OffsetDateTime,
    /// Install last update timestamp.
    pub updated_at: time::OffsetDateTime,
    /// Configuration references produced by provisioning.
    pub config_refs: ProviderInstallRefs,
    /// Secret references produced by provisioning.
    pub secret_refs: ProviderInstallRefs,
    /// Webhook provisioning state (opaque).
    pub webhook_state: serde_json::Value,
    /// Subscription provisioning state (opaque).
    pub subscriptions_state: serde_json::Value,
    /// Free-form metadata from provisioning workflows.
    pub metadata: serde_json::Value,
}


} // verus!
