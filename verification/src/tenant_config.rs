//! Tenant-facing configuration document shapes (skin/auth/config/did).
//!
//! These structs mirror the JSON documents served to the Loveable UI. They intentionally avoid
//! hard-coding UI navigation semantics (tabs, slots, etc.) to keep the types crate forward
//! compatible.
use std::collections::BTreeMap;

use crate::text::{copy_strings, texts};
use vstd::prelude::*;

verus! {

/// Branding and layout configuration for a tenant (`skin.json`).
#[derive(Clone, Debug, PartialEq, Eq)]
pub struct RepoSkin {
    /// Tenant identifier the skin belongs to.
    pub tenant_id: String,
    /// Optional human-readable tenant name.
    pub tenant_name: Option<String>,
    /// Optional product name to display.
    pub product_name: Option<String>,
    /// Theme configuration (colors, fonts, imagery).
    pub theme: RepoSkinTheme,
    /// Optional layout flags controlling navigation visibility and hero band.
    pub layout: Option<RepoSkinLayout>,
    /// Optional worker panel configuration.
    pub worker_panel: Option<RepoWorkerPanel>,
    /// Optional tenant links for docs/support/status.
    pub links: Option<RepoSkinLinks>,
}

/// Theme settings for login and console surfaces.
#[derive(Clone, Debug, PartialEq, Eq)]
pub struct RepoSkinTheme {
    /// Primary logo URL.
    pub logo_url: String,
    /// Optional favicon URL.
    pub favicon_url: Option<String>,
    /// Optional hero image URL.
    pub hero_image_url: Option<String>,
    /// Primary brand color.
    pub primary_color: String,
    /// Accent brand color.
    pub accent_color: String,
    /// Optional background color.
    pub background_color: Option<String>,
    /// Optional background gradient.
    pub background_gradient: Option<String>,
    /// Optional font family override.
    pub font_family: Option<String>,
    /// Optional success color override.
    pub success_color: Option<String>,
    /// Optional warning color override.
    pub warning_color: Option<String>,
    /// Optional danger color override.
    pub danger_color: Option<String>,
}

/// Layout toggles describing visible console sections.
#[derive(Clone, Debug, PartialEq, Eq, Default)]
pub struct RepoSkinLayout {
    /// Whether to show the dashboard tab.
    pub show_dashboard: bool,
    /// Whether to show the repositories tab.
    pub show_repositories: bool,
    /// Whether to show the pipeline tab.
    pub show_pipeline: bool,
    /// Whether to show the packs tab.
    pub show_packs: bool,
    /// Whether to show the trust & access tab.
    pub show_trust_access: bool,
    /// Whether to show the audit & compliance tab.
    pub show_audit_compliance: bool,
    /// Whether to show the admin/config tab.
    pub show_admin_config: Option<bool>,
    /// Whether to render the hero band.
    pub show_hero_band: Option<bool>,
    /// Optional hero title.
    pub hero_title: Option<String>,
    /// Optional hero subtitle.
    pub hero_subtitle: Option<String>,
}

/// Worker panel placement and defaults.
#[derive(Clone, Debug, PartialEq, Eq)]
pub struct RepoWorkerPanel {
    /// Whether the worker panel is enabled.
    pub enabled: bool,
    /// Optional display title.
    pub title: Option<String>,
    /// Whether the panel should open by default.
    pub default_open: Option<bool>,
    /// Preferred position (for example `left` or `right`).
    pub position: Option<String>,
}

/// Optional tenant links for navigation.
#[derive(Clone, Debug, PartialEq, Eq, Default)]
pub struct RepoSkinLinks {
    /// Optional documentation URL.
    pub docs_url: Option<String>,
    /// Optional support URL.
    pub support_url: Option<String>,
    /// Optional status page URL.
    pub status_url: Option<String>,
}

/// Login options for a tenant (`auth.json`).
#[derive(Clone, Debug, PartialEq, Eq)]
pub struct RepoAuth {
    /// Tenant identifier the auth config belongs to.
    pub tenant_id: String,
    /// Available identity providers.
    pub identity_providers: Vec<IdentityProviderOption>,
}

/// Identity provider option shown on the login page.
#[derive(Clone, Debug, PartialEq, Eq)]
pub struct IdentityProviderOption {
    /// Provider pack identifier.
    pub id: String,
    /// Optional kind hint (for example `identity-provider`).
    pub kind: Option<String>,
    /// Button label.
    pub label: String,
    /// Optional icon identifier.
    pub icon: Option<String>,
    /// Optional button style.
    pub button_style: Option<String>,
    /// Optional ordering hint.
    pub order: Option<i32>,
    /// Login URL for the provider.
    pub login_url: String,
    /// Optional description text.
    pub description: Option<String>,
    /// Whether the provider is recommended.
    pub recommended: Option<bool>,
}

/// Tenant UI configuration exposed to the console (`config.json`).
#[derive(Clone, Debug, PartialEq, Eq)]
pub struct RepoTenantConfig {
    /// Tenant identifier the config belongs to.
    pub tenant_id: String,
    /// Structural flags: active sections for the UI. Values are conventions, not enforced here.
    pub enabled_tabs: Vec<String>,
    /// Enabled packs grouped by kind.
    pub enabled_packs: EnabledPacks,
    /// Default pipeline choices.
    pub default_pipeline: Option<DefaultPipeline>,
    /// Optional configured stores.
    pub stores: Option<Vec<StoreTarget>>,
    /// Optional configured distributors.
    pub distributors: Option<Vec<DistributorTarget>>,
    /// Feature flags for the UI.
    pub features: Option<RepoConfigFeatures>,
    /// Maps page slots to UI action handler pack identifiers.
    pub page_handlers: Option<BTreeMap<String, String>>,
}

/// Enabled packs grouped by capability.
#[derive(Clone, Debug, PartialEq, Eq, Default)]
pub struct EnabledPacks {
    /// Identity provider pack identifiers.
    pub identity_providers: Option<Vec<String>>,
    /// Source provider pack identifiers.
    pub source_providers: Option<Vec<String>>,
    /// Scanner pack identifiers.
    pub scanners: Option<Vec<String>>,
    /// Signing pack identifiers.
    pub signing: Option<Vec<String>>,
    /// Attestation pack identifiers.
    pub attestation: Option<Vec<String>>,
    /// Policy engine pack identifiers.
    pub policy_engines: Option<Vec<String>>,
    /// OCI provider pack identifiers.
    pub oci_providers: Option<Vec<String>>,
}

/// Default pipeline selections per capability.
#[derive(Clone, Debug, PartialEq, Eq, Default)]
pub struct DefaultPipeline {
    /// Default scanners to run.
    pub scanners: Option<Vec<String>>,
    /// Default signing provider identifier.
    pub signing: Option<String>,
    /// Default attestation provider identifier.
    pub attestation: Option<String>,
    /// Default policy engine identifier.
    pub policy_engine: Option<String>,
    /// Default OCI provider identifier.
    pub oci_provider: Option<String>,
}

/// Public store target descriptor.
#[derive(Clone, Debug, PartialEq, Eq)]
pub struct StoreTarget {
    /// Store identifier.
    pub id: String,
    /// Human-readable label.
    pub label: String,
    /// Store URL.
    pub url: String,
    /// Optional description.
    pub description: Option<String>,
}

/// Public distributor target descriptor.
#[derive(Clone, Debug, PartialEq, Eq)]
pub struct DistributorTarget {
    /// Distributor identifier.
    pub id: String,
    /// Human-readable label.
    pub label: String,
    /// Distributor URL.
    pub url: String,
    /// Optional description.
    pub description: Option<String>,
}

/// Feature flags for the UI.
#[derive(Clone, Debug, PartialEq, Eq, Default)]
pub struct RepoConfigFeatures {
    /// Whether manual approvals are allowed.
    pub allow_manual_approve: Option<bool>,
    /// Whether to show advanced scan views.
    pub show_advanced_scan_views: Option<bool>,
    /// Whether to surface experimental modules.
    pub show_experimental_modules: Option<bool>,
}

/// DID document used for tenant discovery (`did.json`).
#[derive(Clone, Debug, PartialEq)]
pub struct TenantDidDocument {
    /// Raw @context, preserved as provided.
    pub raw_context: Option<DidContext>,
    /// Document identifier (did:web).
    pub id: String,
    /// Verification methods (optional).
    pub verification_method: Option<Vec<VerificationMethod>>,
    /// Authentication references (optional).
    pub authentication: Option<Vec<String>>,
    /// Service endpoints.
    pub service: Vec<DidService>,
}

/// @context representation supporting single string or array.
#[derive(Clone, Debug, PartialEq)]
pub enum DidContext {
    /// Single string context.
    Single(String),
    /// Array of contexts.
    Multiple(Vec<String>),
}

/// Verification method descriptor within a DID document.
#[derive(Clone, Debug, PartialEq)]
pub struct VerificationMethod {
    /// Identifier for the verification method.
    pub id: String,
    /// Type of verification method.
    pub method_type: String,
    /// Controller of the verification method.
    pub controller: String,
    /// Optional JWK.
    pub public_key_jwk: Option<serde_json::Value>,
    /// Optional multibase key.
    pub public_key_multibase: Option<String>,
}

/// Service endpoint descriptor within a DID document.
#[derive(Clone, Debug, PartialEq, Eq)]
pub struct DidService {
    /// Service identifier.
    pub id: String,
    /// Service type.
    pub service_type: String,
    /// Service endpoint URL.
    pub service_endpoint: String,
}

impl TenantDidDocument {
    /// Returns the DID context as a list, regardless of how it was written.
    pub fn context(&self) -> (r: Vec<String>)
        ensures
            texts(r@) == match self.raw_context {
                Some(DidContext::Single(value)) => seq![value@],
                Some(DidContext::Multiple(values)) => texts(values@),
                None => Seq::empty(),
            },
    {
        match &self.raw_context {
            Some(DidContext::Single(value)) => {
                let mut v: Vec<String> = Vec::new();
                v.push(value.clone());
                assert(texts(v@) =~= seq![value@]);
                v
            },
            Some(DidContext::Multiple(values)) => copy_strings(values),
            None => Vec::new(),
        }
    }
}

} // verus!
