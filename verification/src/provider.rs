//! Provider manifest and index data structures.
//!
//! These types model the JSON returned by provider-core `describe()` and the provider index
//! entries used by store, deployer, and runner components.
use vstd::prelude::*;

verus! {

/// Manifest describing a provider returned by `describe()`.
#[derive(Clone, Debug, PartialEq, Eq)]
pub struct ProviderManifest {
    /// Provider type identifier (string-based to avoid enum coupling).
    pub provider_type: String,
    /// Capabilities advertised by the provider.
    pub capabilities: Vec<String>,
    /// Operations exposed by the provider.
    pub ops: Vec<String>,
    /// Optional JSON Schema reference for configuration.
    pub config_schema_ref: Option<String>,
    /// Optional JSON Schema reference for provider state.
    pub state_schema_ref: Option<String>,
}

/// Runtime binding for a provider implementation.
#[derive(Clone, Debug, PartialEq, Eq)]
pub struct ProviderRuntimeRef {
    /// Component identifier for the provider runtime.
    pub component_ref: String,
    /// Exported function implementing the provider runtime.
    pub export: String,
    /// WIT world for the provider runtime.
    pub world: String,
}

/// Provider declaration stored in indexes and extension payloads.
#[derive(Clone, Debug, PartialEq, Eq)]
pub struct ProviderDecl {
    /// Provider type identifier (string-based to avoid enum coupling).
    pub provider_type: String,
    /// Capabilities advertised by the provider.
    pub capabilities: Vec<String>,
    /// Operations exposed by the provider.
    pub ops: Vec<String>,
    /// JSON Schema reference for configuration.
    pub config_schema_ref: String,
    /// Optional JSON Schema reference for provider state.
    pub state_schema_ref: Option<String>,
    /// Runtime binding information for the provider.
    pub runtime: ProviderRuntimeRef,
    /// Optional documentation reference.
    pub docs_ref: Option<String>,
}

/// Inline extension payload embedding provider declarations.
#[derive(Clone, Debug, PartialEq, Eq)]
pub struct ProviderExtensionInline {
    /// Providers included in the extension payload.
    pub providers: Vec<ProviderDecl>,
}

} // verus!
