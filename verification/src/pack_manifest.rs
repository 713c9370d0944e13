//! Canonical pack manifest (.gtpack) representation embedding flows and components.
use std::collections::BTreeMap;
use vstd::prelude::*;

use crate::component::ComponentManifest;
use crate::flow::{Flow, FlowKind};
use crate::ids::{FlowId, PackId};
use crate::pack::Signature;

verus! {

/// Semantic version requirement (for example `^1.2`), kept as written.
#[derive(Clone, Debug, PartialEq, Eq, Hash)]
pub struct SemverReq(pub String);

/// Hint describing the primary purpose of a pack.
#[derive(Clone, Copy, Debug, PartialEq, Eq, Structural)]
pub enum PackKind {
    /// Application packs.
    Application,
    /// Provider packs exporting components.
    Provider,
    /// Infrastructure packs.
    Infrastructure,
    /// Library packs.
    Library,
}

/// Pack manifest describing bundled flows and components.
#[derive(Clone, Debug, PartialEq)]
pub struct PackManifest {
    /// Schema version for the pack manifest.
    pub schema_version: String,
    /// Logical pack identifier.
    pub pack_id: PackId,
    /// Pack semantic version.
    pub version: semver::Version,
    /// Pack kind hint.
    pub kind: PackKind,
    /// Pack publisher.
    pub publisher: String,
    /// Component descriptors bundled within the pack.
    pub components: Vec<ComponentManifest>,
    /// Flow entries embedded in the pack.
    pub flows: Vec<PackFlowEntry>,
    /// Pack dependencies.
    pub dependencies: Vec<PackDependency>,
    /// Capability declarations for the pack.
    pub capabilities: Vec<ComponentCapability>,
    /// Pack signatures.
    pub signatures: PackSignatures,
    /// Optional bootstrap/install hints for platform-controlled packs.
    pub bootstrap: Option<BootstrapSpec>,
    /// Optional extension descriptors for provider-specific metadata.
    pub extensions: Option<BTreeMap<String, ExtensionRef>>,
}

/// Flow entry embedded in a pack.
#[derive(Clone, Debug, PartialEq)]
pub struct PackFlowEntry {
    /// Flow identifier.
    pub id: FlowId,
    /// Flow kind.
    pub kind: FlowKind,
    /// Flow definition.
    pub flow: Flow,
    /// Flow tags.
    pub tags: Vec<String>,
    /// Additional entrypoint identifiers for discoverability.
    pub entrypoints: Vec<String>,
}

/// Dependency entry referencing another pack.
#[derive(Clone, Debug, PartialEq, Eq)]
pub struct PackDependency {
    /// Local alias for the dependency.
    pub alias: String,
    /// Referenced pack identifier.
    pub pack_id: PackId,
    /// Required version.
    pub version_req: SemverReq,
    /// Required capabilities.
    pub required_capabilities: Vec<String>,
}

/// Named capability advertised by a pack or component collection.
#[derive(Clone, Debug, PartialEq, Eq)]
pub struct ComponentCapability {
    /// Capability name.
    pub name: String,
    /// Optional description or metadata.
    pub description: Option<String>,
}

/// Signature bundle accompanying a pack manifest.
#[derive(Clone, Debug, PartialEq, Eq)]
pub struct PackSignatures {
    /// Optional detached signatures.
    pub signatures: Vec<Signature>,
}

/// Optional bootstrap/install hints for platform-managed packs.
#[derive(Clone, Debug, PartialEq, Eq)]
pub struct BootstrapSpec {
    /// Flow to run during initial install/bootstrap.
    pub install_flow: Option<String>,
    /// Flow to run when upgrading an existing install.
    pub upgrade_flow: Option<String>,
    /// Component responsible for install/upgrade orchestration.
    pub installer_component: Option<String>,
}

/// External extension reference embedded in a pack manifest.
#[derive(Clone, Debug, PartialEq)]
pub struct ExtensionRef {
    /// Extension kind identifier, e.g. `greentic.ext.provider`.
    pub kind: String,
    /// Extension version as a string to avoid semver crate coupling.
    pub version: String,
    /// Optional digest pin for the referenced extension payload.
    pub digest: Option<String>,
    /// Optional remote or local location for the extension payload.
    pub location: Option<String>,
    /// Optional inline extension payload for small metadata blobs.
    pub inline: Option<serde_json::Value>,
}

} // verus!
