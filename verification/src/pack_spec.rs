//! Serde-ready representations for Greentic `pack.yaml` manifests.
use vstd::prelude::*;

verus! {

/// Canonical on-disk pack specification (`pack.yaml`). Deprecated in favor of [`PackManifest`](crate::pack_manifest::PackManifest).
///
/// Fields default to empty collections to keep additive evolution backwards compatible.
#[derive(Debug, Clone, PartialEq, Default)]
pub struct PackSpec {
    /// Unique identifier for the pack.
    pub id: String,
    /// Semantic pack version.
    pub version: String,
    /// Relative flow file paths bundled with the pack.
    pub flow_files: Vec<String>,
    /// Template directories that should be bundled with the pack.
    pub template_dirs: Vec<String>,
    /// Optional set of required imports enforced by the host.
    pub imports_required: Vec<String>,
    /// Optional legacy tool definitions. Prefer MCP-first designs.
    pub tools: Vec<ToolSpec>,
}

/// Tool metadata referenced by a [`PackSpec`].
#[derive(Debug, Clone, PartialEq)]
pub struct ToolSpec {
    /// Tool identifier referenced by flows.
    pub name: String,
    /// Optional hint for the loader to determine the tool source (for example `mcp`).
    pub source: Option<String>,
    /// Filesystem path hint for embedded tools.
    pub path: Option<String>,
    /// Actions exposed by the tool.
    pub actions: Vec<String>,
}

} // verus!
