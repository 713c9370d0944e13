//! Extension payload describing component source references and resolved artifacts.
use vstd::prelude::*;

use crate::component_source::ComponentSourceRef;
use crate::ids::ComponentId;

verus! {

/// Pack extension identifier for component source metadata (v1).
pub const EXT_COMPONENT_SOURCES_V1: &'static str = "greentic.pack.component_sources@v1";

/// Component sources extension payload (v1).
#[derive(Clone, Debug, PartialEq, Eq)]
pub struct ComponentSourcesV1 {
    /// Schema version for this payload.
    pub schema_version: u32,
    /// Component source entries.
    pub components: Vec<ComponentSourceEntryV1>,
}

impl ComponentSourcesV1 {
    /// Creates a new component sources payload.
    pub fn new(components: Vec<ComponentSourceEntryV1>) -> (r: Self)
        ensures
            r.schema_version == 1,
            r.components == components,
    {
        Self { schema_version: 1, components }
    }

    /// Validates the schema version for forward-compatible decoders.
    pub fn validate_schema_version(&self) -> (r: Result<(), ComponentSourcesError>)
        ensures
            r is Ok <==> self.schema_version == 1,
            r matches Err(e) ==> e == ComponentSourcesError::UnsupportedSchemaVersion(
                self.schema_version,
            ),
    {
        if self.schema_version == 1 {
            Ok(())
        } else {
            Err(ComponentSourcesError::UnsupportedSchemaVersion(self.schema_version))
        }
    }
}

/// Component entry describing the source and resolved artifacts.
#[derive(Clone, Debug, PartialEq, Eq)]
pub struct ComponentSourceEntryV1 {
    /// Human-friendly component name from pack authoring.
    pub name: String,
    /// Optional canonical component identifier.
    pub component_id: Option<ComponentId>,
    /// Component source reference.
    pub source: ComponentSourceRef,
    /// Resolved metadata for the component.
    pub resolved: ResolvedComponentV1,
    /// Artifact location details.
    pub artifact: ArtifactLocationV1,
    /// Optional licensing hint for store components.
    pub licensing_hint: Option<String>,
    /// Optional metering hint for store components.
    pub metering_hint: Option<String>,
}

/// Resolved metadata for a component source.
#[derive(Clone, Debug, PartialEq, Eq)]
pub struct ResolvedComponentV1 {
    /// Content digest (for example `sha256:<hex>`).
    pub digest: String,
    /// Optional signature reference or summary.
    pub signature: Option<String>,
    /// Optional signer identifier.
    pub signed_by: Option<String>,
}

/// Artifact location descriptor.
#[derive(Clone, Debug, PartialEq, Eq)]
pub enum ArtifactLocationV1 {
    /// Artifact is embedded inside the pack.
    Inline {
        /// Pack-relative path to the wasm artifact.
        wasm_path: String,
        /// Optional pack-relative path to the component manifest.
        manifest_path: Option<String>,
    },
    /// Artifact must be fetched from the remote source.
    Remote,
}

/// Errors produced while encoding or decoding component sources payloads.
#[derive(Debug, Clone, PartialEq, Eq)]
pub enum ComponentSourcesError {
    /// Serialization failed.
    Serialize(String),
    /// Deserialization failed.
    Deserialize(String),
    /// Unsupported schema version.
    UnsupportedSchemaVersion(u32),
    /// Extension payload missing inline data.
    MissingInline,
    /// Extension payload used an unexpected inline type.
    UnexpectedInline,
}

} // verus!
