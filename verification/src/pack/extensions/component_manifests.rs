//! Extension payload for per-component manifest indexes.
use vstd::prelude::*;

verus! {

/// Pack extension identifier for the component manifest index (v1).
pub const EXT_COMPONENT_MANIFEST_INDEX_V1: &'static str = "greentic.pack.component_manifests@v1";

/// Entry list describing component manifest files inside a pack.
#[derive(Clone, Debug, PartialEq, Eq)]
pub struct ComponentManifestIndexV1 {
    /// Schema version for the index payload.
    pub schema_version: u32,
    /// Indexed component manifest entries.
    pub entries: Vec<ComponentManifestIndexEntryV1>,
}

impl ComponentManifestIndexV1 {
    /// Creates a new component manifest index payload.
    pub fn new(entries: Vec<ComponentManifestIndexEntryV1>) -> (r: Self)
        ensures
            r.schema_version == 1,
            r.entries == entries,
    {
        Self { schema_version: 1, entries }
    }

    /// Validates the schema version for forward-compatible decoders.
    pub fn validate_schema_version(&self) -> (r: Result<(), ComponentManifestIndexError>)
        ensures
            r is Ok <==> self.schema_version == 1,
            r matches Err(e) ==> e == ComponentManifestIndexError::UnsupportedSchemaVersion(
                self.schema_version,
            ),
    {
        if self.schema_version == 1 {
            Ok(())
        } else {
            Err(ComponentManifestIndexError::UnsupportedSchemaVersion(self.schema_version))
        }
    }
}

/// Component manifest index entry describing a manifest file and encoding.
#[derive(Clone, Debug, PartialEq, Eq)]
pub struct ComponentManifestIndexEntryV1 {
    /// Canonical component identifier.
    pub component_id: String,
    /// Pack-relative manifest file path, e.g. `<component_id>.manifest.cbor`.
    pub manifest_file: String,
    /// Encoding for the referenced manifest file.
    pub encoding: ManifestEncoding,
    /// Optional content hash (for example `sha256:<hex>`).
    pub content_hash: Option<String>,
}

/// Supported encodings for per-component manifests.
#[derive(Clone, Copy, Debug, PartialEq, Eq)]
pub enum ManifestEncoding {
    /// CBOR encoding.
    Cbor,
}

/// Errors produced while encoding or decoding the component manifest index.
#[derive(Debug, Clone, PartialEq, Eq)]
pub enum ComponentManifestIndexError {
    /// Serialization failed.
    Serialize(String),
    /// Deserialization failed.
    Deserialize(String),
    /// Unsupported schema version.
    UnsupportedSchemaVersion(u32),
}

} // verus!
