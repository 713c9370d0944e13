//! Shared self-describing operation descriptors.
use crate::cbor_bytes::CborBytes;
use crate::schema_id::SchemaSource;
use crate::text::owned;
use vstd::prelude::*;

verus! {

/// Schema plus content type metadata for op I/O.
#[derive(Clone, Debug, PartialEq, Eq)]
pub struct IoSchema {
    /// Schema reference for invocation inputs/outputs.
    pub schema: SchemaSource,
    /// Content type partners should use for the referenced payload.
    pub content_type: String,
}

/// Example input/output pairs for referencing operations.
#[derive(Clone, Debug, PartialEq, Eq)]
pub struct OpExample {
    /// Human-readable title for the example.
    pub title: String,
    /// Canonical CBOR input payload.
    pub input_cbor: CborBytes,
    /// Optional example output payload.
    pub output_cbor: Option<CborBytes>,
    /// Free-text notes for the example.
    pub notes: Option<String>,
}

/// Descriptor for a single self-describing operation.
#[derive(Clone, Debug, PartialEq, Eq)]
pub struct OpDescriptor {
    /// Canonical operation name.
    pub name: String,
    /// Optional summary describing the operation.
    pub summary: Option<String>,
    /// Input schema descriptor.
    pub input: IoSchema,
    /// Output schema descriptor.
    pub output: IoSchema,
    /// Documented examples.
    pub examples: Vec<OpExample>,
}

impl IoSchema {
    /// Create a schema wrapper defaulting to `application/cbor`.
    pub fn new(schema: SchemaSource) -> (r: Self)
        ensures
            r.schema == schema,
            r.content_type@ == "application/cbor"@,
    {
        Self { schema, content_type: owned("application/cbor") }
    }
}

} // verus!
