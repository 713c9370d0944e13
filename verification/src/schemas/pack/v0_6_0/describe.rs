//! Pack description schema (v0.6.0).
use std::collections::BTreeMap;

use crate::i18n_text::I18nText;
use vstd::prelude::*;

verus! {

/// Pack metadata.
#[derive(Clone, Debug, PartialEq)]
pub struct PackInfo {
    /// Stable pack identifier.
    pub id: String,
    /// Semantic version string.
    pub version: String,
    /// Pack role (application/provider/etc.).
    pub role: String,
    /// Optional display name.
    pub display_name: Option<I18nText>,
}

/// Pack capability descriptor.
#[derive(Clone, Debug, PartialEq)]
pub struct CapabilityDescriptor {
    /// Capability identifier.
    pub capability_id: String,
    /// Version requirement string.
    pub version_req: String,
    /// Optional metadata.
    pub metadata: Option<CapabilityMetadata>,
}

/// Capability metadata payload.
#[derive(Clone, Debug, PartialEq)]
pub struct CapabilityMetadata {
    /// Tag list.
    pub tags: Vec<String>,
    /// Supported modes/features.
    pub supports: BTreeMap<String, ciborium::value::Value>,
    /// Constraint map.
    pub constraints: BTreeMap<String, ciborium::value::Value>,
    /// Quality hints.
    pub quality_hints: BTreeMap<String, ciborium::value::Value>,
    /// Regions where supported.
    pub regions: Vec<String>,
    /// Compliance metadata.
    pub compliance: BTreeMap<String, ciborium::value::Value>,
    /// Miscellaneous hints.
    pub hints: BTreeMap<String, ciborium::value::Value>,
}

/// Pack description payload.
#[derive(Clone, Debug, PartialEq)]
pub struct PackDescribe {
    /// Core pack metadata.
    pub info: PackInfo,
    /// Capabilities provided by the pack.
    pub provided_capabilities: Vec<CapabilityDescriptor>,
    /// Capabilities required by the pack.
    pub required_capabilities: Vec<CapabilityDescriptor>,
    /// Summary of units (components, flows, etc.).
    pub units_summary: BTreeMap<String, ciborium::value::Value>,
    /// Optional metadata payload.
    pub metadata: BTreeMap<String, ciborium::value::Value>,
}

} // verus!
