//! Component description schema (v0.6.0).
use std::collections::BTreeMap;

use crate::i18n_text::I18nText;
use vstd::prelude::*;

verus! {

/// Component metadata.
#[derive(Clone, Debug, PartialEq)]
pub struct ComponentInfo {
    /// Stable component identifier.
    pub id: String,
    /// Semantic version string.
    pub version: String,
    /// Component role (runtime/provider/tool/etc.).
    pub role: String,
    /// Optional display name.
    pub display_name: Option<I18nText>,
}

/// Component description payload.
#[derive(Clone, Debug, PartialEq)]
pub struct ComponentDescribe {
    /// Core component metadata.
    pub info: ComponentInfo,
    /// Capabilities provided by the component.
    pub provided_capabilities: Vec<String>,
    /// Capabilities required by the component.
    pub required_capabilities: Vec<String>,
    /// Optional metadata payload.
    pub metadata: BTreeMap<String, ciborium::value::Value>,
}

/// Placeholder run input schema.
#[derive(Clone, Debug, PartialEq)]
pub struct ComponentRunInput {
    /// Input values keyed by name.
    pub values: BTreeMap<String, ciborium::value::Value>,
}

/// Placeholder run output schema.
#[derive(Clone, Debug, PartialEq)]
pub struct ComponentRunOutput {
    /// Output values keyed by name.
    pub values: BTreeMap<String, ciborium::value::Value>,
}

} // verus!
