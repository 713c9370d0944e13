//! Pack extension payloads.
pub mod component_manifests;
pub mod component_sources;
