//! Component schemas (v0.5.0).
pub mod qa;
