//! Versioned schema document shapes.
pub mod component;
pub mod pack;
