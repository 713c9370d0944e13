//! Pack schema documents.
pub mod v0_6_0;
