//! Component schema documents.
pub mod v0_5_0;
pub mod v0_6_0;
