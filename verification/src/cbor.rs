//! Canonical CBOR helpers and Crockford Base32 identifiers.
pub mod base32;
pub mod canonical;
