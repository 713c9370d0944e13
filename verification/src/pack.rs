//! Pack reference metadata.
pub mod extensions;

use vstd::prelude::*;

use crate::text::owned;

verus! {

/// Reference to a pack stored in an OCI registry.
#[derive(Clone, Debug, PartialEq, Eq)]
pub struct PackRef {
    /// OCI reference pointing to the pack.
    pub oci_url: String,
    /// Semantic version of the pack.
    pub version: semver::Version,
    /// Content digest of the pack.
    pub digest: String,
    /// Optional detached signatures.
    pub signatures: Vec<Signature>,
}

impl PackRef {
    /// Creates a new pack reference.
    pub fn new(oci_url: &str, version: semver::Version, digest: &str) -> (r: Self)
        ensures
            r.oci_url@ == oci_url@,
            r.version == version,
            r.digest@ == digest@,
            r.signatures@.len() == 0,
    {
        Self { oci_url: owned(oci_url), version, digest: owned(digest), signatures: Vec::new() }
    }
}

/// Detached signature accompanying a [`PackRef`].
#[derive(Clone, Debug, PartialEq, Eq)]
pub struct Signature {
    /// Identifier of the public key.
    pub key_id: String,
    /// Signature algorithm (for example `ed25519`).
    pub algorithm: SignatureAlgorithm,
    /// Raw signature bytes (base64 encoded when serialized).
    pub signature: Vec<u8>,
}

impl Signature {
    /// Creates a new signature entry.
    pub fn new(key_id: &str, algorithm: SignatureAlgorithm, signature: Vec<u8>) -> (r: Self)
        ensures
            r.key_id@ == key_id@,
            r.algorithm == algorithm,
            r.signature == signature,
    {
        Self { key_id: owned(key_id), algorithm, signature }
    }
}

/// Supported signature algorithms for packs.
#[derive(Clone, Debug, PartialEq, Eq, Hash)]
pub enum SignatureAlgorithm {
    /// Ed25519 signatures.
    Ed25519,
    /// Other algorithms identified by name.
    Other(String),
}

} // verus!
