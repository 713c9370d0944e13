//! Lightweight wrappers around CBOR payloads and optional blobs.
use vstd::prelude::*;

use crate::cbor::canonical::{
    canonicalize as canonicalize_bytes, ensure_canonical as ensure_canonical_bytes,
    spec_canonicalize, spec_ensure_canonical, CanonicalError, CanonicalFailure,
};
use crate::text::owned;

verus! {

/// A canonical CBOR byte buffer that can be re-validated or decoded.
#[derive(Clone, Debug, PartialEq, Eq)]
pub struct CborBytes(pub Vec<u8>);

impl CborBytes {
    /// Wrap an existing buffer.
    pub fn new(bytes: Vec<u8>) -> (r: Self)
        ensures
            r.0 == bytes,
    {
        Self(bytes)
    }

    /// Access the raw bytes.
    pub fn as_slice(&self) -> (r: &[u8])
        ensures
            r@ == self.0@,
    {
        self.0.as_slice()
    }

    /// Consume this wrapper and return the owned bytes.
    pub fn into_vec(self) -> (r: Vec<u8>)
        ensures
            r == self.0,
    {
        self.0
    }

    /// Ensure the payload follows canonical CBOR rules.
    pub fn ensure_canonical(&self) -> (r: Result<(), CanonicalError>)
        ensures
            match r {
                Ok(()) => spec_ensure_canonical(self.0@) == Ok::<(), CanonicalFailure>(()),
                Err(e) => spec_ensure_canonical(self.0@) == Err::<(), CanonicalFailure>(e@),
            },
    {
        ensure_canonical_bytes(self.0.as_slice())
    }

    /// Re-encode the payload in canonical form.
    pub fn canonicalize(self) -> (r: Result<Self, CanonicalError>)
        ensures
            match r {
                Ok(c) => spec_canonicalize(self.0@) == Ok::<Seq<u8>, CanonicalFailure>(c.0@)
                    && spec_ensure_canonical(c.0@) == Ok::<(), CanonicalFailure>(()),
                Err(e) => spec_canonicalize(self.0@) == Err::<Seq<u8>, CanonicalFailure>(e@),
            },
    {
        match canonicalize_bytes(self.0.as_slice()) {
            Ok(bytes) => Ok(Self(bytes)),
            Err(e) => Err(e),
        }
    }
}

impl From<Vec<u8>> for CborBytes {
    fn from(bytes: Vec<u8>) -> (r: Self)
        ensures
            r.0 == bytes,
    {
        Self(bytes)
    }
}

impl vstd::std_specs::convert::FromSpecImpl<Vec<u8>> for CborBytes {
    open spec fn obeys_from_spec() -> bool {
        true
    }

    open spec fn from_spec(v: Vec<u8>) -> Self {
        CborBytes(v)
    }
}

/// Optional tuple for passing content type plus canonical CBOR.
#[derive(Clone, Debug, PartialEq, Eq)]
pub struct Blob {
    /// MIME type describing the payload.
    pub content_type: String,
    /// Raw CBOR payload bytes.
    pub bytes: Vec<u8>,
}

impl Blob {
    /// Build a blob with the supplied content type header.
    pub fn new(content_type: &str, bytes: Vec<u8>) -> (r: Self)
        ensures
            r.content_type@ == content_type@,
            r.bytes == bytes,
    {
        Self { content_type: owned(content_type), bytes }
    }
}

} // verus!
