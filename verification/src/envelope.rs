//! Canonical CBOR envelope for typed payloads.
use vstd::prelude::*;

use crate::cbor::canonical::{spec_ensure_canonical, CanonicalError, CanonicalFailure};
use crate::cbor_bytes::CborBytes;

verus! {

/// Envelope carrying a canonical CBOR payload.
#[derive(Clone, Debug, PartialEq, Eq)]
pub struct Envelope {
    /// Domain-specific kind (pack/component/etc.).
    pub kind: String,
    /// Schema identifier for the body.
    pub schema: String,
    /// Schema version for the body.
    pub version: u32,
    /// Canonical CBOR-encoded payload.
    pub body: CborBytes,
}

impl Envelope {
    /// Ensure the body payload is canonical CBOR.
    pub fn ensure_canonical(&self) -> (r: Result<(), CanonicalError>)
        ensures
            match r {
                Ok(()) => spec_ensure_canonical(self.body.0@) == Ok::<(), CanonicalFailure>(()),
                Err(e) => spec_ensure_canonical(self.body.0@) == Err::<(), CanonicalFailure>(e@),
            },
    {
        self.body.ensure_canonical()
    }
}

} // verus!
