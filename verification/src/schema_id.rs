//! Schema identifiers and reference sources built on canonical CBOR.
use vstd::prelude::*;

use crate::cbor::base32::{
    decode_base32_crockford, encode_base32_crockford, law_base32_roundtrip,
    spec_decode_base32_crockford, spec_encode_base32_crockford, Base32Error,
};
use crate::cbor::canonical::{
    blake3_128, blake3_prefix, ensure_canonical, spec_ensure_canonical, CanonicalError,
    CanonicalFailure,
};
use crate::cbor_bytes::CborBytes;
use crate::text::{concat2, has_prefix, owned, starts_with};

verus! {

/// Why a prefixed identifier was refused.
#[derive(Clone, Copy, Debug, PartialEq, Eq, Structural)]
pub enum PrefixedIdError {
    /// The identifier lacks the prefix.
    InvalidPrefix,
    /// The part after the prefix is not Crockford Base32.
    Base32(Base32Error),
}

/// Result of checking `prefix` followed by a Crockford Base32 payload.
pub open spec fn spec_check_prefixed(value: Seq<char>, prefix: Seq<char>) -> Result<(), PrefixedIdError> {
    if !has_prefix(value, prefix) {
        Err(PrefixedIdError::InvalidPrefix)
    } else {
        match spec_decode_base32_crockford(value.subrange(prefix.len() as int, value.len() as int)) {
            Ok(_) => Ok(()),
            Err(e) => Err(PrefixedIdError::Base32(e)),
        }
    }
}

/// Checks that `value` is `prefix` followed by a Crockford Base32 payload.
pub(crate) fn check_prefixed(value: &str, prefix: &str) -> (r: Result<(), PrefixedIdError>)
    ensures
        r == spec_check_prefixed(value@, prefix@),
{
    if !starts_with(value, prefix) {
        return Err(PrefixedIdError::InvalidPrefix);
    }
    let encoded = value.substring_char(prefix.unicode_len(), value.unicode_len());
    match decode_base32_crockford(encoded) {
        Ok(_) => Ok(()),
        Err(e) => Err(PrefixedIdError::Base32(e)),
    }
}

/// `prefix` followed by the Base32 form of some bytes always passes the check.
pub proof fn law_prefixed_id_accepted(prefix: Seq<char>, bytes: Seq<u8>)
    ensures
        spec_check_prefixed(prefix + spec_encode_base32_crockford(bytes), prefix) == Ok::<
            (),
            PrefixedIdError,
        >(()),
{
    let v = prefix + spec_encode_base32_crockford(bytes);
    assert(v.subrange(0, prefix.len() as int) =~= prefix);
    assert(v.subrange(prefix.len() as int, v.len() as int) =~= spec_encode_base32_crockford(bytes));
    law_base32_roundtrip(bytes);
}

/// The schema identifier prefix, `schema:v1:`.
pub open spec fn schema_id_prefix() -> Seq<char> {
    seq!['s', 'c', 'h', 'e', 'm', 'a', ':', 'v', '1', ':']
}

/// Stable identifier derived from canonical schema CBOR.
#[derive(Clone, Debug, PartialEq, Eq)]
pub struct SchemaId(String);

/// Errors emitted while parsing or deriving schema IDs.
#[derive(Debug)]
pub enum SchemaIdError {
    /// Identifier does not have the required `schema:v1:` prefix.
    InvalidPrefix,
    /// Payload part of the ID is not valid Crockford Base32.
    Base32(Base32Error),
    /// Canonical enforcement failed while deriving the ID.
    Canonical(CanonicalError),
}

impl SchemaId {
    /// The identifier's text.
    pub closed spec fn text(self) -> Seq<char> {
        self.0@
    }

    /// Parse an existing `schema:v1:` identifier.
    pub fn parse(value: &str) -> (r: Result<Self, SchemaIdError>)
        ensures
            match r {
                Ok(id) => spec_check_prefixed(value@, schema_id_prefix()) == Ok::<(), PrefixedIdError>(())
                    && id.text() == value@,
                Err(SchemaIdError::InvalidPrefix) => spec_check_prefixed(value@, schema_id_prefix())
                    == Err::<(), PrefixedIdError>(PrefixedIdError::InvalidPrefix),
                Err(SchemaIdError::Base32(e)) => spec_check_prefixed(value@, schema_id_prefix())
                    == Err::<(), PrefixedIdError>(PrefixedIdError::Base32(e)),
                Err(SchemaIdError::Canonical(_)) => false,
            },
    {
        proof {
            reveal_strlit("schema:v1:");
        }
        assert("schema:v1:"@ =~= schema_id_prefix());
        match check_prefixed(value, "schema:v1:") {
            Ok(()) => Ok(Self(owned(value))),
            Err(PrefixedIdError::InvalidPrefix) => Err(SchemaIdError::InvalidPrefix),
            Err(PrefixedIdError::Base32(e)) => Err(SchemaIdError::Base32(e)),
        }
    }

    /// Serialize as `schema:v1:<base32>` string.
    pub fn as_str(&self) -> (r: &str)
        ensures
            r@ == self.text(),
    {
        self.0.as_str()
    }
}

/// The schema identifier of CBOR bytes: the prefix and the Base32 form of
/// the first 128 bits of their Blake3 hash.
pub open spec fn spec_schema_id_text(schema_cbor: Seq<u8>) -> Seq<char> {
    schema_id_prefix() + spec_encode_base32_crockford(blake3_prefix(schema_cbor)@)
}

/// Compute the canonical schema ID for the provided CBOR bytes.
pub fn schema_id_for_cbor(schema_cbor: &[u8]) -> (r: Result<SchemaId, SchemaIdError>)
    ensures
        match r {
            Ok(id) => spec_ensure_canonical(schema_cbor@) == Ok::<(), CanonicalFailure>(())
                && id.text() == spec_schema_id_text(schema_cbor@),
            Err(SchemaIdError::Canonical(e)) => spec_ensure_canonical(schema_cbor@) == Err::<
                (),
                CanonicalFailure,
            >(e@),
            Err(_) => false,
        },
{
    match ensure_canonical(schema_cbor) {
        Ok(()) => {},
        Err(e) => return Err(SchemaIdError::Canonical(e)),
    }
    let digest = blake3_128(schema_cbor);
    let encoded = encode_base32_crockford(&digest);
    proof {
        reveal_strlit("schema:v1:");
    }
    assert("schema:v1:"@ =~= schema_id_prefix());
    Ok(SchemaId(concat2("schema:v1:", encoded.as_str())))
}

/// A derived schema identifier always parses.
pub proof fn law_schema_id_parses(schema_cbor: Seq<u8>)
    ensures
        spec_check_prefixed(spec_schema_id_text(schema_cbor), schema_id_prefix()) == Ok::<
            (),
            PrefixedIdError,
        >(()),
{
    law_prefixed_id_accepted(schema_id_prefix(), blake3_prefix(schema_cbor)@);
}

/// Schema references used for both runtime I/O and QA answers.
#[derive(Clone, Debug, PartialEq, Eq)]
pub enum SchemaSource {
    /// Refer to a schema by its canonical ID.
    CborSchemaId(SchemaId),
    /// Embed canonical CBOR schema bytes inline.
    InlineCbor(CborBytes),
    /// Refer to a schema stored in another pack.
    RefPackPath(String),
    /// Refer to a schema hosted at an arbitrary URI.
    RefUri(String),
}

} // verus!
