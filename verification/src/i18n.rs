//! Internationalization tags, IDs, and minimal profiles.
use vstd::prelude::*;

use crate::cbor::base32::{
    base32_padding, encode_base32_crockford, law_base32_length, spec_encode_base32_crockford, Base32Error,
};
use crate::cbor::canonical::{
    blake3_128, blake3_prefix, spec_text_to_canonical_cbor, text_to_canonical_cbor,
    CanonicalError, CanonicalFailure,
};
use crate::schema_id::{check_prefixed, law_prefixed_id_accepted, spec_check_prefixed, PrefixedIdError};
use crate::text::{concat2, owned};

verus! {

/// Declares `unic_langid::LanguageIdentifierError`.
#[verifier::external_type_specification]
#[verifier::external_body]
pub struct ExLanguageIdentifierError(unic_langid::LanguageIdentifierError);

/// What normalizing a BCP 47 locale tag gives: the canonical text, or
/// nothing when the tag is invalid.
pub uninterp spec fn langid_normalization(input: Seq<char>) -> Option<Seq<char>>;

/// Parses a locale tag with `unic_langid::LanguageIdentifier::from_str` and
/// renders it back with `to_string`.
///
/// Claimed of the call: the result is [`langid_normalization`] of the input
/// (a function of the text alone).
#[verifier::external_body]
fn normalize_langid(input: &str) -> (r: Result<String, unic_langid::LanguageIdentifierError>)
    ensures
        match r {
            Ok(s) => langid_normalization(input@) == Some(s@),
            Err(_) => langid_normalization(input@) is None,
        },
{
    input.parse::<unic_langid::LanguageIdentifier>().map(|id| id.to_string())
}

/// Normalized locale tag (BCP 47 + -u- extensions) used for ID generation.
#[derive(Clone, Debug, PartialEq, Eq)]
pub struct I18nTag(String);

/// Errors encountered while normalizing locale tags.
#[derive(Debug)]
pub enum I18nTagError {
    /// Input string is not a valid BCP 47 tag.
    Invalid(unic_langid::LanguageIdentifierError),
}

impl I18nTag {
    /// The tag's text.
    pub closed spec fn text(self) -> Seq<char> {
        self.0@
    }

    /// Normalize an arbitrary locale tag into canonical casing.
    pub fn normalize_tag(input: &str) -> (r: Result<Self, I18nTagError>)
        ensures
            match r {
                Ok(tag) => langid_normalization(input@) == Some(tag.text()),
                Err(_) => langid_normalization(input@) is None,
            },
    {
        match normalize_langid(input) {
            Ok(s) => Ok(Self(s)),
            Err(e) => Err(I18nTagError::Invalid(e)),
        }
    }

    /// Canonical tag string.
    pub fn as_str(&self) -> (r: &str)
        ensures
            r@ == self.text(),
    {
        self.0.as_str()
    }
}

/// The i18n identifier prefix, `i18n:v1:`.
pub open spec fn i18n_id_prefix() -> Seq<char> {
    seq!['i', '1', '8', 'n', ':', 'v', '1', ':']
}

/// Stable identifier for a normalized locale tag or profile.
#[derive(Clone, Debug, PartialEq, Eq)]
pub struct I18nId(String);

/// Errors emitted when working with I18n IDs.
#[derive(Debug)]
pub enum I18nIdError {
    /// Identifier does not have the required `i18n:v1:` prefix.
    InvalidPrefix,
    /// Base32 payload could not be decoded.
    Base32(Base32Error),
    /// Canonicalization or hashing failed while generating the ID.
    Canonical(CanonicalError),
}

impl I18nId {
    /// The identifier's text.
    pub closed spec fn text(self) -> Seq<char> {
        self.0@
    }

    /// Parse a string produced by `id_for_tag`.
    pub fn parse(value: &str) -> (r: Result<Self, I18nIdError>)
        ensures
            match r {
                Ok(id) => spec_check_prefixed(value@, i18n_id_prefix()) == Ok::<(), PrefixedIdError>(())
                    && id.text() == value@,
                Err(I18nIdError::InvalidPrefix) => spec_check_prefixed(value@, i18n_id_prefix())
                    == Err::<(), PrefixedIdError>(PrefixedIdError::InvalidPrefix),
                Err(I18nIdError::Base32(e)) => spec_check_prefixed(value@, i18n_id_prefix())
                    == Err::<(), PrefixedIdError>(PrefixedIdError::Base32(e)),
                Err(I18nIdError::Canonical(_)) => false,
            },
    {
        proof {
            reveal_strlit("i18n:v1:");
        }
        assert("i18n:v1:"@ =~= i18n_id_prefix());
        match check_prefixed(value, "i18n:v1:") {
            Ok(()) => Ok(Self(owned(value))),
            Err(PrefixedIdError::InvalidPrefix) => Err(I18nIdError::InvalidPrefix),
            Err(PrefixedIdError::Base32(e)) => Err(I18nIdError::Base32(e)),
        }
    }

    /// Borrow the canonical identifier string.
    pub fn as_str(&self) -> (r: &str)
        ensures
            r@ == self.text(),
    {
        self.0.as_str()
    }
}

/// The identifier of a tag: the prefix and the Base32 form of the first 128
/// bits of the Blake3 hash of the tag's canonical CBOR.
pub open spec fn spec_id_for_tag(tag: Seq<char>) -> Result<Seq<char>, CanonicalFailure> {
    match spec_text_to_canonical_cbor(tag) {
        Ok(bytes) => Ok(i18n_id_prefix() + spec_encode_base32_crockford(blake3_prefix(bytes)@)),
        Err(e) => Err(e),
    }
}

/// Compute the ID for a normalized tag.
pub fn id_for_tag(tag: &I18nTag) -> (r: Result<I18nId, I18nIdError>)
    ensures
        match r {
            Ok(id) => spec_id_for_tag(tag.text()) == Ok::<Seq<char>, CanonicalFailure>(id.text()),
            Err(I18nIdError::Canonical(e)) => spec_id_for_tag(tag.text()) == Err::<
                Seq<char>,
                CanonicalFailure,
            >(e@),
            Err(_) => false,
        },
        r is Ok,
{
    let canonical_bytes = match text_to_canonical_cbor(tag.as_str()) {
        Ok(b) => b,
        Err(e) => return Err(I18nIdError::Canonical(e)),
    };
    let digest = blake3_128(canonical_bytes.as_slice());
    let encoded = encode_base32_crockford(&digest);
    proof {
        reveal_strlit("i18n:v1:");
    }
    assert("i18n:v1:"@ =~= i18n_id_prefix());
    Ok(I18nId(concat2("i18n:v1:", encoded.as_str())))
}

/// The identifier derived for a tag always parses back.
pub proof fn law_tag_id_parses(tag: Seq<char>)
    requires
        spec_id_for_tag(tag) is Ok,
    ensures
        spec_check_prefixed(spec_id_for_tag(tag)->Ok_0, i18n_id_prefix()) == Ok::<(), PrefixedIdError>(()),
{
    law_prefixed_id_accepted(i18n_id_prefix(), blake3_prefix(spec_text_to_canonical_cbor(tag)->Ok_0)@);
}

/// A tag's identifier is `i18n:v1:` followed by the 26 Crockford Base32
/// symbols of the 16-byte Blake3 prefix of the tag's canonical CBOR: 34
/// characters in all.
pub proof fn law_tag_id_shape(tag: Seq<char>)
    requires
        spec_id_for_tag(tag) is Ok,
    ensures
        spec_id_for_tag(tag)->Ok_0.len() == 34,
        spec_id_for_tag(tag)->Ok_0.subrange(0, 8) == i18n_id_prefix(),
        spec_id_for_tag(tag)->Ok_0.subrange(8, 34) == spec_encode_base32_crockford(
            blake3_prefix(spec_text_to_canonical_cbor(tag)->Ok_0)@,
        ),
{
    let digest = blake3_prefix(spec_text_to_canonical_cbor(tag)->Ok_0)@;
    assert(digest.len() == 16);
    law_base32_length(digest);
    assert(base32_padding(16) == 2);
    let id = spec_id_for_tag(tag)->Ok_0;
    assert(id =~= i18n_id_prefix() + spec_encode_base32_crockford(digest));
    assert(id.subrange(0, 8) =~= i18n_id_prefix());
    assert(id.subrange(8, 34) =~= spec_encode_base32_crockford(digest));
}

/// Two tags with the same text get the same identifier, or fail alike.
pub proof fn law_tag_id_deterministic(t1: I18nTag, t2: I18nTag)
    requires
        t1.text() == t2.text(),
    ensures
        spec_id_for_tag(t1.text()) == spec_id_for_tag(t2.text()),
{
}

/// Directionality of text (`ltr` / `rtl`).
#[derive(Clone, Copy, Debug, PartialEq, Eq)]
pub enum Direction {
    /// Left-to-right text.
    Ltr,
    /// Right-to-left text.
    Rtl,
}

impl Default for Direction {
    fn default() -> (r: Self)
        ensures
            r == Direction::Ltr,
    {
        Direction::Ltr
    }
}

/// Minimal profile used during setup-time localization.
#[derive(Clone, Debug, PartialEq, Eq)]
pub struct MinimalI18nProfile {
    /// Primary language subtag (e.g., `en`).
    pub language: String,
    /// Optional region subtag (e.g., `GB`).
    pub region: Option<String>,
    /// Optional script subtag (e.g., `Latn`).
    pub script: Option<String>,
    /// Text direction.
    pub direction: Direction,
    /// Calendar system (e.g., `gregory`).
    pub calendar: String,
    /// Currency code (ISO 4217).
    pub currency: String,
    /// Decimal separator symbol (e.g., `.` or `,`).
    pub decimal_separator: String,
    /// Optional timezone identifier.
    pub timezone: Option<String>,
}

} // verus!
