//! Types used by QA setup contracts.
use vstd::prelude::*;

use crate::cbor::canonical::{
    canonicalize, cbor_decode, cbor_decoding, spec_canonicalize, spec_ensure_canonical, CanonicalError,
    CanonicalFailure, CborTree, CborValue,
};
use crate::cbor_bytes::CborBytes;
use crate::schema_id::SchemaSource;

verus! {

/// Where the QA specification lives.
#[derive(Clone, Debug, PartialEq, Eq)]
pub enum QaSpecSource {
    /// Inline CBOR specification bytes.
    InlineCbor(CborBytes),
    /// Schema hosted at a remote URI.
    RefUri(String),
    /// Schema stored in another pack path.
    RefPackPath(String),
}

/// Example answers submitted by a pack author.
#[derive(Clone, Debug, PartialEq, Eq)]
pub struct ExampleAnswers {
    /// Friendly title for the example answers.
    pub title: String,
    /// Canonical CBOR payload.
    pub answers_cbor: CborBytes,
    /// Optional annotations or hints.
    pub notes: Option<String>,
}

/// Outputs produced by the setup flow.
#[derive(Clone, Debug, PartialEq, Eq)]
pub enum SetupOutput {
    /// Only configuration data is emitted.
    ConfigOnly,
    /// Template-driven scaffold output.
    TemplateScaffold {
        /// Reference to the scaffold template.
        template_ref: String,
        /// Layout/slot description produced by the scaffold.
        output_layout: String,
    },
}

/// QA setup contract (optional convenience wrapper).
#[derive(Clone, Debug, PartialEq, Eq)]
pub struct SetupContract {
    /// Reference to the QA spec.
    pub qa_spec: QaSpecSource,
    /// Optional schema describing answers.
    pub answers_schema: Option<SchemaSource>,
    /// Example answer blobs for documentation.
    pub examples: Vec<ExampleAnswers>,
    /// Declared outputs for the setup run.
    pub outputs: Vec<SetupOutput>,
}

/// Canonical enforcement policy used by `validate_answers`.
#[derive(Clone, Copy, Debug, PartialEq, Eq, Structural)]
pub enum CanonicalPolicy {
    /// Skip canonical enforcement.
    Off,
    /// Treat non-canonical CBOR as errors.
    RequireCanonical,
    /// Re-encode answers into canonical form.
    Canonicalize,
}

/// Errors produced during QA answer validation.
#[derive(Debug)]
pub enum ValidateAnswersError {
    /// Failed to decode the answers payload.
    Decode(String),
    /// Answers must be represented as a CBOR map/object.
    NotMap,
    /// Canonicalization check failed.
    Canonical(CanonicalError),
}

/// Mathematical model of a [`ValidateAnswersError`].
pub enum AnswersFailure {
    /// Decoder message.
    Decode(Seq<char>),
    /// Not a map.
    NotMap,
    /// Canonical enforcement failure.
    Canonical(CanonicalFailure),
}

impl View for ValidateAnswersError {
    type V = AnswersFailure;

    open spec fn view(&self) -> AnswersFailure {
        match self {
            ValidateAnswersError::Decode(m) => AnswersFailure::Decode(m@),
            ValidateAnswersError::NotMap => AnswersFailure::NotMap,
            ValidateAnswersError::Canonical(e) => AnswersFailure::Canonical(e@),
        }
    }
}

/// Result of validating QA answers: the (possibly re-encoded) answer bytes.
pub open spec fn spec_validate_answers(bytes: Seq<u8>, policy: CanonicalPolicy) -> Result<
    Seq<u8>,
    AnswersFailure,
> {
    match cbor_decoding(bytes) {
        Err(m) => Err(AnswersFailure::Decode(m)),
        Ok(t) => if !(t is Mapping) {
            Err(AnswersFailure::NotMap)
        } else {
            match policy {
                CanonicalPolicy::Off => Ok(bytes),
                CanonicalPolicy::RequireCanonical => match spec_ensure_canonical(bytes) {
                    Ok(()) => Ok(bytes),
                    Err(e) => Err(AnswersFailure::Canonical(e)),
                },
                CanonicalPolicy::Canonicalize => match spec_canonicalize(bytes) {
                    Ok(c) => Ok(c),
                    Err(e) => Err(AnswersFailure::Canonical(e)),
                },
            }
        },
    }
}

/// MVP validator that ensures answer CBOR is a map and optionally canonical.
///
/// The schema is not consulted yet.
pub fn validate_answers(
    schema: &SchemaSource,
    answers_cbor: &CborBytes,
    policy: CanonicalPolicy,
) -> (r: Result<CborBytes, ValidateAnswersError>)
    ensures
        match r {
            Ok(b) => spec_validate_answers(answers_cbor.0@, policy) == Ok::<Seq<u8>, AnswersFailure>(b.0@),
            Err(e) => spec_validate_answers(answers_cbor.0@, policy) == Err::<Seq<u8>, AnswersFailure>(e@),
        },
{
    let value = match cbor_decode(answers_cbor.as_slice()) {
        Ok(v) => v,
        Err(m) => return Err(ValidateAnswersError::Decode(m)),
    };
    let is_map = match value {
        CborValue::Mapping(_) => true,
        _ => false,
    };
    if !is_map {
        return Err(ValidateAnswersError::NotMap);
    }
    match policy {
        CanonicalPolicy::Off => Ok(CborBytes(copy_bytes(answers_cbor.as_slice()))),
        CanonicalPolicy::RequireCanonical => match answers_cbor.ensure_canonical() {
            Ok(()) => Ok(CborBytes(copy_bytes(answers_cbor.as_slice()))),
            Err(e) => Err(ValidateAnswersError::Canonical(e)),
        },
        CanonicalPolicy::Canonicalize => match canonicalize(answers_cbor.as_slice()) {
            Ok(c) => Ok(CborBytes(c)),
            Err(e) => Err(ValidateAnswersError::Canonical(e)),
        },
    }
}

/// Copies a byte slice into a new vector.
fn copy_bytes(b: &[u8]) -> (r: Vec<u8>)
    ensures
        r@ == b@,
{
    let mut out: Vec<u8> = Vec::new();
    let mut i: usize = 0;
    while i < b.len()
        invariant
            i <= b.len(),
            out@ == b@.subrange(0, i as int),
        decreases b.len() - i,
    {
        out.push(b[i]);
        assert(out@ =~= b@.subrange(0, i + 1));
        i = i + 1;
    }
    assert(b@.subrange(0, b.len() as int) =~= b@);
    out
}

/// Answers must be a CBOR map: bytes that decode to any other item are
/// refused as `NotMap` under every policy, and answers are only ever accepted
/// when they decode to a map. With the policy off a map is accepted as it
/// is; when canonical form is required, accepted answers are returned as
/// given and are canonical.
pub proof fn law_answers_must_be_map(bytes: Seq<u8>, policy: CanonicalPolicy)
    ensures
        (cbor_decoding(bytes) matches Ok(t) && !(t is Mapping)) ==> spec_validate_answers(bytes, policy)
            == Err::<Seq<u8>, AnswersFailure>(AnswersFailure::NotMap),
        spec_validate_answers(bytes, policy) is Ok ==> (cbor_decoding(bytes) matches Ok(t)
            && t is Mapping),
        (cbor_decoding(bytes) matches Ok(t) && t is Mapping && policy == CanonicalPolicy::Off)
            ==> spec_validate_answers(bytes, policy) == Ok::<Seq<u8>, AnswersFailure>(bytes),
        (policy == CanonicalPolicy::RequireCanonical && spec_validate_answers(bytes, policy) is Ok)
            ==> spec_validate_answers(bytes, policy) == Ok::<Seq<u8>, AnswersFailure>(bytes)
            && spec_ensure_canonical(bytes) == Ok::<(), CanonicalFailure>(()),
{
}

} // verus!
