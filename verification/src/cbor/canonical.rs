//! Helpers for deterministic canonical CBOR, hashing, and Base32 IDs.
//!
//! Canonical CBOR here means: definite-length items only, no floats, no tags,
//! map keys that are text strings, and map entries ordered by the byte length
//! of their keys' UTF-8 encoding, then by those bytes.
use ciborium::value::Value;
use vstd::prelude::*;
use vstd::utf8::{decode_utf8, encode_utf8, encode_utf8_decode_utf8};

pub use crate::cbor::base32::{decode_base32_crockford, encode_base32_crockford, Base32Error};

verus! {

/// Errors emitted while canonicalizing or hashing CBOR payloads.
#[derive(Debug, Clone, PartialEq, Eq)]
pub enum CanonicalError {
    /// Decoding CBOR failed.
    Decode(String),
    /// Encoding CBOR failed.
    Encode(String),
    /// CBOR contains a non-string map key.
    NonStringMapKey,
    /// CBOR contains a floating-point value; floats are forbidden by default.
    FloatNotAllowed,
    /// CBOR contains a tagged value; tags are not allowed.
    TagNotAllowed,
    /// Base32 decode failed.
    Base32(Base32Error),
    /// CBOR payload is not canonical.
    NotCanonical,
}

/// Mathematical model of a [`CanonicalError`] (messages as character sequences).
pub enum CanonicalFailure {
    Decode(Seq<char>),
    Encode(Seq<char>),
    NonStringMapKey,
    FloatNotAllowed,
    TagNotAllowed,
    Base32(Base32Error),
    NotCanonical,
}

impl View for CanonicalError {
    type V = CanonicalFailure;

    open spec fn view(&self) -> CanonicalFailure {
        match self {
            CanonicalError::Decode(m) => CanonicalFailure::Decode(m@),
            CanonicalError::Encode(m) => CanonicalFailure::Encode(m@),
            CanonicalError::NonStringMapKey => CanonicalFailure::NonStringMapKey,
            CanonicalError::FloatNotAllowed => CanonicalFailure::FloatNotAllowed,
            CanonicalError::TagNotAllowed => CanonicalFailure::TagNotAllowed,
            CanonicalError::Base32(e) => CanonicalFailure::Base32(*e),
            CanonicalError::NotCanonical => CanonicalFailure::NotCanonical,
        }
    }
}

/// A decoded CBOR data item, holding what canonicalization reads.
///
/// Floating-point payloads are not kept: canonical data never contains floats.
/// `Other` stands for an item kind that this model does not know.
#[derive(Debug)]
pub enum CborValue {
    /// Integer in the range `-2^64 ..= 2^64 - 1`.
    Integer(i128),
    /// Byte string.
    Bytes(Vec<u8>),
    /// Floating-point number.
    Float,
    /// Text string.
    Text(String),
    /// Boolean.
    Bool(bool),
    /// Null (or undefined).
    Null,
    /// Tagged item.
    Tag(u64, Box<CborValue>),
    /// Array.
    Array(Vec<CborValue>),
    /// Map, as its entries in input order.
    Mapping(Vec<(CborValue, CborValue)>),
    /// Any other item kind.
    Other,
}

/// A canonical CBOR data item: no floats, no tags, text map keys.
#[derive(Debug)]
pub enum CanonicalValue {
    /// Integer in the range `-2^64 ..= 2^64 - 1`.
    Integer(i128),
    /// Byte string.
    Bytes(Vec<u8>),
    /// Text string.
    Text(String),
    /// Boolean.
    Bool(bool),
    /// Null.
    Null,
    /// Array.
    Array(Vec<CanonicalValue>),
    /// Map with text keys, entries in canonical order.
    Mapping(Vec<(String, CanonicalValue)>),
}

/// Mathematical model of a CBOR data item.
pub enum CborTree {
    Integer(int),
    Bytes(Seq<u8>),
    Float,
    Text(Seq<char>),
    Bool(bool),
    Null,
    Tag(u64, Box<CborTree>),
    Array(Seq<CborTree>),
    Mapping(Seq<(CborTree, CborTree)>),
    Other,
}

/// Model of a decoded item.
pub open spec fn cbor_tree(v: CborValue) -> CborTree
    decreases v,
{
    match v {
        CborValue::Integer(i) => CborTree::Integer(i as int),
        CborValue::Bytes(b) => CborTree::Bytes(b@),
        CborValue::Float => CborTree::Float,
        CborValue::Text(t) => CborTree::Text(t@),
        CborValue::Bool(b) => CborTree::Bool(b),
        CborValue::Null => CborTree::Null,
        CborValue::Tag(t, inner) => CborTree::Tag(t, Box::new(cbor_tree(*inner))),
        CborValue::Array(items) => CborTree::Array(cbor_trees(items@)),
        CborValue::Mapping(entries) => CborTree::Mapping(cbor_entry_trees(entries@)),
        CborValue::Other => CborTree::Other,
    }
}

/// Models of a sequence of decoded items.
pub open spec fn cbor_trees(s: Seq<CborValue>) -> Seq<CborTree>
    decreases s,
{
    if s.len() == 0 {
        seq![]
    } else {
        cbor_trees(s.drop_last()).push(cbor_tree(s.last()))
    }
}

/// Models of a sequence of decoded map entries.
pub open spec fn cbor_entry_trees(s: Seq<(CborValue, CborValue)>) -> Seq<(CborTree, CborTree)>
    decreases s,
{
    if s.len() == 0 {
        seq![]
    } else {
        cbor_entry_trees(s.drop_last()).push((cbor_tree(s.last().0), cbor_tree(s.last().1)))
    }
}

impl View for CborValue {
    type V = CborTree;

    open spec fn view(&self) -> CborTree {
        cbor_tree(*self)
    }
}

/// Model of a canonical item.
pub open spec fn canonical_tree(v: CanonicalValue) -> CborTree
    decreases v,
{
    match v {
        CanonicalValue::Integer(i) => CborTree::Integer(i as int),
        CanonicalValue::Bytes(b) => CborTree::Bytes(b@),
        CanonicalValue::Text(t) => CborTree::Text(t@),
        CanonicalValue::Bool(b) => CborTree::Bool(b),
        CanonicalValue::Null => CborTree::Null,
        CanonicalValue::Array(items) => CborTree::Array(canonical_trees(items@)),
        CanonicalValue::Mapping(entries) => CborTree::Mapping(canonical_entry_trees(entries@)),
    }
}

/// Models of a sequence of canonical items.
pub open spec fn canonical_trees(s: Seq<CanonicalValue>) -> Seq<CborTree>
    decreases s,
{
    if s.len() == 0 {
        seq![]
    } else {
        canonical_trees(s.drop_last()).push(canonical_tree(s.last()))
    }
}

/// Models of a sequence of canonical map entries.
pub open spec fn canonical_entry_trees(s: Seq<(String, CanonicalValue)>) -> Seq<(CborTree, CborTree)>
    decreases s,
{
    if s.len() == 0 {
        seq![]
    } else {
        canonical_entry_trees(s.drop_last()).push(
            (CborTree::Text(s.last().0@), canonical_tree(s.last().1)),
        )
    }
}

impl View for CanonicalValue {
    type V = CborTree;

    open spec fn view(&self) -> CborTree {
        canonical_tree(*self)
    }
}

/// The UTF-8 bytes of a text map key (other keys have none).
pub open spec fn key_bytes(k: CborTree) -> Seq<u8> {
    match k {
        CborTree::Text(s) => encode_utf8(s),
        _ => seq![],
    }
}

/// Lexicographic order on byte strings.
pub open spec fn lex_less(a: Seq<u8>, b: Seq<u8>) -> bool
    decreases a.len(),
{
    if a.len() == 0 || b.len() == 0 {
        a.len() < b.len()
    } else if a[0] != b[0] {
        a[0] < b[0]
    } else {
        lex_less(a.drop_first(), b.drop_first())
    }
}

/// Canonical key order: shorter encodings first, then bytewise.
pub open spec fn key_before(a: Seq<u8>, b: Seq<u8>) -> bool {
    a.len() < b.len() || (a.len() == b.len() && lex_less(a, b))
}

/// Whether map entry `x` sorts strictly before map entry `y`.
pub open spec fn entry_before(x: (CborTree, CborTree), y: (CborTree, CborTree)) -> bool {
    key_before(key_bytes(x.0), key_bytes(y.0))
}

/// Inserts an entry into a sorted entry list, after all entries it does not
/// sort strictly before.
pub open spec fn insert_entry(x: (CborTree, CborTree), t: Seq<(CborTree, CborTree)>) -> Seq<
    (CborTree, CborTree),
>
    decreases t.len(),
{
    if t.len() == 0 {
        seq![x]
    } else if entry_before(x, t.last()) {
        insert_entry(x, t.drop_last()).push(t.last())
    } else {
        t.push(x)
    }
}

/// Stable sort of map entries by canonical key order.
pub open spec fn sort_entries(s: Seq<(CborTree, CborTree)>) -> Seq<(CborTree, CborTree)>
    decreases s.len(),
{
    if s.len() == 0 {
        s
    } else {
        insert_entry(s.last(), sort_entries(s.drop_last()))
    }
}

/// Canonical form of a data item, or the first reason it has none.
pub open spec fn canonicalize_tree(t: CborTree) -> Result<CborTree, CanonicalFailure>
    decreases t,
{
    match t {
        CborTree::Integer(_) => Ok(t),
        CborTree::Bytes(_) => Ok(t),
        CborTree::Text(_) => Ok(t),
        CborTree::Bool(_) => Ok(t),
        CborTree::Null => Ok(t),
        CborTree::Array(items) => match canonicalize_trees(items) {
            Ok(s) => Ok(CborTree::Array(s)),
            Err(e) => Err(e),
        },
        CborTree::Mapping(entries) => match canonicalize_entries(entries) {
            Ok(s) => Ok(CborTree::Mapping(sort_entries(s))),
            Err(e) => Err(e),
        },
        CborTree::Float => Err(CanonicalFailure::FloatNotAllowed),
        CborTree::Tag(_, _) => Err(CanonicalFailure::TagNotAllowed),
        CborTree::Other => Err(CanonicalFailure::TagNotAllowed),
    }
}

/// Canonical forms of a sequence of items, in order.
pub open spec fn canonicalize_trees(s: Seq<CborTree>) -> Result<Seq<CborTree>, CanonicalFailure>
    decreases s,
{
    if s.len() == 0 {
        Ok(seq![])
    } else {
        match canonicalize_trees(s.drop_last()) {
            Err(e) => Err(e),
            Ok(p) => match canonicalize_tree(s.last()) {
                Err(e) => Err(e),
                Ok(x) => Ok(p.push(x)),
            },
        }
    }
}

/// Map entries with canonical values, in input order; keys must be text.
pub open spec fn canonicalize_entries(s: Seq<(CborTree, CborTree)>) -> Result<
    Seq<(CborTree, CborTree)>,
    CanonicalFailure,
>
    decreases s,
{
    if s.len() == 0 {
        Ok(seq![])
    } else {
        match canonicalize_entries(s.drop_last()) {
            Err(e) => Err(e),
            Ok(p) => match s.last().0 {
                CborTree::Text(_) => match canonicalize_tree(s.last().1) {
                    Err(e) => Err(e),
                    Ok(x) => Ok(p.push((s.last().0, x))),
                },
                _ => Err(CanonicalFailure::NonStringMapKey),
            },
        }
    }
}


/// Every integer in the item lies in the range a CBOR integer can hold,
/// `-2^64 ..= 2^64 - 1`.
pub open spec fn ints_fit(t: CborTree) -> bool
    decreases t,
{
    match t {
        CborTree::Integer(i) => -0x1_0000_0000_0000_0000 <= i <= 0xffff_ffff_ffff_ffff,
        CborTree::Tag(_, inner) => ints_fit(*inner),
        CborTree::Array(items) => all_ints_fit(items),
        CborTree::Mapping(entries) => all_entry_ints_fit(entries),
        _ => true,
    }
}

/// [`ints_fit`] holds of every item.
pub open spec fn all_ints_fit(s: Seq<CborTree>) -> bool
    decreases s,
{
    s.len() == 0 || (all_ints_fit(s.drop_last()) && ints_fit(s.last()))
}

/// [`ints_fit`] holds of every key and value.
pub open spec fn all_entry_ints_fit(s: Seq<(CborTree, CborTree)>) -> bool
    decreases s,
{
    s.len() == 0 || (all_entry_ints_fit(s.drop_last()) && ints_fit(s.last().0) && ints_fit(
        s.last().1,
    ))
}

/// Whether the item is a bignum: tag 2 or 3 over a byte string of at most 16
/// bytes. The decoder reads such an item as one integer, at no nesting cost.
pub open spec fn is_bignum(t: CborTree) -> bool {
    match t {
        CborTree::Tag(tag, inner) => (tag == 2 || tag == 3) && match *inner {
            CborTree::Bytes(b) => b.len() <= 16,
            _ => false,
        },
        _ => false,
    }
}

/// The item nests arrays, maps and tags at most `limit` levels deep; a
/// bignum counts as a leaf.
pub open spec fn nests_within(t: CborTree, limit: nat) -> bool
    decreases t,
{
    match t {
        CborTree::Tag(_, inner) => is_bignum(t) || (limit > 0 && nests_within(
            *inner,
            (limit - 1) as nat,
        )),
        CborTree::Array(items) => limit > 0 && all_nest_within(items, (limit - 1) as nat),
        CborTree::Mapping(entries) => limit > 0 && all_entries_nest_within(
            entries,
            (limit - 1) as nat,
        ),
        _ => true,
    }
}

/// [`nests_within`] holds of every item.
pub open spec fn all_nest_within(s: Seq<CborTree>, limit: nat) -> bool
    decreases s,
{
    s.len() == 0 || (all_nest_within(s.drop_last(), limit) && nests_within(s.last(), limit))
}

/// [`nests_within`] holds of every key and value.
pub open spec fn all_entries_nest_within(s: Seq<(CborTree, CborTree)>, limit: nat) -> bool
    decreases s,
{
    s.len() == 0 || (all_entries_nest_within(s.drop_last(), limit) && nests_within(
        s.last().0,
        limit,
    ) && nests_within(s.last().1, limit))
}

proof fn lemma_all_fit_index(s: Seq<CborTree>, limit: nat)
    ensures
        all_ints_fit(s) <==> forall|i: int| 0 <= i < s.len() ==> #[trigger] ints_fit(s[i]),
        all_nest_within(s, limit) <==> forall|i: int|
            0 <= i < s.len() ==> #[trigger] nests_within(s[i], limit),
    decreases s.len(),
{
    if s.len() > 0 {
        let u = s.drop_last();
        lemma_all_fit_index(u, limit);
        if forall|i: int| 0 <= i < s.len() ==> #[trigger] ints_fit(s[i]) {
            assert forall|i: int| 0 <= i < u.len() implies #[trigger] ints_fit(u[i]) by {
                assert(u[i] == s[i]);
            }
            assert(ints_fit(s[s.len() - 1]));
        }
        if all_ints_fit(s) {
            assert(all_ints_fit(u));
            assert forall|i: int| 0 <= i < s.len() implies #[trigger] ints_fit(s[i]) by {
                if i < u.len() {
                    assert(u[i] == s[i]);
                    assert(ints_fit(u[i]));
                } else {
                    assert(s[i] == s.last());
                }
            }
        }
        if forall|i: int| 0 <= i < s.len() ==> #[trigger] nests_within(s[i], limit) {
            assert forall|i: int| 0 <= i < u.len() implies #[trigger] nests_within(u[i], limit) by {
                assert(u[i] == s[i]);
            }
            assert(nests_within(s[s.len() - 1], limit));
        }
        if all_nest_within(s, limit) {
            assert(all_nest_within(u, limit));
            assert forall|i: int| 0 <= i < s.len() implies #[trigger] nests_within(s[i], limit) by {
                if i < u.len() {
                    assert(u[i] == s[i]);
                    assert(nests_within(u[i], limit));
                } else {
                    assert(s[i] == s.last());
                }
            }
        }
    }
}

proof fn lemma_all_entries_fit_index(s: Seq<(CborTree, CborTree)>, limit: nat)
    ensures
        all_entry_ints_fit(s) <==> forall|i: int|
            0 <= i < s.len() ==> ints_fit(#[trigger] s[i].0) && ints_fit(s[i].1),
        all_entries_nest_within(s, limit) <==> forall|i: int|
            0 <= i < s.len() ==> nests_within(#[trigger] s[i].0, limit) && nests_within(
                s[i].1,
                limit,
            ),
    decreases s.len(),
{
    if s.len() > 0 {
        let u = s.drop_last();
        lemma_all_entries_fit_index(u, limit);
        if forall|i: int| 0 <= i < s.len() ==> ints_fit(#[trigger] s[i].0) && ints_fit(s[i].1) {
            assert forall|i: int| 0 <= i < u.len() implies ints_fit(#[trigger] u[i].0) && ints_fit(u[i].1) by {
                assert(u[i] == s[i]);
            }
            assert(ints_fit(s[s.len() - 1].0));
        }
        if all_entry_ints_fit(s) {
            assert(all_entry_ints_fit(u));
            assert forall|i: int| 0 <= i < s.len() implies ints_fit(#[trigger] s[i].0) && ints_fit(s[i].1) by {
                if i < u.len() {
                    assert(u[i] == s[i]);
                    assert(ints_fit(u[i].0) && ints_fit(u[i].1));
                } else {
                    assert(s[i] == s.last());
                }
            }
        }
        if forall|i: int| 0 <= i < s.len() ==> nests_within(#[trigger] s[i].0, limit) && nests_within(s[i].1, limit) {
            assert forall|i: int| 0 <= i < u.len() implies nests_within(#[trigger] u[i].0, limit) && nests_within(u[i].1, limit) by {
                assert(u[i] == s[i]);
            }
            assert(nests_within(s[s.len() - 1].0, limit));
        }
        if all_entries_nest_within(s, limit) {
            assert(all_entries_nest_within(u, limit));
            assert forall|i: int| 0 <= i < s.len() implies nests_within(#[trigger] s[i].0, limit) && nests_within(s[i].1, limit) by {
                if i < u.len() {
                    assert(u[i] == s[i]);
                    assert(nests_within(u[i].0, limit) && nests_within(u[i].1, limit));
                } else {
                    assert(s[i] == s.last());
                }
            }
        }
    }
}

/// Nesting depth up to which the CBOR decoder accepts input.
pub open spec fn decode_depth_limit() -> nat {
    256
}

/// An item that the CBOR decoder can produce: integers in range, nesting
/// within the decoder's limit.
pub open spec fn decodable(t: CborTree) -> bool {
    ints_fit(t) && nests_within(t, decode_depth_limit())
}

/// What decoding the first CBOR data item of `bytes` into a dynamic value
/// gives: the item, or the decoder's error message.
pub uninterp spec fn cbor_decoding(bytes: Seq<u8>) -> Result<CborTree, Seq<char>>;

/// What encoding a dynamic value as CBOR gives: the bytes, or the encoder's
/// error message.
pub uninterp spec fn cbor_encoding(value: CborTree) -> Result<Seq<u8>, Seq<char>>;

/// Declares the decoder's dynamic value type.
#[verifier::external_type_specification]
#[verifier::external_body]
pub struct ExCiboriumValue(Value);

/// Converts a decoded `ciborium` value into the library's item type, variant
/// for variant. Nothing is claimed of it: the claims are made by
/// [`cbor_decode`], which uses it.
#[verifier::external_body]
fn cbor_value_from(v: Value) -> CborValue {
    match v {
        Value::Integer(i) => CborValue::Integer(i128::from(i)),
        Value::Bytes(b) => CborValue::Bytes(b),
        Value::Float(_) => CborValue::Float,
        Value::Text(t) => CborValue::Text(t),
        Value::Bool(b) => CborValue::Bool(b),
        Value::Null => CborValue::Null,
        Value::Tag(t, inner) => CborValue::Tag(t, Box::new(cbor_value_from(*inner))),
        Value::Array(items) => CborValue::Array(items.into_iter().map(cbor_value_from).collect()),
        Value::Map(entries) => CborValue::Mapping(cbor_entries_from(entries)),
        _ => CborValue::Other,
    }
}

/// Converts decoded map entries, pair for pair (see [`cbor_value_from`]).
#[verifier::external_body]
fn cbor_entries_from(entries: Vec<(Value, Value)>) -> Vec<(CborValue, CborValue)> {
    entries.into_iter().map(|(k, v)| (cbor_value_from(k), cbor_value_from(v))).collect()
}

/// Converts a canonical item into a `ciborium` value, variant for variant.
/// Nothing is claimed of it: the claims are made by [`cbor_encode`].
#[verifier::external_body]
fn ciborium_value_of(v: &CanonicalValue) -> Value {
    match v {
        CanonicalValue::Integer(i) => Value::from(*i),
        CanonicalValue::Bytes(b) => Value::Bytes(b.clone()),
        CanonicalValue::Text(t) => Value::Text(t.clone()),
        CanonicalValue::Bool(b) => Value::Bool(*b),
        CanonicalValue::Null => Value::Null,
        CanonicalValue::Array(items) => Value::Array(items.iter().map(ciborium_value_of).collect()),
        CanonicalValue::Mapping(entries) => Value::Map(ciborium_entries_of(entries)),
    }
}

/// Converts canonical map entries, pair for pair (see [`ciborium_value_of`]).
#[verifier::external_body]
fn ciborium_entries_of(entries: &Vec<(String, CanonicalValue)>) -> Vec<(Value, Value)> {
    entries.iter().map(|(k, v)| (Value::Text(k.clone()), ciborium_value_of(v))).collect()
}

/// Decodes one CBOR data item with `ciborium::de::from_reader` into a
/// dynamic value.
///
/// Claimed of the call: the result is [`cbor_decoding`] of the input (the
/// error as its message); a decoded item holds integers in the range of
/// `ciborium::value::Integer` and nests at most 256 levels deep, the
/// decoder's recursion limit, where a bignum (tag 2 or 3 over at most 16
/// bytes, which the decoder reads as one integer without recursing) counts
/// as a leaf.
#[verifier::external_body]
pub(crate) fn cbor_decode(bytes: &[u8]) -> (r: Result<CborValue, String>)
    ensures
        match r {
            Ok(v) => cbor_decoding(bytes@) == Ok::<CborTree, Seq<char>>(v@) && decodable(v@),
            Err(m) => cbor_decoding(bytes@) == Err::<CborTree, Seq<char>>(m@),
        },
{
    match ciborium::de::from_reader::<Value, _>(bytes) {
        Ok(v) => Ok(cbor_value_from(v)),
        Err(err) => Err(err.to_string()),
    }
}

/// Encodes a canonical item with `ciborium::ser::into_writer`.
///
/// Claimed of the call: the result is [`cbor_encoding`] of the item (the
/// error as its message), and bytes produced from an item that the decoder
/// accepts decode back to that item. Encoding succeeds: ciborium's serializer
/// fails on a dynamic value only when its writer fails (a tag number always
/// serializes), and writing into a `Vec<u8>` appends and does not fail.
#[verifier::external_body]
fn cbor_encode(value: &CanonicalValue) -> (r: Result<Vec<u8>, String>)
    ensures
        r is Ok,
        match r {
            Ok(b) => cbor_encoding(value@) == Ok::<Seq<u8>, Seq<char>>(b@) && (decodable(value@)
                ==> cbor_decoding(b@) == Ok::<CborTree, Seq<char>>(value@)),
            Err(m) => cbor_encoding(value@) == Err::<Seq<u8>, Seq<char>>(m@),
        },
{
    let mut buf = Vec::new();
    match ciborium::ser::into_writer(&ciborium_value_of(value), &mut buf) {
        Ok(()) => Ok(buf),
        Err(err) => Err(err.to_string()),
    }
}


/// Model of one canonical map entry.
pub open spec fn canonical_entry_tree(e: (String, CanonicalValue)) -> (CborTree, CborTree) {
    (CborTree::Text(e.0@), canonical_tree(e.1))
}

proof fn lemma_cbor_trees_index(s: Seq<CborValue>)
    ensures
        cbor_trees(s).len() == s.len(),
        forall|i: int| 0 <= i < s.len() ==> #[trigger] cbor_trees(s)[i] == cbor_tree(s[i]),
    decreases s.len(),
{
    if s.len() > 0 {
        lemma_cbor_trees_index(s.drop_last());
    }
}

proof fn lemma_cbor_entry_trees_index(s: Seq<(CborValue, CborValue)>)
    ensures
        cbor_entry_trees(s).len() == s.len(),
        forall|i: int|
            0 <= i < s.len() ==> #[trigger] cbor_entry_trees(s)[i] == (
                cbor_tree(s[i].0),
                cbor_tree(s[i].1),
            ),
    decreases s.len(),
{
    if s.len() > 0 {
        lemma_cbor_entry_trees_index(s.drop_last());
    }
}

proof fn lemma_canonical_trees_index(s: Seq<CanonicalValue>)
    ensures
        canonical_trees(s).len() == s.len(),
        forall|i: int| 0 <= i < s.len() ==> #[trigger] canonical_trees(s)[i] == canonical_tree(s[i]),
    decreases s.len(),
{
    if s.len() > 0 {
        lemma_canonical_trees_index(s.drop_last());
    }
}

proof fn lemma_canonical_entry_trees_index(s: Seq<(String, CanonicalValue)>)
    ensures
        canonical_entry_trees(s).len() == s.len(),
        forall|i: int|
            0 <= i < s.len() ==> #[trigger] canonical_entry_trees(s)[i] == canonical_entry_tree(
                s[i],
            ),
    decreases s.len(),
{
    if s.len() > 0 {
        lemma_canonical_entry_trees_index(s.drop_last());
    }
}

/// The items of a vector in reverse order.
fn reversed<T>(v: Vec<T>) -> (r: Vec<T>)
    ensures
        r@ == v@.reverse(),
{
    let ghost orig = v@;
    let mut v = v;
    let mut r: Vec<T> = Vec::new();
    while v.len() > 0
        invariant
            v.len() + r.len() == orig.len(),
            forall|i: int| 0 <= i < v.len() ==> #[trigger] v@[i] == orig[i],
            forall|i: int| 0 <= i < r.len() ==> #[trigger] r@[i] == orig[orig.len() - 1 - i],
        decreases v.len(),
    {
        let x = v.pop().unwrap();
        r.push(x);
    }
    assert(r@ =~= orig.reverse());
    r
}

proof fn lemma_lex_less_suffix(a: Seq<u8>, b: Seq<u8>, i: int)
    requires
        0 <= i < a.len(),
        a.len() == b.len(),
    ensures
        lex_less(a.subrange(i, a.len() as int), b.subrange(i, b.len() as int)) == if a[i]
            != b[i] {
            a[i] < b[i]
        } else {
            lex_less(a.subrange(i + 1, a.len() as int), b.subrange(i + 1, b.len() as int))
        },
{
    let sa = a.subrange(i, a.len() as int);
    let sb = b.subrange(i, b.len() as int);
    assert(sa.drop_first() =~= a.subrange(i + 1, a.len() as int));
    assert(sb.drop_first() =~= b.subrange(i + 1, b.len() as int));
}

/// Whether key `a` sorts strictly before key `b` in canonical key order.
fn key_precedes(a: &String, b: &String) -> (r: bool)
    ensures
        r == key_before(encode_utf8(a@), encode_utf8(b@)),
{
    let ab = a.as_str().as_bytes();
    let bb = b.as_str().as_bytes();
    assert(ab@ == encode_utf8(a@));
    assert(bb@ == encode_utf8(b@));
    if ab.len() != bb.len() {
        return ab.len() < bb.len();
    }
    let n = ab.len();
    let mut i: usize = 0;
    assert(ab@.subrange(0, n as int) =~= ab@);
    assert(bb@.subrange(0, n as int) =~= bb@);
    while i < n
        invariant
            i <= n,
            n == ab@.len(),
            n == bb@.len(),
            ab@ == encode_utf8(a@),
            bb@ == encode_utf8(b@),
            lex_less(ab@, bb@) == lex_less(
                ab@.subrange(i as int, n as int),
                bb@.subrange(i as int, n as int),
            ),
        decreases n - i,
    {
        proof {
            lemma_lex_less_suffix(ab@, bb@, i as int);
        }
        if ab[i] != bb[i] {
            assert(lex_less(ab@, bb@) == (ab@[i as int] < bb@[i as int]));
            return ab[i] < bb[i];
        }
        i = i + 1;
    }
    false
}

/// Under the scan conditions, inserting from the end lands at index `j`.
proof fn lemma_insert_entry_at(x: (CborTree, CborTree), t: Seq<(CborTree, CborTree)>, j: int)
    requires
        0 <= j <= t.len(),
        forall|m: int| j <= m < t.len() ==> #[trigger] entry_before(x, t[m]),
        j == 0 || !entry_before(x, t[j - 1]),
    ensures
        insert_entry(x, t) == t.insert(j, x),
    decreases t.len(),
{
    if t.len() == 0 {
        assert(t.insert(j, x) =~= seq![x]);
    } else if j == t.len() {
        assert(t.insert(j, x) =~= t.push(x));
    } else {
        lemma_insert_entry_at(x, t.drop_last(), j);
        assert(t.drop_last().insert(j, x).push(t.last()) =~= t.insert(j, x));
    }
}

/// Sorts map entries into canonical key order (stable).
fn sort_entries_by_key(entries: Vec<(String, CanonicalValue)>) -> (r: Vec<(String, CanonicalValue)>)
    ensures
        canonical_entry_trees(r@) == sort_entries(canonical_entry_trees(entries@)),
{
    let ghost ets = canonical_entry_trees(entries@);
    proof {
        lemma_canonical_entry_trees_index(entries@);
    }
    let n = entries.len();
    let mut rest = reversed(entries);
    let mut acc: Vec<(String, CanonicalValue)> = Vec::new();
    let mut k: usize = 0;
    assert(ets.subrange(0, 0) =~= Seq::<(CborTree, CborTree)>::empty());
    while k < n
        invariant
            k <= n,
            n == ets.len(),
            rest.len() == n - k,
            forall|i: int| 0 <= i < rest.len() ==> canonical_entry_tree(#[trigger] rest@[i]) == ets[n - 1 - i],
            canonical_entry_trees(acc@) == sort_entries(ets.subrange(0, k as int)),
        decreases n - k,
    {
        let x = rest.pop().unwrap();
        let ghost xt = canonical_entry_tree(x);
        assert(xt == ets[k as int]);
        let ghost at = canonical_entry_trees(acc@);
        proof {
            lemma_canonical_entry_trees_index(acc@);
        }
        let mut j = acc.len();
        while j > 0 && key_precedes(&x.0, &acc[j - 1].0)
            invariant
                j <= acc.len(),
                at == canonical_entry_trees(acc@),
                at.len() == acc.len(),
                forall|i: int| 0 <= i < acc.len() ==> #[trigger] at[i] == canonical_entry_tree(acc@[i]),
                xt == canonical_entry_tree(x),
                forall|m: int| j <= m < at.len() ==> #[trigger] entry_before(xt, at[m]),
            decreases j,
        {
            j = j - 1;
        }
        proof {
            lemma_insert_entry_at(xt, at, j as int);
            assert(ets.subrange(0, k + 1).drop_last() =~= ets.subrange(0, k as int));
        }
        acc.insert(j, x);
        proof {
            lemma_canonical_entry_trees_index(acc@);
            assert(canonical_entry_trees(acc@) =~= at.insert(j as int, xt));
        }
        k = k + 1;
    }
    assert(ets.subrange(0, n as int) =~= ets);
    acc
}


/// Rewrites a decoded item into canonical form: map entries sorted by key
/// order, and floats, tags and non-text map keys rejected.
fn canonicalize_value(value: CborValue) -> (r: Result<CanonicalValue, CanonicalError>)
    ensures
        match r {
            Ok(c) => canonicalize_tree(value@) == Ok::<CborTree, CanonicalFailure>(c@),
            Err(e) => canonicalize_tree(value@) == Err::<CborTree, CanonicalFailure>(e@),
        },
    decreases value,
{
    match value {
        CborValue::Integer(i) => Ok(CanonicalValue::Integer(i)),
        CborValue::Bytes(b) => Ok(CanonicalValue::Bytes(b)),
        CborValue::Text(t) => Ok(CanonicalValue::Text(t)),
        CborValue::Bool(b) => Ok(CanonicalValue::Bool(b)),
        CborValue::Null => Ok(CanonicalValue::Null),
        CborValue::Float => Err(CanonicalError::FloatNotAllowed),
        CborValue::Tag(_, _) => Err(CanonicalError::TagNotAllowed),
        CborValue::Other => Err(CanonicalError::TagNotAllowed),
        CborValue::Array(items) => {
            let ghost orig = items@;
            let ghost ts = cbor_trees(orig);
            proof {
                lemma_cbor_trees_index(orig);
                assert forall|i: int| 0 <= i < orig.len() implies decreases_to!(value => #[trigger] orig[i]) by {
                    assert(decreases_to!(value => items));
                    assert(decreases_to!(items => items@));
                }
            }
            let n = items.len();
            let mut rest = reversed(items);
            let mut out: Vec<CanonicalValue> = Vec::new();
            let mut k: usize = 0;
            assert(ts.subrange(0, 0) =~= Seq::<CborTree>::empty());
            while k < n
                invariant
                    k <= n,
                    n == orig.len(),
                    ts == cbor_trees(orig),
                    ts.len() == n,
                    value@ == CborTree::Array(ts),
                    rest.len() == n - k,
                    forall|i: int| 0 <= i < rest.len() ==> #[trigger] rest@[i] == orig[n - 1 - i],
                    forall|i: int| 0 <= i < n ==> #[trigger] ts[i] == cbor_tree(orig[i]),
                    forall|i: int| 0 <= i < n ==> decreases_to!(value => #[trigger] orig[i]),
                    canonicalize_trees(ts.subrange(0, k as int)) == Ok::<Seq<CborTree>, CanonicalFailure>(canonical_trees(out@)),
                decreases n - k,
            {
                let x = rest.pop().unwrap();
                assert(x == orig[k as int]);
                let c = canonicalize_value(x);
                assert(ts.subrange(0, k + 1).drop_last() =~= ts.subrange(0, k as int));
                match c {
                    Ok(cv) => {
                        let ghost before = out@;
                        out.push(cv);
                        proof {
                            assert(out@.drop_last() =~= before);
                        }
                    },
                    Err(e) => {
                        proof {
                            lemma_trees_error_sticks(ts, k as int + 1);
                        }
                        return Err(e);
                    },
                }
                k = k + 1;
            }
            assert(ts.subrange(0, n as int) =~= ts);
            Ok(CanonicalValue::Array(out))
        },
        CborValue::Mapping(entries) => {
            let ghost orig = entries@;
            let ghost es = cbor_entry_trees(orig);
            proof {
                lemma_cbor_entry_trees_index(orig);
                assert forall|i: int| 0 <= i < orig.len() implies decreases_to!(value => #[trigger] orig[i].1) by {
                    assert(decreases_to!(value => entries));
                    assert(decreases_to!(entries => entries@));
                    assert(decreases_to!(entries@ => entries@[i]));
                }
            }
            let n = entries.len();
            let mut rest = reversed(entries);
            let mut out: Vec<(String, CanonicalValue)> = Vec::new();
            let mut k: usize = 0;
            assert(es.subrange(0, 0) =~= Seq::<(CborTree, CborTree)>::empty());
            while k < n
                invariant
                    k <= n,
                    n == orig.len(),
                    es == cbor_entry_trees(orig),
                    es.len() == n,
                    value@ == CborTree::Mapping(es),
                    rest.len() == n - k,
                    forall|i: int| 0 <= i < rest.len() ==> #[trigger] rest@[i] == orig[n - 1 - i],
                    forall|i: int| 0 <= i < n ==> #[trigger] es[i] == (cbor_tree(orig[i].0), cbor_tree(orig[i].1)),
                    forall|i: int| 0 <= i < n ==> decreases_to!(value => #[trigger] orig[i].1),
                    canonicalize_entries(es.subrange(0, k as int)) == Ok::<Seq<(CborTree, CborTree)>, CanonicalFailure>(canonical_entry_trees(out@)),
                decreases n - k,
            {
                let (key, val) = rest.pop().unwrap();
                assert(key == orig[k as int].0 && val == orig[k as int].1);
                assert(es.subrange(0, k + 1).drop_last() =~= es.subrange(0, k as int));
                let text = match key {
                    CborValue::Text(t) => t,
                    _ => {
                        proof {
                            lemma_entries_error_sticks(es, k as int + 1);
                        }
                        return Err(CanonicalError::NonStringMapKey);
                    },
                };
                match canonicalize_value(val) {
                    Ok(cv) => {
                        let ghost before = out@;
                        out.push((text, cv));
                        proof {
                            assert(out@.drop_last() =~= before);
                        }
                    },
                    Err(e) => {
                        proof {
                            lemma_entries_error_sticks(es, k as int + 1);
                        }
                        return Err(e);
                    },
                }
                k = k + 1;
            }
            assert(es.subrange(0, n as int) =~= es);
            let sorted = sort_entries_by_key(out);
            Ok(CanonicalValue::Mapping(sorted))
        },
    }
}

/// Once a prefix of the items fails, every longer prefix fails the same way.
proof fn lemma_trees_error_sticks(s: Seq<CborTree>, j: int)
    requires
        0 <= j <= s.len(),
        canonicalize_trees(s.subrange(0, j)) is Err,
    ensures
        canonicalize_trees(s) == canonicalize_trees(s.subrange(0, j)),
    decreases s.len() - j,
{
    if j < s.len() {
        assert(s.subrange(0, j + 1).drop_last() =~= s.subrange(0, j));
        lemma_trees_error_sticks(s, j + 1);
    } else {
        assert(s.subrange(0, j) =~= s);
    }
}

/// Once a prefix of the entries fails, every longer prefix fails the same way.
proof fn lemma_entries_error_sticks(s: Seq<(CborTree, CborTree)>, j: int)
    requires
        0 <= j <= s.len(),
        canonicalize_entries(s.subrange(0, j)) is Err,
    ensures
        canonicalize_entries(s) == canonicalize_entries(s.subrange(0, j)),
    decreases s.len() - j,
{
    if j < s.len() {
        assert(s.subrange(0, j + 1).drop_last() =~= s.subrange(0, j));
        lemma_entries_error_sticks(s, j + 1);
    } else {
        assert(s.subrange(0, j) =~= s);
    }
}


// ---------------------------------------------------------------------------
// Key order facts.

pub(crate) proof fn lemma_lex_less_asym(a: Seq<u8>, b: Seq<u8>)
    ensures
        lex_less(a, b) ==> !lex_less(b, a),
    decreases a.len(),
{
    if a.len() > 0 && b.len() > 0 && a[0] == b[0] {
        lemma_lex_less_asym(a.drop_first(), b.drop_first());
    }
}

pub(crate) proof fn lemma_lex_less_trans(a: Seq<u8>, b: Seq<u8>, c: Seq<u8>)
    ensures
        lex_less(a, b) && lex_less(b, c) ==> lex_less(a, c),
    decreases a.len(),
{
    if a.len() > 0 && b.len() > 0 && c.len() > 0 {
        lemma_lex_less_trans(a.drop_first(), b.drop_first(), c.drop_first());
    }
}

pub(crate) proof fn lemma_lex_less_total(a: Seq<u8>, b: Seq<u8>)
    ensures
        a != b ==> lex_less(a, b) || lex_less(b, a),
    decreases a.len(),
{
    if a.len() > 0 && b.len() > 0 && a[0] == b[0] {
        lemma_lex_less_total(a.drop_first(), b.drop_first());
        if a.drop_first() == b.drop_first() {
            assert(a =~= seq![a[0]] + a.drop_first());
            assert(b =~= seq![b[0]] + b.drop_first());
        }
    } else if a.len() == 0 && b.len() == 0 {
        assert(a =~= b);
    }
}

/// Entries that are not ordered either way stay unordered through a chain:
/// `key_before` is a strict weak order.
proof fn lemma_key_before_negative_trans(x: Seq<u8>, l: Seq<u8>, y: Seq<u8>)
    requires
        !key_before(x, l),
        !key_before(l, y),
    ensures
        !key_before(x, y),
{
    lemma_lex_less_total(x, l);
    lemma_lex_less_trans(l, x, y);
    lemma_lex_less_asym(x, l);
}

proof fn lemma_key_before_asym(a: Seq<u8>, b: Seq<u8>)
    ensures
        key_before(a, b) ==> !key_before(b, a),
{
    lemma_lex_less_asym(a, b);
}

/// Map entries in canonical key order (equal keys in any order).
pub open spec fn entries_sorted(s: Seq<(CborTree, CborTree)>) -> bool {
    forall|i: int, j: int| 0 <= i < j < s.len() ==> !entry_before(#[trigger] s[j], #[trigger] s[i])
}

proof fn lemma_insert_entry_sorted(x: (CborTree, CborTree), t: Seq<(CborTree, CborTree)>)
    requires
        entries_sorted(t),
    ensures
        entries_sorted(insert_entry(x, t)),
        insert_entry(x, t).len() == t.len() + 1,
        forall|i: int|
            0 <= i < insert_entry(x, t).len() ==> #[trigger] insert_entry(x, t)[i] == x
                || t.contains(insert_entry(x, t)[i]),
    decreases t.len(),
{
    if t.len() == 0 {
    } else if entry_before(x, t.last()) {
        let u = t.drop_last();
        assert(entries_sorted(u));
        lemma_insert_entry_sorted(x, u);
        let w = insert_entry(x, u);
        let r = w.push(t.last());
        assert forall|i: int| 0 <= i < w.len() implies !entry_before(t.last(), #[trigger] w[i]) by {
            if w[i] == x {
                lemma_key_before_asym(key_bytes(x.0), key_bytes(t.last().0));
            } else {
                let k = choose|k: int| 0 <= k < u.len() && u[k] == w[i];
                assert(t[k] == w[i]);
            }
        }
        assert forall|i: int, j: int| 0 <= i < j < r.len() implies !entry_before(
            #[trigger] r[j],
            #[trigger] r[i],
        ) by {
            if j == r.len() - 1 {
                assert(r[j] == t.last());
                assert(r[i] == w[i]);
            } else {
                assert(r[j] == w[j] && r[i] == w[i]);
            }
        }
        assert forall|i: int| 0 <= i < r.len() implies #[trigger] r[i] == x || t.contains(r[i]) by {
            if i == r.len() - 1 {
                assert(t[t.len() - 1] == r[i]);
            } else {
                assert(r[i] == w[i]);
                if r[i] != x {
                    let k = choose|k: int| 0 <= k < u.len() && u[k] == w[i];
                    assert(t[k] == r[i]);
                }
            }
        }
    } else {
        let r = t.push(x);
        assert forall|i: int, j: int| 0 <= i < j < r.len() implies !entry_before(
            #[trigger] r[j],
            #[trigger] r[i],
        ) by {
            if j == r.len() - 1 {
                if i < t.len() - 1 {
                    lemma_key_before_negative_trans(
                        key_bytes(x.0),
                        key_bytes(t.last().0),
                        key_bytes(t[i].0),
                    );
                }
            }
        }
        assert forall|i: int| 0 <= i < r.len() implies #[trigger] r[i] == x || t.contains(r[i]) by {
            if i < t.len() {
                assert(t[i] == r[i]);
            }
        }
    }
}

proof fn lemma_sort_entries_sorted(s: Seq<(CborTree, CborTree)>)
    ensures
        entries_sorted(sort_entries(s)),
        sort_entries(s).len() == s.len(),
        forall|i: int| 0 <= i < s.len() ==> s.contains(#[trigger] sort_entries(s)[i]),
    decreases s.len(),
{
    if s.len() > 0 {
        let u = s.drop_last();
        lemma_sort_entries_sorted(u);
        lemma_insert_entry_sorted(s.last(), sort_entries(u));
        let r = sort_entries(s);
        assert forall|i: int| 0 <= i < s.len() implies s.contains(#[trigger] sort_entries(s)[i]) by {
            if r[i] == s.last() {
                assert(s[s.len() - 1] == r[i]);
            } else {
                let su = sort_entries(u);
                let k = choose|k: int| 0 <= k < su.len() && su[k] == r[i];
                let m = choose|m: int| 0 <= m < u.len() && u[m] == su[k];
                assert(s[m] == r[i]);
            }
        }
    }
}

proof fn lemma_sorted_sort_fixed(s: Seq<(CborTree, CborTree)>)
    requires
        entries_sorted(s),
    ensures
        sort_entries(s) == s,
    decreases s.len(),
{
    if s.len() > 0 {
        let u = s.drop_last();
        assert(entries_sorted(u));
        lemma_sorted_sort_fixed(u);
        if u.len() > 0 {
            assert(!entry_before(s[s.len() - 1], s[s.len() - 2]));
        }
        assert(u.push(s.last()) =~= s);
    }
}

// ---------------------------------------------------------------------------
// Canonical form facts.

proof fn lemma_trees_ok(s: Seq<CborTree>)
    requires
        canonicalize_trees(s) is Ok,
    ensures
        canonicalize_trees(s)->Ok_0.len() == s.len(),
        forall|i: int|
            0 <= i < s.len() ==> #[trigger] canonicalize_tree(s[i]) == Ok::<
                CborTree,
                CanonicalFailure,
            >(canonicalize_trees(s)->Ok_0[i]),
    decreases s.len(),
{
    if s.len() > 0 {
        let u = s.drop_last();
        lemma_trees_ok(u);
        let p = canonicalize_trees(u)->Ok_0;
        let x = canonicalize_tree(s.last())->Ok_0;
        assert(canonicalize_trees(s)->Ok_0 == p.push(x));
        assert forall|i: int| 0 <= i < s.len() implies #[trigger] canonicalize_tree(s[i]) == Ok::<
            CborTree,
            CanonicalFailure,
        >(canonicalize_trees(s)->Ok_0[i]) by {
            if i < u.len() {
                assert(u[i] == s[i]);
            }
        }
    }
}

proof fn lemma_trees_fixed(p: Seq<CborTree>)
    requires
        forall|i: int|
            0 <= i < p.len() ==> #[trigger] canonicalize_tree(p[i]) == Ok::<
                CborTree,
                CanonicalFailure,
            >(p[i]),
    ensures
        canonicalize_trees(p) == Ok::<Seq<CborTree>, CanonicalFailure>(p),
    decreases p.len(),
{
    if p.len() > 0 {
        let u = p.drop_last();
        assert forall|i: int| 0 <= i < u.len() implies #[trigger] canonicalize_tree(u[i]) == Ok::<
            CborTree,
            CanonicalFailure,
        >(u[i]) by {
            assert(u[i] == p[i]);
        }
        lemma_trees_fixed(u);
        assert(canonicalize_tree(p[p.len() - 1]) == Ok::<CborTree, CanonicalFailure>(p.last()));
        assert(u.push(p.last()) =~= p);
    } else {
        assert(p =~= Seq::<CborTree>::empty());
    }
}

proof fn lemma_entries_ok(s: Seq<(CborTree, CborTree)>)
    requires
        canonicalize_entries(s) is Ok,
    ensures
        canonicalize_entries(s)->Ok_0.len() == s.len(),
        forall|i: int|
            0 <= i < s.len() ==> {
                &&& (#[trigger] s[i]).0 is Text
                &&& canonicalize_entries(s)->Ok_0[i].0 == s[i].0
                &&& canonicalize_tree(s[i].1) == Ok::<CborTree, CanonicalFailure>(
                    canonicalize_entries(s)->Ok_0[i].1,
                )
            },
    decreases s.len(),
{
    if s.len() > 0 {
        let u = s.drop_last();
        lemma_entries_ok(u);
        assert forall|i: int| 0 <= i < s.len() implies {
            &&& (#[trigger] s[i]).0 is Text
            &&& canonicalize_entries(s)->Ok_0[i].0 == s[i].0
            &&& canonicalize_tree(s[i].1) == Ok::<CborTree, CanonicalFailure>(
                canonicalize_entries(s)->Ok_0[i].1,
            )
        } by {
            if i < u.len() {
                assert(u[i] == s[i]);
            }
        }
    }
}

proof fn lemma_entries_fixed(p: Seq<(CborTree, CborTree)>)
    requires
        forall|i: int|
            0 <= i < p.len() ==> (#[trigger] p[i]).0 is Text && canonicalize_tree(p[i].1) == Ok::<
                CborTree,
                CanonicalFailure,
            >(p[i].1),
    ensures
        canonicalize_entries(p) == Ok::<Seq<(CborTree, CborTree)>, CanonicalFailure>(p),
    decreases p.len(),
{
    if p.len() > 0 {
        let u = p.drop_last();
        assert forall|i: int| 0 <= i < u.len() implies (#[trigger] u[i]).0 is Text
            && canonicalize_tree(u[i].1) == Ok::<CborTree, CanonicalFailure>(u[i].1) by {
            assert(u[i] == p[i]);
        }
        lemma_entries_fixed(u);
        assert(p[p.len() - 1].0 is Text);
        assert(u.push((p.last().0, p.last().1)) =~= p);
    } else {
        assert(p =~= Seq::<(CborTree, CborTree)>::empty());
    }
}

/// Canonicalizing a canonical form gives it back.
proof fn lemma_canonical_fixed(t: CborTree)
    requires
        canonicalize_tree(t) is Ok,
    ensures
        canonicalize_tree(canonicalize_tree(t)->Ok_0) == canonicalize_tree(t),
    decreases t,
{
    match t {
        CborTree::Array(items) => {
            lemma_trees_ok(items);
            let p = canonicalize_trees(items)->Ok_0;
            assert forall|i: int| 0 <= i < p.len() implies #[trigger] canonicalize_tree(p[i]) == Ok::<
                CborTree,
                CanonicalFailure,
            >(p[i]) by {
                assert(canonicalize_tree(items[i]) is Ok);
                lemma_canonical_fixed(items[i]);
            }
            lemma_trees_fixed(p);
        },
        CborTree::Mapping(entries) => {
            lemma_entries_ok(entries);
            let p = canonicalize_entries(entries)->Ok_0;
            let q = sort_entries(p);
            lemma_sort_entries_sorted(p);
            assert forall|i: int| 0 <= i < p.len() implies (#[trigger] p[i]).0 is Text
                && canonicalize_tree(p[i].1) == Ok::<CborTree, CanonicalFailure>(p[i].1) by {
                assert(entries[i].0 is Text);
                lemma_canonical_fixed(entries[i].1);
            }
            assert forall|i: int| 0 <= i < q.len() implies (#[trigger] q[i]).0 is Text
                && canonicalize_tree(q[i].1) == Ok::<CborTree, CanonicalFailure>(q[i].1) by {
                assert(p.contains(q[i]));
                let k = choose|k: int| 0 <= k < p.len() && p[k] == q[i];
                assert(p[k].0 is Text);
            }
            lemma_entries_fixed(q);
            lemma_sorted_sort_fixed(q);
        },
        _ => {},
    }
}

/// Canonicalization keeps integers in range and does not deepen nesting.
proof fn lemma_canonical_keeps_decodable(t: CborTree, limit: nat)
    requires
        canonicalize_tree(t) is Ok,
    ensures
        ints_fit(t) ==> ints_fit(canonicalize_tree(t)->Ok_0),
        nests_within(t, limit) ==> nests_within(canonicalize_tree(t)->Ok_0, limit),
    decreases t,
{
    let sub = (limit - 1) as nat;
    match t {
        CborTree::Array(items) => {
            lemma_trees_ok(items);
            let p = canonicalize_trees(items)->Ok_0;
            lemma_all_fit_index(items, sub);
            lemma_all_fit_index(p, sub);
            assert forall|i: int| 0 <= i < p.len() && ints_fit(items[i]) implies #[trigger] ints_fit(
                p[i],
            ) by {
                assert(canonicalize_tree(items[i]) is Ok);
                lemma_canonical_keeps_decodable(items[i], sub);
            }
            assert forall|i: int| 0 <= i < p.len() && nests_within(items[i], sub) implies #[trigger] nests_within(p[i], sub) by {
                assert(canonicalize_tree(items[i]) is Ok);
                lemma_canonical_keeps_decodable(items[i], sub);
            }
        },
        CborTree::Mapping(entries) => {
            lemma_entries_ok(entries);
            let p = canonicalize_entries(entries)->Ok_0;
            let q = sort_entries(p);
            lemma_sort_entries_sorted(p);
            lemma_all_entries_fit_index(entries, sub);
            lemma_all_entries_fit_index(q, sub);
            assert forall|i: int| 0 <= i < p.len() implies {
                &&& ints_fit(entries[i].1) ==> ints_fit((#[trigger] p[i]).1)
                &&& nests_within(entries[i].1, sub) ==> nests_within(p[i].1, sub)
                &&& p[i].0 is Text
            } by {
                assert(entries[i].0 is Text);
                lemma_canonical_keeps_decodable(entries[i].1, sub);
            }
            assert forall|i: int| 0 <= i < q.len() implies {
                &&& ints_fit(t) ==> ints_fit((#[trigger] q[i]).0) && ints_fit(q[i].1)
                &&& nests_within(t, limit) ==> nests_within(q[i].0, sub) && nests_within(q[i].1, sub)
            } by {
                assert(p.contains(q[i]));
                let k = choose|k: int| 0 <= k < p.len() && p[k] == q[i];
                assert(p[k].0 is Text);
                if ints_fit(t) {
                    assert(ints_fit(entries[k].0) && ints_fit(entries[k].1));
                }
                if nests_within(t, limit) {
                    assert(nests_within(entries[k].0, sub) && nests_within(entries[k].1, sub));
                }
            }
        },
        _ => {},
    }
}


/// Equal-length byte strings: `lex_less` holds exactly when, at the first
/// position where they differ, the first one has the smaller byte.
proof fn lemma_lex_less_first_difference(a: Seq<u8>, b: Seq<u8>)
    requires
        a.len() == b.len(),
    ensures
        lex_less(a, b) <==> exists|i: int|
            0 <= i < a.len() && a.subrange(0, i) == b.subrange(0, i) && #[trigger] a[i] < b[i],
    decreases a.len(),
{
    if a.len() == 0 {
    } else if a[0] != b[0] {
        if a[0] < b[0] {
            assert(a.subrange(0, 0) =~= b.subrange(0, 0));
            assert(a[0] < b[0]);
        }
        if exists|i: int| 0 <= i < a.len() && a.subrange(0, i) == b.subrange(0, i) && #[trigger] a[i] < b[i] {
            let i = choose|i: int| 0 <= i < a.len() && a.subrange(0, i) == b.subrange(0, i) && #[trigger] a[i] < b[i];
            if i > 0 {
                assert(a.subrange(0, i)[0] == b.subrange(0, i)[0]);
            }
        }
    } else {
        let ta = a.drop_first();
        let tb = b.drop_first();
        lemma_lex_less_first_difference(ta, tb);
        if lex_less(a, b) {
            assert(lex_less(ta, tb));
            let j = choose|j: int| 0 <= j < ta.len() && ta.subrange(0, j) == tb.subrange(0, j) && #[trigger] ta[j] < tb[j];
            assert(a.subrange(0, j + 1) =~= seq![a[0]] + ta.subrange(0, j));
            assert(b.subrange(0, j + 1) =~= seq![b[0]] + tb.subrange(0, j));
            assert(a[j + 1] == ta[j] && b[j + 1] == tb[j]);
            assert(a[j + 1] < b[j + 1]);
        }
        if exists|i: int| 0 <= i < a.len() && a.subrange(0, i) == b.subrange(0, i) && #[trigger] a[i] < b[i] {
            let i = choose|i: int| 0 <= i < a.len() && a.subrange(0, i) == b.subrange(0, i) && #[trigger] a[i] < b[i];
            assert(i > 0);
            assert(ta.subrange(0, i - 1) =~= a.subrange(0, i).drop_first());
            assert(tb.subrange(0, i - 1) =~= b.subrange(0, i).drop_first());
            assert(ta[i - 1] == a[i] && tb[i - 1] == b[i]);
            assert(ta[i - 1] < tb[i - 1]);
        }
    }
}

/// Canonical key order on the keys' UTF-8 bytes: a shorter key sorts first;
/// between keys of equal length, the one with the smaller byte at the first
/// position where they differ sorts first. No key sorts before itself, and of
/// two different keys exactly one sorts before the other.
pub proof fn law_key_order(a: Seq<u8>, b: Seq<u8>)
    ensures
        key_before(a, b) <==> (a.len() < b.len() || (a.len() == b.len() && exists|i: int|
            0 <= i < a.len() && a.subrange(0, i) == b.subrange(0, i) && #[trigger] a[i] < b[i])),
        !key_before(a, a),
        a != b ==> (key_before(a, b) != key_before(b, a)),
{
    if a.len() == b.len() {
        lemma_lex_less_first_difference(a, b);
    }
    lemma_lex_less_first_difference(a, a);
    lemma_key_before_asym(a, b);
    if a != b && a.len() == b.len() {
        lemma_lex_less_total(a, b);
    }
}

/// Every map in the item (at any depth) has its entries in canonical key
/// order.
pub open spec fn maps_sorted(t: CborTree) -> bool
    decreases t,
{
    match t {
        CborTree::Tag(_, inner) => maps_sorted(*inner),
        CborTree::Array(items) => all_maps_sorted(items),
        CborTree::Mapping(entries) => entries_sorted(entries) && all_entry_maps_sorted(entries),
        _ => true,
    }
}

/// [`maps_sorted`] holds of every item.
pub open spec fn all_maps_sorted(s: Seq<CborTree>) -> bool
    decreases s,
{
    s.len() == 0 || (all_maps_sorted(s.drop_last()) && maps_sorted(s.last()))
}

/// [`maps_sorted`] holds of every key and value.
pub open spec fn all_entry_maps_sorted(s: Seq<(CborTree, CborTree)>) -> bool
    decreases s,
{
    s.len() == 0 || (all_entry_maps_sorted(s.drop_last()) && maps_sorted(s.last().0) && maps_sorted(
        s.last().1,
    ))
}

proof fn lemma_all_maps_sorted_index(s: Seq<CborTree>)
    ensures
        all_maps_sorted(s) <==> forall|i: int| 0 <= i < s.len() ==> #[trigger] maps_sorted(s[i]),
    decreases s.len(),
{
    if s.len() > 0 {
        let u = s.drop_last();
        lemma_all_maps_sorted_index(u);
        if forall|i: int| 0 <= i < s.len() ==> #[trigger] maps_sorted(s[i]) {
            assert forall|i: int| 0 <= i < u.len() implies #[trigger] maps_sorted(u[i]) by {
                assert(u[i] == s[i]);
            }
            assert(maps_sorted(s[s.len() - 1]));
        }
        if all_maps_sorted(s) {
            assert(all_maps_sorted(u));
            assert forall|i: int| 0 <= i < s.len() implies #[trigger] maps_sorted(s[i]) by {
                if i < u.len() {
                    assert(u[i] == s[i]);
                } else {
                    assert(s[i] == s.last());
                }
            }
        }
    }
}

proof fn lemma_all_entry_maps_sorted_index(s: Seq<(CborTree, CborTree)>)
    ensures
        all_entry_maps_sorted(s) <==> forall|i: int|
            0 <= i < s.len() ==> maps_sorted(#[trigger] s[i].0) && maps_sorted(s[i].1),
    decreases s.len(),
{
    if s.len() > 0 {
        let u = s.drop_last();
        lemma_all_entry_maps_sorted_index(u);
        if forall|i: int| 0 <= i < s.len() ==> maps_sorted(#[trigger] s[i].0) && maps_sorted(s[i].1) {
            assert forall|i: int| 0 <= i < u.len() implies maps_sorted(#[trigger] u[i].0) && maps_sorted(u[i].1) by {
                assert(u[i] == s[i]);
            }
            assert(maps_sorted(s[s.len() - 1].0));
        }
        if all_entry_maps_sorted(s) {
            assert(all_entry_maps_sorted(u));
            assert forall|i: int| 0 <= i < s.len() implies maps_sorted(#[trigger] s[i].0) && maps_sorted(s[i].1) by {
                if i < u.len() {
                    assert(u[i] == s[i]);
                } else {
                    assert(s[i] == s.last());
                }
            }
        }
    }
}

/// Canonicalization leaves every map, at any depth, with its entries in
/// canonical key order (see [`law_key_order`]).
pub proof fn law_canonical_maps_sorted(t: CborTree)
    requires
        canonicalize_tree(t) is Ok,
    ensures
        maps_sorted(canonicalize_tree(t)->Ok_0),
    decreases t,
{
    match t {
        CborTree::Array(items) => {
            lemma_trees_ok(items);
            let p = canonicalize_trees(items)->Ok_0;
            assert forall|i: int| 0 <= i < p.len() implies #[trigger] maps_sorted(p[i]) by {
                assert(canonicalize_tree(items[i]) is Ok);
                law_canonical_maps_sorted(items[i]);
            }
            lemma_all_maps_sorted_index(p);
        },
        CborTree::Mapping(entries) => {
            lemma_entries_ok(entries);
            let p = canonicalize_entries(entries)->Ok_0;
            let q = sort_entries(p);
            lemma_sort_entries_sorted(p);
            assert forall|i: int| 0 <= i < q.len() implies maps_sorted(#[trigger] q[i].0) && maps_sorted(q[i].1) by {
                assert(p.contains(q[i]));
                let k = choose|k: int| 0 <= k < p.len() && p[k] == q[i];
                assert(p[k].0 is Text);
                assert(canonicalize_tree(entries[k].1) is Ok);
                law_canonical_maps_sorted(entries[k].1);
            }
            lemma_all_entry_maps_sorted_index(q);
        },
        _ => {},
    }
}

// ---------------------------------------------------------------------------
// Byte-level operations.

/// Result of parsing CBOR bytes and re-encoding them in canonical form.
pub open spec fn spec_canonicalize(bytes: Seq<u8>) -> Result<Seq<u8>, CanonicalFailure> {
    match cbor_decoding(bytes) {
        Err(m) => Err(CanonicalFailure::Decode(m)),
        Ok(t) => match canonicalize_tree(t) {
            Err(e) => Err(e),
            Ok(c) => match cbor_encoding(c) {
                Err(m) => Err(CanonicalFailure::Encode(m)),
                Ok(b) => Ok(b),
            },
        },
    }
}

/// Result of checking that bytes are already canonical CBOR: they must
/// re-encode to themselves.
pub open spec fn spec_ensure_canonical(bytes: Seq<u8>) -> Result<(), CanonicalFailure> {
    match spec_canonicalize(bytes) {
        Err(e) => Err(e),
        Ok(c) => if c == bytes {
            Ok(())
        } else {
            Err(CanonicalFailure::NotCanonical)
        },
    }
}

/// Parse CBOR and re-encode in canonical form.
///
/// Whatever this returns passes [`ensure_canonical`].
pub fn canonicalize(bytes: &[u8]) -> (r: Result<Vec<u8>, CanonicalError>)
    ensures
        match r {
            Ok(c) => spec_canonicalize(bytes@) == Ok::<Seq<u8>, CanonicalFailure>(c@),
            Err(e) => spec_canonicalize(bytes@) == Err::<Seq<u8>, CanonicalFailure>(e@),
        },
        r matches Ok(c) ==> spec_ensure_canonical(c@) == Ok::<(), CanonicalFailure>(()),
{
    let value = match cbor_decode(bytes) {
        Ok(v) => v,
        Err(m) => return Err(CanonicalError::Decode(m)),
    };
    let ghost t = value@;
    let canonical = match canonicalize_value(value) {
        Ok(c) => c,
        Err(e) => return Err(e),
    };
    proof {
        lemma_canonical_fixed(t);
        lemma_canonical_keeps_decodable(t, decode_depth_limit());
    }
    match cbor_encode(&canonical) {
        Ok(buf) => Ok(buf),
        Err(m) => Err(CanonicalError::Encode(m)),
    }
}

/// Whether two byte strings are equal.
fn bytes_equal(a: &[u8], b: &[u8]) -> (r: bool)
    ensures
        r == (a@ == b@),
{
    if a.len() != b.len() {
        return false;
    }
    let mut i: usize = 0;
    while i < a.len()
        invariant
            i <= a.len(),
            a.len() == b.len(),
            forall|k: int| 0 <= k < i ==> a@[k] == b@[k],
        decreases a.len() - i,
    {
        if a[i] != b[i] {
            return false;
        }
        i = i + 1;
    }
    assert(a@ =~= b@);
    true
}

/// Ensure bytes are canonical by re-encoding and comparing.
pub fn ensure_canonical(bytes: &[u8]) -> (r: Result<(), CanonicalError>)
    ensures
        match r {
            Ok(()) => spec_ensure_canonical(bytes@) == Ok::<(), CanonicalFailure>(()),
            Err(e) => spec_ensure_canonical(bytes@) == Err::<(), CanonicalFailure>(e@),
        },
{
    let canonical = canonicalize(bytes)?;
    if !bytes_equal(bytes, canonical.as_slice()) {
        return Err(CanonicalError::NotCanonical);
    }
    Ok(())
}

/// What the first 128 bits (16 bytes) of the Blake3 hash of `bytes` are.
pub uninterp spec fn blake3_prefix(bytes: Seq<u8>) -> [u8; 16];

/// Returns the first 128 bits of the Blake3 hash of the referenced bytes.
///
/// Calls `blake3::hash`; the contract claims only that the result is
/// [`blake3_prefix`] of the input (a function of the bytes alone).
#[verifier::external_body]
pub fn blake3_128(bytes: &[u8]) -> (r: [u8; 16])
    ensures
        r == blake3_prefix(bytes@),
{
    let mut out = [0u8; 16];
    out.copy_from_slice(&blake3::hash(bytes).as_bytes()[..16]);
    out
}


/// Canonical CBOR of a text string: its encoding, canonicalized.
pub open spec fn spec_text_to_canonical_cbor(s: Seq<char>) -> Result<Seq<u8>, CanonicalFailure> {
    match cbor_encoding(CborTree::Text(s)) {
        Err(m) => Err(CanonicalFailure::Encode(m)),
        Ok(b) => spec_canonicalize(b),
    }
}

/// Encodes a text string as canonical CBOR.
pub fn text_to_canonical_cbor(s: &str) -> (r: Result<Vec<u8>, CanonicalError>)
    ensures
        match r {
            Ok(b) => spec_text_to_canonical_cbor(s@) == Ok::<Seq<u8>, CanonicalFailure>(b@),
            Err(e) => spec_text_to_canonical_cbor(s@) == Err::<Seq<u8>, CanonicalFailure>(e@),
        },
        r is Ok,
{
    let value = CanonicalValue::Text(crate::text::owned(s));
    let interim = match cbor_encode(&value) {
        Ok(b) => b,
        Err(m) => return Err(CanonicalError::Encode(m)),
    };
    canonicalize(interim.as_slice())
}


/// Human-readable description of a canonicalization error.
pub open spec fn canonical_error_message(e: CanonicalFailure) -> Seq<char> {
    match e {
        CanonicalFailure::Decode(m) => "CBOR decode failed: "@ + m,
        CanonicalFailure::Encode(m) => "CBOR encode failed: "@ + m,
        CanonicalFailure::NonStringMapKey => "CBOR map keys must be text strings"@,
        CanonicalFailure::FloatNotAllowed => "CBOR floats are not allowed in canonical data"@,
        CanonicalFailure::TagNotAllowed => "CBOR tags are not allowed in canonical data"@,
        CanonicalFailure::Base32(b) => "Base32 decode failed: "@ + crate::cbor::base32::base32_error_message(b),
        CanonicalFailure::NotCanonical => "CBOR payload is not canonical"@,
    }
}

impl CanonicalError {
    /// Human-readable description of the error.
    pub fn to_message(&self) -> (r: String)
        ensures
            r@ == canonical_error_message(self@),
    {
        match self {
            CanonicalError::Decode(m) => crate::text::concat2("CBOR decode failed: ", m.as_str()),
            CanonicalError::Encode(m) => crate::text::concat2("CBOR encode failed: ", m.as_str()),
            CanonicalError::NonStringMapKey => crate::text::owned("CBOR map keys must be text strings"),
            CanonicalError::FloatNotAllowed => crate::text::owned("CBOR floats are not allowed in canonical data"),
            CanonicalError::TagNotAllowed => crate::text::owned("CBOR tags are not allowed in canonical data"),
            CanonicalError::Base32(b) => {
                let inner = b.to_message();
                crate::text::concat2("Base32 decode failed: ", inner.as_str())
            },
            CanonicalError::NotCanonical => crate::text::owned("CBOR payload is not canonical"),
        }
    }
}

} // verus!
