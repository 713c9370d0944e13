//! Canonical component source references for packs.
use vstd::prelude::*;

use crate::text::{
    contains_whitespace, find_char, first_index_of, has_prefix, has_whitespace, last_index_of,
    opt_text, owned, push_str, rfind_char, starts_with,
};

verus! {

/// Supported component source references.
#[derive(Clone, Debug, PartialEq, Eq, Hash)]
pub enum ComponentSourceRef {
    /// Public OCI reference (`oci://repo/name:tag` or `oci://repo/name@sha256:...`).
    Oci(String),
    /// Private repository reference (`repo://...`).
    Repo(String),
    /// Store-licensed component reference (`store://...`).
    Store(String),
    /// File-based component reference (`file://...`).
    File(String),
}

/// Errors produced when parsing component source references.
#[derive(Debug, Clone, Copy, PartialEq, Eq, Structural)]
pub enum ComponentSourceRefError {
    /// Reference cannot be empty.
    EmptyReference,
    /// Reference must not contain whitespace.
    ContainsWhitespace,
    /// Reference must use a supported scheme.
    InvalidScheme,
    /// Reference is missing the required locator after the scheme.
    MissingLocator,
}

/// Human-readable description of a parse error.
pub open spec fn source_ref_error_message(e: ComponentSourceRefError) -> Seq<char> {
    match e {
        ComponentSourceRefError::EmptyReference => "component source reference cannot be empty"@,
        ComponentSourceRefError::ContainsWhitespace => "component source reference must not contain whitespace"@,
        ComponentSourceRefError::InvalidScheme => "component source reference must use oci://, repo://, store://, or file://"@,
        ComponentSourceRefError::MissingLocator => "component source reference is missing a locator"@,
    }
}

impl ComponentSourceRefError {
    /// Human-readable description of the error.
    pub fn message(&self) -> (r: &'static str)
        ensures
            r@ == source_ref_error_message(*self),
    {
        let m = match self {
            ComponentSourceRefError::EmptyReference => "component source reference cannot be empty",
            ComponentSourceRefError::ContainsWhitespace => "component source reference must not contain whitespace",
            ComponentSourceRefError::InvalidScheme => "component source reference must use oci://, repo://, store://, or file://",
            ComponentSourceRefError::MissingLocator => "component source reference is missing a locator",
        };
        m
    }
}

/// Kind of a source reference (its scheme).
#[derive(Clone, Copy, Debug, PartialEq, Eq, Structural)]
pub enum SourceScheme {
    /// `oci://`
    Oci,
    /// `repo://`
    Repo,
    /// `store://`
    Store,
    /// `file://`
    File,
}

/// Name of a scheme.
pub open spec fn scheme_name(k: SourceScheme) -> Seq<char> {
    match k {
        SourceScheme::Oci => seq!['o', 'c', 'i'],
        SourceScheme::Repo => seq!['r', 'e', 'p', 'o'],
        SourceScheme::Store => seq!['s', 't', 'o', 'r', 'e'],
        SourceScheme::File => seq!['f', 'i', 'l', 'e'],
    }
}

/// The scheme's prefix: its name followed by `://`.
pub open spec fn scheme_prefix(k: SourceScheme) -> Seq<char> {
    scheme_name(k) + seq![':', '/', '/']
}

impl View for ComponentSourceRef {
    type V = (SourceScheme, Seq<char>);

    open spec fn view(&self) -> (SourceScheme, Seq<char>) {
        match self {
            ComponentSourceRef::Oci(r) => (SourceScheme::Oci, r@),
            ComponentSourceRef::Repo(r) => (SourceScheme::Repo, r@),
            ComponentSourceRef::Store(r) => (SourceScheme::Store, r@),
            ComponentSourceRef::File(r) => (SourceScheme::File, r@),
        }
    }
}

/// The text form `scheme://reference`.
pub open spec fn source_ref_text(r: (SourceScheme, Seq<char>)) -> Seq<char> {
    scheme_prefix(r.0) + r.1
}

/// Result of parsing after the scheme prefix `k` matched.
pub open spec fn parse_after(s: Seq<char>, k: SourceScheme) -> Result<
    (SourceScheme, Seq<char>),
    ComponentSourceRefError,
> {
    let rest = s.subrange(scheme_prefix(k).len() as int, s.len() as int);
    if rest.len() == 0 {
        Err(ComponentSourceRefError::MissingLocator)
    } else {
        Ok((k, rest))
    }
}

/// Result of parsing a component source reference.
pub open spec fn spec_parse_source_ref(s: Seq<char>) -> Result<
    (SourceScheme, Seq<char>),
    ComponentSourceRefError,
> {
    if s.len() == 0 {
        Err(ComponentSourceRefError::EmptyReference)
    } else if has_whitespace(s) {
        Err(ComponentSourceRefError::ContainsWhitespace)
    } else if has_prefix(s, scheme_prefix(SourceScheme::Oci)) {
        parse_after(s, SourceScheme::Oci)
    } else if has_prefix(s, scheme_prefix(SourceScheme::Repo)) {
        parse_after(s, SourceScheme::Repo)
    } else if has_prefix(s, scheme_prefix(SourceScheme::Store)) {
        parse_after(s, SourceScheme::Store)
    } else if has_prefix(s, scheme_prefix(SourceScheme::File)) {
        parse_after(s, SourceScheme::File)
    } else {
        Err(ComponentSourceRefError::InvalidScheme)
    }
}

/// Strips `prefix` (known to be a prefix of `value`) and builds the reference.
fn parse_with_scheme(value: &str, prefix: &str, k: SourceScheme) -> (r: Result<
    ComponentSourceRef,
    ComponentSourceRefError,
>)
    requires
        prefix@ == scheme_prefix(k),
        has_prefix(value@, prefix@),
    ensures
        match r {
            Ok(v) => parse_after(value@, k) == Ok::<_, ComponentSourceRefError>(v@),
            Err(e) => parse_after(value@, k) == Err::<(SourceScheme, Seq<char>), _>(e),
        },
{
    let n = value.unicode_len();
    let p = prefix.unicode_len();
    let rest = value.substring_char(p, n);
    if rest.unicode_len() == 0 {
        return Err(ComponentSourceRefError::MissingLocator);
    }
    let text = owned(rest);
    match k {
        SourceScheme::Oci => Ok(ComponentSourceRef::Oci(text)),
        SourceScheme::Repo => Ok(ComponentSourceRef::Repo(text)),
        SourceScheme::Store => Ok(ComponentSourceRef::Store(text)),
        SourceScheme::File => Ok(ComponentSourceRef::File(text)),
    }
}

impl ComponentSourceRef {
    /// Parses a reference of the form `scheme://locator`.
    pub fn parse(value: &str) -> (r: Result<Self, ComponentSourceRefError>)
        ensures
            match r {
                Ok(v) => spec_parse_source_ref(value@) == Ok::<_, ComponentSourceRefError>(v@),
                Err(e) => spec_parse_source_ref(value@) == Err::<(SourceScheme, Seq<char>), _>(e),
            },
    {
        if value.unicode_len() == 0 {
            return Err(ComponentSourceRefError::EmptyReference);
        }
        if contains_whitespace(value) {
            return Err(ComponentSourceRefError::ContainsWhitespace);
        }
        proof {
            reveal_strlit("oci://");
            reveal_strlit("repo://");
            reveal_strlit("store://");
            reveal_strlit("file://");
        }
        assert("oci://"@ =~= scheme_prefix(SourceScheme::Oci));
        assert("repo://"@ =~= scheme_prefix(SourceScheme::Repo));
        assert("store://"@ =~= scheme_prefix(SourceScheme::Store));
        assert("file://"@ =~= scheme_prefix(SourceScheme::File));
        if starts_with(value, "oci://") {
            return parse_with_scheme(value, "oci://", SourceScheme::Oci);
        }
        if starts_with(value, "repo://") {
            return parse_with_scheme(value, "repo://", SourceScheme::Repo);
        }
        if starts_with(value, "store://") {
            return parse_with_scheme(value, "store://", SourceScheme::Store);
        }
        if starts_with(value, "file://") {
            return parse_with_scheme(value, "file://", SourceScheme::File);
        }
        Err(ComponentSourceRefError::InvalidScheme)
    }

    /// Returns the scheme name for this reference.
    pub fn scheme(&self) -> (r: &'static str)
        ensures
            r@ == scheme_name(self@.0),
    {
        proof {
            reveal_strlit("oci");
            reveal_strlit("repo");
            reveal_strlit("store");
            reveal_strlit("file");
        }
        match self {
            ComponentSourceRef::Oci(_) => "oci",
            ComponentSourceRef::Repo(_) => "repo",
            ComponentSourceRef::Store(_) => "store",
            ComponentSourceRef::File(_) => "file",
        }
    }

    /// Returns the raw reference portion without the scheme prefix.
    pub fn reference(&self) -> (r: &str)
        ensures
            r@ == self@.1,
    {
        match self {
            ComponentSourceRef::Oci(value) => value.as_str(),
            ComponentSourceRef::Repo(value) => value.as_str(),
            ComponentSourceRef::Store(value) => value.as_str(),
            ComponentSourceRef::File(value) => value.as_str(),
        }
    }

    /// The reference written as `scheme://reference`.
    pub fn to_string(&self) -> (r: String)
        ensures
            r@ == source_ref_text(self@),
    {
        let mut out = owned(self.scheme());
        proof {
            reveal_strlit("://");
        }
        push_str(&mut out, "://");
        push_str(&mut out, self.reference());
        assert(out@ =~= source_ref_text(self@));
        out
    }
}

impl core::str::FromStr for ComponentSourceRef {
    type Err = ComponentSourceRefError;

    fn from_str(value: &str) -> (r: Result<Self, Self::Err>)
        ensures
            match r {
                Ok(v) => spec_parse_source_ref(value@) == Ok::<_, ComponentSourceRefError>(v@),
                Err(e) => spec_parse_source_ref(value@) == Err::<(SourceScheme, Seq<char>), _>(e),
            },
    {
        ComponentSourceRef::parse(value)
    }
}

/// A reference with a locator free of whitespace survives being written out
/// and parsed back.
pub proof fn law_source_ref_roundtrip(r: (SourceScheme, Seq<char>))
    requires
        r.1.len() > 0,
        !has_whitespace(r.1),
    ensures
        spec_parse_source_ref(source_ref_text(r)) == Ok::<_, ComponentSourceRefError>(r),
{
    let s = source_ref_text(r);
    let p = scheme_prefix(r.0);
    assert(s.subrange(0, p.len() as int) =~= p);
    assert(s.subrange(p.len() as int, s.len() as int) =~= r.1);
    assert(!has_whitespace(s)) by {
        if has_whitespace(s) {
            let i = choose|i: int| 0 <= i < s.len() && crate::text::is_unicode_whitespace(#[trigger] s[i]);
            if i >= p.len() {
                assert(s[i] == r.1[i - p.len()]);
            }
        }
    }
    let oci = scheme_prefix(SourceScheme::Oci);
    let repo = scheme_prefix(SourceScheme::Repo);
    let store = scheme_prefix(SourceScheme::Store);
    assert(r.0 != SourceScheme::Oci ==> s[0] != oci[0] || s[1] != oci[1]);
    assert(r.0 != SourceScheme::Oci ==> !has_prefix(s, oci)) by {
        if r.0 != SourceScheme::Oci && has_prefix(s, oci) {
            assert(s.subrange(0, oci.len() as int)[0] == oci[0]);
            assert(s.subrange(0, oci.len() as int)[1] == oci[1]);
        }
    }
    assert(r.0 != SourceScheme::Oci && r.0 != SourceScheme::Repo ==> !has_prefix(s, repo)) by {
        if r.0 != SourceScheme::Oci && r.0 != SourceScheme::Repo && has_prefix(s, repo) {
            assert(s.subrange(0, repo.len() as int)[0] == repo[0]);
            assert(s.subrange(0, repo.len() as int)[4] == repo[4]);
        }
    }
    assert(r.0 == SourceScheme::File ==> !has_prefix(s, store)) by {
        if r.0 == SourceScheme::File && has_prefix(s, store) {
            assert(s.subrange(0, store.len() as int)[0] == store[0]);
        }
    }
}

/// `scheme://rest`, with `rest` not empty and the whole text free of
/// whitespace, parses to the reference `rest` under that scheme.
pub proof fn law_source_ref_parse_parts(k: SourceScheme, rest: Seq<char>)
    requires
        rest.len() > 0,
        !has_whitespace(scheme_prefix(k) + rest),
    ensures
        spec_parse_source_ref(scheme_prefix(k) + rest) == Ok::<_, ComponentSourceRefError>((k, rest)),
{
    let p = scheme_prefix(k);
    assert(!has_whitespace(rest)) by {
        if has_whitespace(rest) {
            let i = choose|i: int| 0 <= i < rest.len() && crate::text::is_unicode_whitespace(#[trigger] rest[i]);
            assert((p + rest)[p.len() + i] == rest[i]);
        }
    }
    law_source_ref_roundtrip((k, rest));
    assert(source_ref_text((k, rest)) == p + rest);
}

/// Only OCI references can be digests or tags. An OCI reference is a digest
/// exactly when it contains `@`, and a digest reference is never a tag.
pub proof fn law_digest_and_tag(r: (SourceScheme, Seq<char>))
    ensures
        (r.0 == SourceScheme::Oci && spec_oci_parts(r.1).2 is Some) == (r.0 == SourceScheme::Oci
            && r.1.contains('@')),
        !((r.0 == SourceScheme::Oci && spec_oci_parts(r.1).2 is Some) && (r.0 == SourceScheme::Oci
            && spec_oci_parts(r.1).2 is None && spec_oci_parts(r.1).1 is Some)),
{
    if r.1.contains('@') {
        let i = choose|i: int| 0 <= i < r.1.len() && r.1[i] == '@';
        assert(first_index_of(r.1, '@') is Some);
    }
}

/// A parsed reference, written back out, is the text it was parsed from.
pub proof fn law_source_ref_text_of_parse(s: Seq<char>)
    requires
        spec_parse_source_ref(s) is Ok,
    ensures
        source_ref_text(spec_parse_source_ref(s)->Ok_0) == s,
{
    let r = spec_parse_source_ref(s)->Ok_0;
    let p = scheme_prefix(r.0);
    assert(s.subrange(0, p.len() as int) == p);
    assert(p + s.subrange(p.len() as int, s.len() as int) =~= s);
}


/// Splits `name:tag` at the last colon that follows the last slash, when the
/// tag after it is not empty.
pub open spec fn spec_split_oci_tag(r: Seq<char>) -> (Seq<char>, Option<Seq<char>>) {
    match last_index_of(r, ':') {
        Some(colon) => {
            let after_slash = match last_index_of(r, '/') {
                Some(slash) => colon > slash,
                None => true,
            };
            if after_slash && colon + 1 < r.len() {
                (r.subrange(0, colon), Some(r.subrange(colon + 1, r.len() as int)))
            } else {
                (r, None)
            }
        },
        None => (r, None),
    }
}

/// Parts of an OCI reference: name, optional tag, optional digest (after
/// the first `@`).
pub open spec fn spec_oci_parts(r: Seq<char>) -> (Seq<char>, Option<Seq<char>>, Option<Seq<char>>) {
    let (name_with_tag, digest) = match first_index_of(r, '@') {
        Some(at) => (r.subrange(0, at), Some(r.subrange(at + 1, r.len() as int))),
        None => (r, None),
    };
    let (name, tag) = spec_split_oci_tag(name_with_tag);
    (name, tag, digest)
}

/// Splits an OCI `name:tag` into its name and tag.
fn split_oci_tag(reference: &str) -> (r: (String, Option<String>))
    ensures
        (r.0@, opt_text(r.1)) == spec_split_oci_tag(reference@),
{
    let n = reference.unicode_len();
    let last_slash = rfind_char(reference, '/');
    let last_colon = rfind_char(reference, ':');
    if let Some(colon) = last_colon {
        let after_slash = match last_slash {
            Some(slash) => colon > slash,
            None => true,
        };
        if after_slash {
            let tag = reference.substring_char(colon + 1, n);
            if tag.unicode_len() > 0 {
                return (owned(reference.substring_char(0, colon)), Some(owned(tag)));
            }
        }
    }
    (owned(reference), None)
}

/// Splits an OCI reference into name, tag and digest.
fn split_oci_reference(reference: &str) -> (r: (String, Option<String>, Option<String>))
    ensures
        (r.0@, opt_text(r.1), opt_text(r.2)) == spec_oci_parts(reference@),
{
    let n = reference.unicode_len();
    match find_char(reference, '@') {
        Some(at) => {
            let (name, tag) = split_oci_tag(reference.substring_char(0, at));
            (name, tag, Some(owned(reference.substring_char(at + 1, n))))
        },
        None => {
            let (name, tag) = split_oci_tag(reference);
            (name, tag, None)
        },
    }
}

/// Canonical text of a reference: OCI references are rebuilt from their parts
/// (a digest wins over a tag); others are written as `scheme://reference`.
pub open spec fn spec_normalized(r: (SourceScheme, Seq<char>)) -> Seq<char> {
    if r.0 == SourceScheme::Oci {
        let (name, tag, digest) = spec_oci_parts(r.1);
        match digest {
            Some(d) => scheme_prefix(SourceScheme::Oci) + name + seq!['@'] + d,
            None => match tag {
                Some(t) => scheme_prefix(SourceScheme::Oci) + name + seq![':'] + t,
                None => scheme_prefix(SourceScheme::Oci) + r.1,
            },
        }
    } else {
        source_ref_text(r)
    }
}

impl ComponentSourceRef {
    /// Returns `true` when this is an OCI reference using a tag suffix (`:tag`).
    pub fn is_tag(&self) -> (b: bool)
        ensures
            b == (self@.0 == SourceScheme::Oci && spec_oci_parts(self@.1).2 is None
                && spec_oci_parts(self@.1).1 is Some),
    {
        match self {
            ComponentSourceRef::Oci(reference) => {
                let (_, tag, digest) = split_oci_reference(reference.as_str());
                digest.is_none() && tag.is_some()
            },
            _ => false,
        }
    }

    /// Returns `true` when this is an OCI reference using a digest suffix (`@sha256:...`).
    pub fn is_digest(&self) -> (b: bool)
        ensures
            b == (self@.0 == SourceScheme::Oci && spec_oci_parts(self@.1).2 is Some),
    {
        match self {
            ComponentSourceRef::Oci(reference) => {
                let (_, _, digest) = split_oci_reference(reference.as_str());
                digest.is_some()
            },
            _ => false,
        }
    }

    /// Returns a canonical string form of the reference.
    pub fn normalized(&self) -> (r: String)
        ensures
            r@ == spec_normalized(self@),
    {
        match self {
            ComponentSourceRef::Oci(reference) => {
                let (name, tag, digest) = split_oci_reference(reference.as_str());
                proof {
                    reveal_strlit("oci://");
                }
                let mut out = owned("oci://");
                match digest {
                    Some(d) => {
                        push_str(&mut out, name.as_str());
                        crate::text::push_char(&mut out, '@');
                        push_str(&mut out, d.as_str());
                    },
                    None => match tag {
                        Some(t) => {
                            push_str(&mut out, name.as_str());
                            crate::text::push_char(&mut out, ':');
                            push_str(&mut out, t.as_str());
                        },
                        None => {
                            push_str(&mut out, reference.as_str());
                        },
                    },
                }
                assert(out@ =~= spec_normalized(self@));
                out
            },
            _ => self.to_string(),
        }
    }
}

} // verus!
