use std::str::FromStr;
use greentic_types::cbor::canonical::canonicalize;
use greentic_types::distributor::ComponentDigest;
use greentic_types::i18n::{id_for_tag, I18nId, I18nIdError, I18nTag};
use greentic_types::{
    schema_id_for_cbor, ComponentSourceRef, ComponentSourceRefError, SchemaId, SchemaIdError,
};

fn canonical_cbor_of_text(text: &str) -> Vec<u8> {
    let mut interim = Vec::new();
    ciborium::ser::into_writer(&text, &mut interim).unwrap();
    canonicalize(&interim).unwrap()
}

#[test]
fn schema_id_roundtrip() {
    let schema = canonical_cbor_of_text("schema");
    let id = match schema_id_for_cbor(&schema) {
        Ok(value) => value,
        Err(err) => panic!("id generation failed: {err:?}"),
    };
    let parsed = match SchemaId::parse(id.as_str()) {
        Ok(value) => value,
        Err(err) => panic!("parse failed: {err:?}"),
    };
    assert_eq!(parsed.as_str(), id.as_str());
}

#[test]
fn schema_id_rejects_bad_input() {
    assert!(matches!(SchemaId::parse("nope"), Err(SchemaIdError::InvalidPrefix)));
    assert!(matches!(SchemaId::parse("schema:v1:U"), Err(SchemaIdError::Base32(_))));
    assert!(matches!(
        schema_id_for_cbor(&[0xA2, 0x61, b'b', 0x01, 0x61, b'a', 0x02]),
        Err(SchemaIdError::Canonical(_))
    ));
    let id = schema_id_for_cbor(&[0x01]).unwrap();
    assert!(id.as_str().starts_with("schema:v1:"));
    assert_eq!(id.as_str().len(), "schema:v1:".len() + 26);
}

#[test]
fn normalize_tag_case() {
    let tag = match I18nTag::normalize_tag("en-gb") {
        Ok(tag) => tag,
        Err(err) => panic!("normalize failed: {err:?}"),
    };
    assert_eq!(tag.as_str(), "en-GB");
}

#[test]
fn tag_id_roundtrip() {
    let tag = match I18nTag::normalize_tag("en-US") {
        Ok(tag) => tag,
        Err(err) => panic!("normalize failed: {err:?}"),
    };
    let id = match id_for_tag(&tag) {
        Ok(id) => id,
        Err(err) => panic!("id generation failed: {err:?}"),
    };
    let roundtrip = match I18nId::parse(id.as_str()) {
        Ok(value) => value,
        Err(err) => panic!("parse failed: {err:?}"),
    };
    assert_eq!(roundtrip.as_str(), id.as_str());
}

#[test]
fn i18n_errors() {
    assert!(I18nTag::normalize_tag("not a tag!").is_err());
    assert!(matches!(I18nId::parse("x"), Err(I18nIdError::InvalidPrefix)));
}

#[test]
fn component_source_parses_schemes() {
    let oci: ComponentSourceRef = "oci://ghcr.io/org/comp:1.0".parse().unwrap();
    assert_eq!(oci.scheme(), "oci");
    assert_eq!(oci.reference(), "ghcr.io/org/comp:1.0");
    assert!(oci.is_tag());
    assert!(!oci.is_digest());
    let repo = ComponentSourceRef::parse("repo://team/comp").unwrap();
    assert_eq!(repo, ComponentSourceRef::Repo("team/comp".to_owned()));
    assert_eq!(repo.to_string(), "repo://team/comp");
    assert_eq!(repo.normalized(), "repo://team/comp");
    assert!(!repo.is_tag());
    assert_eq!(
        ComponentSourceRef::parse("store://x").unwrap(),
        ComponentSourceRef::Store("x".to_owned())
    );
    assert_eq!(
        ComponentSourceRef::parse("file:///tmp/c.wasm").unwrap(),
        ComponentSourceRef::File("/tmp/c.wasm".to_owned())
    );
}

#[test]
fn component_source_errors() {
    assert_eq!(
        ComponentSourceRef::parse(""),
        Err(ComponentSourceRefError::EmptyReference)
    );
    assert_eq!(
        ComponentSourceRef::parse("oci://a b"),
        Err(ComponentSourceRefError::ContainsWhitespace)
    );
    assert_eq!(
        ComponentSourceRef::parse("http://x"),
        Err(ComponentSourceRefError::InvalidScheme)
    );
    assert_eq!(
        ComponentSourceRef::parse("oci://"),
        Err(ComponentSourceRefError::MissingLocator)
    );
}

#[test]
fn oci_normalization() {
    let digest = ComponentSourceRef::Oci("reg/name:tag@sha256:abc".to_owned());
    assert!(digest.is_digest());
    assert!(!digest.is_tag());
    assert_eq!(digest.normalized(), "oci://reg/name@sha256:abc");
    let port = ComponentSourceRef::Oci("localhost:5000/name".to_owned());
    assert!(!port.is_tag());
    assert_eq!(port.normalized(), "oci://localhost:5000/name");
    let empty_tag = ComponentSourceRef::Oci("reg/name:".to_owned());
    assert!(!empty_tag.is_tag());
    let tagged = ComponentSourceRef::Oci("localhost:5000/name:v2".to_owned());
    assert!(tagged.is_tag());
    assert_eq!(tagged.normalized(), "oci://localhost:5000/name:v2");
}

#[test]
fn source_ref_text_roundtrip() {
    for text in ["oci://a/b:c", "repo://x", "store://y/z", "file://w"] {
        let parsed = ComponentSourceRef::parse(text).unwrap();
        assert_eq!(parsed.to_string(), text);
        assert_eq!(ComponentSourceRef::parse(&parsed.to_string()).unwrap(), parsed);
    }
}

#[test]
fn sha256_like_digests() {
    let good = format!("sha256:{}", "a1".repeat(32));
    assert!(ComponentDigest(good).is_sha256_like());
    let upper = format!("sha256:{}", "A1".repeat(32));
    assert!(!ComponentDigest(upper).is_sha256_like());
    let short = format!("sha256:{}", "a".repeat(63));
    assert!(!ComponentDigest(short).is_sha256_like());
    assert!(!ComponentDigest("md5:abc".to_owned()).is_sha256_like());
}

#[test]
fn from_str_agrees_with_parse() {
    let parsed = ComponentSourceRef::from_str("oci://ghcr.io/acme/widget:1.0").unwrap();
    assert_eq!(parsed, ComponentSourceRef::Oci("ghcr.io/acme/widget:1.0".to_owned()));
    assert_eq!(
        ComponentSourceRef::from_str(""),
        Err(ComponentSourceRefError::EmptyReference)
    );
}

#[test]
fn tag_id_shape_and_determinism() {
    let tag = I18nTag::normalize_tag("en-gb").unwrap();
    let again = I18nTag::normalize_tag("EN-GB").unwrap();
    let id = id_for_tag(&tag).unwrap();
    let digest = greentic_types::cbor::canonical::blake3_128(&canonical_cbor_of_text(tag.as_str()));
    let expected = format!(
        "i18n:v1:{}",
        greentic_types::cbor::canonical::encode_base32_crockford(&digest)
    );
    assert_eq!(id.as_str(), expected);
    assert_eq!(id.as_str().len(), 34);
    assert_eq!(id_for_tag(&again).unwrap().as_str(), id.as_str());
}

#[test]
fn digest_iff_at_sign_and_never_tag() {
    let digest = ComponentSourceRef::from_str("oci://ghcr.io/a/b:1@sha256:abc").unwrap();
    assert!(digest.is_digest());
    assert!(!digest.is_tag());
    let tag = ComponentSourceRef::from_str("oci://ghcr.io/a/b:1").unwrap();
    assert!(tag.is_tag());
    assert!(!tag.is_digest());
    for text in ["repo://a@b:1", "store://x@y", "file:///tmp/a:b"] {
        let r = ComponentSourceRef::from_str(text).unwrap();
        assert!(!r.is_digest());
        assert!(!r.is_tag());
    }
}

#[test]
fn parse_splits_scheme_and_reference() {
    for (scheme, rest) in [("oci", "ghcr.io/x:1"), ("repo", "r/x"), ("store", "s"), ("file", "/tmp/f")] {
        let text = format!("{scheme}://{rest}");
        let r = ComponentSourceRef::from_str(&text).unwrap();
        assert_eq!(r.scheme(), scheme);
        assert_eq!(r.reference(), rest);
    }
}

#[test]
fn text_to_canonical_cbor_always_succeeds() {
    assert!(greentic_types::cbor::canonical::text_to_canonical_cbor("").is_ok());
    assert!(greentic_types::cbor::canonical::text_to_canonical_cbor("ünïcødé").is_ok());
}
