use greentic_types::cbor::canonical::{
    blake3_128, canonicalize, decode_base32_crockford, encode_base32_crockford, ensure_canonical,
    text_to_canonical_cbor, Base32Error, CanonicalError,
};
use greentic_types::CborBytes;

#[test]
fn canonicalize_reorders_map_keys() {
    let non_canonical = vec![
        0xA2, // map of two entries
        0x61, b'b', 0x01, // key "b" -> 1
        0x61, b'a', 0x02, // key "a" -> 2
    ];

    let canonical = match canonicalize(&non_canonical) {
        Ok(bytes) => bytes,
        Err(err) => panic!("canonicalize failed: {err:?}"),
    };
    assert_ne!(non_canonical, canonical);
    assert!(ensure_canonical(&canonical).is_ok());
}

#[test]
fn ensure_canonical_rejects_indefinite_maps() {
    let indefinite = vec![
        0xBF, // start indefinite-length map
        0x61, b'a', 0x01, // "a": 1
        0xFF, // break
    ];
    assert!(matches!(
        ensure_canonical(&indefinite),
        Err(CanonicalError::NotCanonical)
    ));
}

#[test]
fn base32_decode_accepts_lowercase() {
    let payload = [0x12, 0x34];
    let encoded = encode_base32_crockford(&payload);
    let lowercase = encoded.to_lowercase();
    let decoded = match decode_base32_crockford(&lowercase) {
        Ok(bytes) => bytes,
        Err(err) => panic!("decode failed: {err:?}"),
    };
    assert_eq!(decoded, payload.to_vec());
}

#[test]
fn canonicalize_sorts_keys_by_length_then_bytes() {
    // {"bb": 1, "a": 2, "c": 3} -> {"a": 2, "c": 3, "bb": 1}
    let input = vec![0xA3, 0x62, b'b', b'b', 0x01, 0x61, b'a', 0x02, 0x61, b'c', 0x03];
    let out = canonicalize(&input).unwrap();
    assert_eq!(out, vec![0xA3, 0x61, b'a', 0x02, 0x61, b'c', 0x03, 0x62, b'b', b'b', 0x01]);
    assert_eq!(canonicalize(&out).unwrap(), out);
}

#[test]
fn canonicalize_sorts_nested_maps() {
    // [{"b": 1, "a": {"d": 0, "c": 1}}]
    let input = vec![
        0x81, 0xA2, 0x61, b'b', 0x01, 0x61, b'a', 0xA2, 0x61, b'd', 0x00, 0x61, b'c', 0x01,
    ];
    let out = canonicalize(&input).unwrap();
    assert_eq!(
        out,
        vec![0x81, 0xA2, 0x61, b'a', 0xA2, 0x61, b'c', 0x01, 0x61, b'd', 0x00, 0x61, b'b', 0x01]
    );
    assert!(ensure_canonical(&out).is_ok());
}

#[test]
fn canonicalize_rejects_floats_tags_and_non_text_keys() {
    // 1.5 as a half float
    assert!(matches!(
        canonicalize(&[0xF9, 0x3E, 0x00]),
        Err(CanonicalError::FloatNotAllowed)
    ));
    // tag 1 (epoch time) wrapping 0
    assert!(matches!(
        canonicalize(&[0xC1, 0x00]),
        Err(CanonicalError::TagNotAllowed)
    ));
    // {1: 2}
    assert!(matches!(
        canonicalize(&[0xA1, 0x01, 0x02]),
        Err(CanonicalError::NonStringMapKey)
    ));
    // truncated input
    assert!(matches!(canonicalize(&[0x62, b'a']), Err(CanonicalError::Decode(_))));
}

#[test]
fn canonicalize_keeps_scalars_and_arrays() {
    let input = vec![0x84, 0x01, 0x20, 0xF5, 0xF6];
    assert_eq!(canonicalize(&input).unwrap(), input);
    assert!(ensure_canonical(&input).is_ok());
}

#[test]
fn ensure_canonical_rejects_trailing_bytes() {
    assert!(matches!(
        ensure_canonical(&[0x01, 0x02]),
        Err(CanonicalError::NotCanonical)
    ));
}

#[test]
fn base32_encodes_known_values() {
    assert_eq!(encode_base32_crockford(&[]), "");
    assert_eq!(encode_base32_crockford(&[0x00]), "00");
    assert_eq!(encode_base32_crockford(&[0xFF]), "ZW");
    assert_eq!(encode_base32_crockford(&[0x12, 0x34]), "28T0");
}

#[test]
fn base32_roundtrips_and_reads_aliases() {
    let payload: Vec<u8> = (0u8..=40).collect();
    let encoded = encode_base32_crockford(&payload);
    assert_eq!(decode_base32_crockford(&encoded).unwrap(), payload);
    // 'O' reads as 0, 'I' and 'L' read as 1.
    assert_eq!(
        decode_base32_crockford("0O").unwrap(),
        decode_base32_crockford("00").unwrap()
    );
    assert_eq!(
        decode_base32_crockford("I0").unwrap(),
        decode_base32_crockford("10").unwrap()
    );
    assert_eq!(
        decode_base32_crockford("L0").unwrap(),
        decode_base32_crockford("10").unwrap()
    );
}

#[test]
fn base32_decode_errors() {
    assert_eq!(
        decode_base32_crockford("AB-C").unwrap_err(),
        Base32Error::InvalidCharacter('-')
    );
    assert_eq!(
        decode_base32_crockford("AU").unwrap_err(),
        Base32Error::InvalidCharacter('U')
    );
    assert_eq!(decode_base32_crockford("01").unwrap_err(), Base32Error::IncompleteByte);
}

#[test]
fn blake3_prefix_is_first_sixteen_bytes() {
    let full = blake3::hash(b"abc");
    assert_eq!(blake3_128(b"abc").to_vec(), full.as_bytes()[..16].to_vec());
    assert_ne!(blake3_128(b"abc"), blake3_128(b"abd"));
}

#[test]
fn text_to_canonical_cbor_encodes_text() {
    assert_eq!(text_to_canonical_cbor("hi").unwrap(), vec![0x62, b'h', b'i']);
}

#[test]
fn cbor_bytes_wraps_and_canonicalizes() {
    let bytes = CborBytes::new(vec![0xA2, 0x61, b'b', 0x01, 0x61, b'a', 0x02]);
    assert!(bytes.ensure_canonical().is_err());
    let canonical = bytes.clone().canonicalize().unwrap();
    assert_eq!(
        canonical.as_slice(),
        &[0xA2, 0x61, b'a', 0x02, 0x61, b'b', 0x01][..]
    );
    assert!(canonical.ensure_canonical().is_ok());
    assert_eq!(bytes.into_vec().len(), 7);
}

#[test]
fn deeply_nested_bignum_is_refused_as_tag() {
    let mut bytes = vec![0x81u8; 256];
    bytes.push(0xC2);
    bytes.push(0x50);
    bytes.extend(std::iter::repeat(0xFFu8).take(16));
    assert_eq!(canonicalize(&bytes), Err(CanonicalError::TagNotAllowed));
}
