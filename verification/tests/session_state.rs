use greentic_types::{canonical_session_key, SessionCursor, SessionKey, StateKey, StatePath};

#[test]
fn canonical_session_key_includes_components() {
    let key = canonical_session_key("tenant", "webhook", Some("room-1"), Some("user-5"));
    assert_eq!(key.as_str(), "tenant:webhook:room-1:user-5");
}

#[test]
fn canonical_session_key_defaults_anchor_and_user() {
    let key = canonical_session_key("tenant", "webhook", None, None);
    assert_eq!(key.as_str(), "tenant:webhook:conversation:user");
}

#[test]
fn generated_session_keys_look_like_uuids() {
    let a = SessionKey::generate();
    let b = SessionKey::generate();
    assert_eq!(a.as_str().len(), 36);
    assert_ne!(a, b);
    assert_eq!(SessionKey::new("k").as_str(), "k");
}

#[test]
fn generated_session_keys_have_v4_shape() {
    for _ in 0..32 {
        let key = SessionKey::generate();
        let chars: Vec<char> = key.as_str().chars().collect();
        assert_eq!(chars.len(), 36);
        for (i, c) in chars.iter().enumerate() {
            if i == 8 || i == 13 || i == 18 || i == 23 {
                assert_eq!(*c, '-');
            } else {
                assert!(c.is_ascii_digit() || ('a'..='f').contains(c));
            }
        }
        assert_eq!(chars[14], '4');
        assert!(matches!(chars[19], '8' | '9' | 'a' | 'b'));
    }
}

#[test]
fn session_cursor_builders() {
    let cursor = SessionCursor::new("node-1")
        .with_wait_reason("waiting")
        .with_outbox_marker("m1");
    assert_eq!(cursor.node_pointer, "node-1");
    assert_eq!(cursor.wait_reason.as_deref(), Some("waiting"));
    assert_eq!(cursor.outbox_marker.as_deref(), Some("m1"));
}

#[test]
fn state_pointer_roundtrip() {
    let mut path = StatePath::root();
    assert_eq!(path.to_pointer(), "/");
    path.push("a/b");
    path.push("c~d");
    path.push("");
    assert_eq!(path.to_pointer(), "/a~1b/c~0d/");
    let back = StatePath::from_pointer(&path.to_pointer());
    assert_eq!(back, path);
}

#[test]
fn state_pointer_parsing() {
    assert_eq!(StatePath::from_pointer("").segments.len(), 0);
    assert_eq!(StatePath::from_pointer("/").segments.len(), 0);
    assert_eq!(
        StatePath::from_pointer("//x/~01").segments,
        vec!["x".to_owned(), "~1".to_owned()]
    );
    assert_eq!(
        StatePath::from_pointer("a/b").segments,
        vec!["a".to_owned(), "b".to_owned()]
    );
    assert_eq!(StateKey::new("k1").as_str(), "k1");
}
