use std::io::Error;

use greentic_types::{
    make_idempotency_key, EnvId, ErrorDetail, InvocationDeadline, NodeError, TeamId, TenantCtx,
    TenantId, TenantIdentity, UserId,
};

fn sample_ctx() -> TenantCtx {
    let mut ctx = TenantCtx::new(EnvId::from("prod"), TenantId::from("tenant-123"))
        .with_team(Some(TeamId::from("team-456")))
        .with_user(Some(UserId::from("user-789")))
        .with_attempt(2)
        .with_deadline(Some(InvocationDeadline::from_unix_millis(
            1_700_000_000_000,
        )));
    ctx.trace_id = Some("trace-abc".to_owned());
    ctx.correlation_id = Some("corr-xyz".to_owned());
    ctx.idempotency_key = Some("key-123".to_owned());
    ctx
}

#[test]
fn idempotent_key_stable() {
    let ctx = sample_ctx();
    let key_a = make_idempotency_key(&ctx, "flow-1", Some("node-1"), Some("corr-override"));
    let key_b = make_idempotency_key(&ctx, "flow-1", Some("node-1"), Some("corr-override"));
    assert_eq!(key_a, key_b);
    assert_eq!(key_a.len(), 32);
}

#[test]
fn idempotent_key_uses_context_correlation() {
    let ctx = sample_ctx();
    let key = make_idempotency_key(&ctx, "flow-1", None, None);
    let expected = make_idempotency_key(&ctx, "flow-1", None, ctx.correlation_id.as_deref());
    assert_eq!(key, expected);
}

#[test]
fn idempotent_key_is_fnv1a_128_of_joined_fields() {
    let ctx = sample_ctx();
    assert_eq!(
        make_idempotency_key(&ctx, "flow-1", Some("node-1"), Some("corr-override")),
        "77fd268920da999a80ca625788e2f8c9"
    );
    assert_eq!(
        make_idempotency_key(&ctx, "flow-1", None, None),
        "bd583447c215443525ab554c6cd4c81e"
    );
}

#[test]
fn node_error_builder_sets_fields() {
    let err = NodeError::new("TEST", "example")
        .with_retry(Some(500))
        .with_detail_text("context");

    assert!(err.retryable);
    assert_eq!(err.backoff_ms, Some(500));
    match err.detail() {
        Some(ErrorDetail::Text(detail)) => assert_eq!(detail, "context"),
        other => panic!("unexpected detail {:?}", other),
    }
}

#[test]
fn node_error_source_roundtrips() {
    let source = Error::other("boom");
    let err = NodeError::new("TEST", "example").with_source(source);
    assert!(err.source().is_some());
}

#[test]
fn node_error_defaults_and_binary_detail() {
    let err = NodeError::new("E1", "failed");
    assert!(!err.retryable);
    assert_eq!(err.backoff_ms, None);
    assert!(err.detail().is_none());
    assert!(err.source().is_none());
    assert_eq!(err.to_message(), "E1: failed");
    let err = err.with_detail_binary(vec![1, 2, 3]);
    assert_eq!(err.detail(), Some(&ErrorDetail::Binary(vec![1, 2, 3])));
}

#[test]
fn tenant_ctx_new_aligns_tenant_fields() {
    let ctx = TenantCtx::new(EnvId::from("dev"), TenantId::from("t1"));
    assert_eq!(ctx.tenant, TenantId::from("t1"));
    assert_eq!(ctx.tenant_id, TenantId::from("t1"));
    assert_eq!(ctx.attempt, 0);
    assert!(ctx.session_id().is_none());
    let ctx = ctx
        .with_session("s1")
        .with_flow("f1")
        .with_node("n1")
        .with_provider("p1");
    assert_eq!(ctx.session_id(), Some("s1"));
    assert_eq!(ctx.flow_id(), Some("f1"));
    assert_eq!(ctx.node_id(), Some("n1"));
    assert_eq!(ctx.provider_id(), Some("p1"));
}

#[test]
fn tenant_identity_prefers_shared_fields() {
    let mut ctx = sample_ctx();
    ctx.team_id = None;
    let identity = ctx.identity();
    assert_eq!(identity.tenant_id, TenantId::from("tenant-123"));
    assert_eq!(identity.team_id, Some(TeamId::from("team-456")));
    assert_eq!(identity.user_id, Some(UserId::from("user-789")));

    let other = TenantIdentity::new(TenantId::from("tenant-9"));
    let updated = sample_ctx().with_identity(other.clone());
    assert_eq!(updated.tenant, TenantId::from("tenant-9"));
    assert_eq!(updated.team, None);
    assert_eq!(updated.identity(), other);
}

#[test]
fn deadline_keeps_millis() {
    let d = InvocationDeadline::from_unix_millis(-5);
    assert_eq!(d.unix_millis(), -5);
}

#[test]
fn deadline_roundtrips_through_offset_datetime() {
    let dt = time::OffsetDateTime::from_unix_timestamp(1_700_000_000)
        .unwrap_or_else(|err| panic!("valid timestamp: {err}"));
    let deadline = greentic_types::InvocationDeadline::from_offset_date_time(dt);
    let roundtrip = deadline
        .to_offset_date_time()
        .unwrap_or_else(|err| panic!("round-trip conversion failed: {err}"));
    let millis = dt.unix_timestamp_nanos() / 1_000_000;
    assert_eq!(deadline.unix_millis(), millis);
    assert_eq!(roundtrip.unix_timestamp_nanos() / 1_000_000, millis);
}

#[test]
fn deadline_truncates_toward_zero_and_reports_range() {
    let before_epoch = time::OffsetDateTime::from_unix_timestamp_nanos(-1_500_000).unwrap();
    let deadline = greentic_types::InvocationDeadline::from_offset_date_time(before_epoch);
    assert_eq!(deadline.unix_millis(), -1);
    let far = greentic_types::InvocationDeadline::from_unix_millis(i128::from(i64::MAX));
    assert!(far.to_offset_date_time().is_err());
}
