use greentic_types::pack::extensions::component_manifests::{
    ComponentManifestIndexError, ComponentManifestIndexV1,
};
use greentic_types::pack::extensions::component_sources::{
    ComponentSourcesError, ComponentSourcesV1,
};
use greentic_types::policy::{decision_key, PolicyDecisionFields, PolicyDecisionKey};
use greentic_types::qa::{validate_answers, CanonicalPolicy, ValidateAnswersError};
use greentic_types::store::{Theme, VersionStrategy, VersionStrategyWire};
use greentic_types::{
    AllowList, CborBytes, ErrorCode, GreenticError, NetworkPolicy, Outcome, PolicyDecision,
    PolicyDecisionStatus, SchemaSource, SemverReq,
};

fn map_key_value_cbor() -> Vec<u8> {
    let mut map = std::collections::BTreeMap::new();
    map.insert("key", "value");
    let mut interim = Vec::new();
    ciborium::ser::into_writer(&map, &mut interim).unwrap();
    greentic_types::cbor::canonical::canonicalize(&interim).unwrap()
}

#[test]
fn validate_accepts_map_off_policy() {
    let bytes = CborBytes(map_key_value_cbor());
    let source = SchemaSource::InlineCbor(bytes.clone());
    let result = match validate_answers(&source, &bytes, CanonicalPolicy::Off) {
        Ok(value) => value,
        Err(err) => panic!("validation failed: {err:?}"),
    };
    assert_eq!(result.as_slice(), bytes.as_slice());
}

#[test]
fn validate_rejects_non_map() {
    let mut interim = Vec::new();
    ciborium::ser::into_writer(&"string", &mut interim).unwrap();
    let bytes = greentic_types::cbor::canonical::canonicalize(&interim).unwrap();
    let source = SchemaSource::InlineCbor(CborBytes(bytes.clone()));
    assert!(matches!(
        validate_answers(&source, &CborBytes(bytes), CanonicalPolicy::Off),
        Err(ValidateAnswersError::NotMap)
    ));
}

#[test]
fn canonicalize_policy_rewrites_indefinite_map() {
    let indefinite = vec![0xBF, 0x61, b'a', 0x01, 0xFF];
    let source = SchemaSource::InlineCbor(CborBytes::new(indefinite.clone()));
    let canonical_bytes = match validate_answers(
        &source,
        &CborBytes(indefinite),
        CanonicalPolicy::Canonicalize,
    ) {
        Ok(bytes) => bytes,
        Err(err) => panic!("validation failed: {err:?}"),
    };
    if let Err(err) = greentic_types::cbor::canonical::ensure_canonical(canonical_bytes.as_slice()) {
        panic!("ensure canonical failed: {err:?}");
    }
}

#[test]
fn require_canonical_rejects_indefinite() {
    let indefinite = vec![0xBF, 0x61, b'a', 0x01, 0xFF];
    let source = SchemaSource::InlineCbor(CborBytes::new(indefinite.clone()));
    assert!(matches!(
        validate_answers(
            &source,
            &CborBytes(indefinite),
            CanonicalPolicy::RequireCanonical
        ),
        Err(ValidateAnswersError::Canonical(_))
    ));
}

#[test]
fn validate_answers_reports_decode_errors() {
    let bytes = CborBytes(vec![0xA1]);
    let source = SchemaSource::RefUri("x".to_owned());
    assert!(matches!(
        validate_answers(&source, &bytes, CanonicalPolicy::Off),
        Err(ValidateAnswersError::Decode(_))
    ));
}

#[test]
fn policy_decision_fields_fall_back_to_legacy() {
    let mut fields = PolicyDecisionFields::new();
    assert!(fields.check_key(PolicyDecisionKey::Allow).is_ok());
    fields.allow = Some(Some(false));
    assert!(fields.check_key(PolicyDecisionKey::Allow).is_err());
    assert_eq!(fields.check_key(PolicyDecisionKey::Unknown), Ok(()));
    fields.reason = Some(Some("blocked".to_owned()));
    let decision = fields.finish();
    assert_eq!(decision.status, PolicyDecisionStatus::Deny);
    assert_eq!(decision.reasons, vec!["blocked".to_owned()]);
    assert_eq!(decision.allow, Some(false));
    assert_eq!(decision.reason.as_deref(), Some("blocked"));

    let empty = PolicyDecisionFields::new().finish();
    assert_eq!(empty.status, PolicyDecisionStatus::Allow);
    assert!(empty.reasons.is_empty());
}

#[test]
fn policy_decision_roundtrips_through_its_fields() {
    let d = PolicyDecision {
        status: PolicyDecisionStatus::Deny,
        reasons: vec!["a".to_owned(), "b".to_owned()],
        allow: Some(true),
        reason: None,
    };
    assert_eq!(d.serialized_field_count(), 3);
    let fields = PolicyDecisionFields {
        allow: Some(d.allow),
        reason: None,
        status: Some(d.status),
        reasons: Some(d.reasons.clone()),
    };
    assert_eq!(fields.finish(), d);
    assert_eq!(decision_key("reasons"), PolicyDecisionKey::Reasons);
    assert_eq!(decision_key("other"), PolicyDecisionKey::Unknown);
}

#[test]
fn allow_list_and_policy() {
    let list = AllowList::empty();
    assert!(list.is_empty());
    let policy = NetworkPolicy::strict(list.clone());
    assert!(policy.deny_on_miss);
    let mut other = AllowList::default();
    other.ports.push(443);
    assert!(!other.is_empty());
    assert!(!NetworkPolicy::default().deny_on_miss);
}

#[test]
fn version_strategy_wire_roundtrip() {
    let all = vec![
        VersionStrategy::Latest,
        VersionStrategy::Pinned { requirement: SemverReq("^1.2".to_owned()) },
        VersionStrategy::Lts,
        VersionStrategy::Custom("x".to_owned()),
        VersionStrategy::Fixed { version: "1.2.3".to_owned() },
        VersionStrategy::Range { range: ">=1".to_owned() },
        VersionStrategy::Channel { channel: "beta".to_owned() },
        VersionStrategy::CustomTagged { value: "v".to_owned() },
    ];
    for v in all {
        assert_eq!(VersionStrategy::from_wire(v.clone().to_wire()), v);
    }
    assert!(matches!(
        VersionStrategy::Fixed { version: "1".to_owned() }.to_wire(),
        VersionStrategyWire::Tagged(_)
    ));
    assert!(matches!(VersionStrategy::Lts.to_wire(), VersionStrategyWire::Legacy(_)));
}

#[test]
fn theme_defaults() {
    let theme = Theme::default();
    assert_eq!(theme.primary_color, "#0f766e");
    assert_eq!(theme.font_family, "Inter, sans-serif");
    assert!(theme.logo_url.is_none());
}

#[test]
fn outcome_helpers() {
    let done: Outcome<u32> = Outcome::Done(2);
    assert!(done.is_done() && !done.is_pending() && !done.is_error());
    assert_eq!(done.map(|x| x * 10), Outcome::Done(20));
    let pending: Outcome<u32> = Outcome::Pending { reason: "wait".to_owned(), expected_input: None };
    assert!(pending.is_pending());
    assert_eq!(
        pending.map(|x| x + 1),
        Outcome::Pending { reason: "wait".to_owned(), expected_input: None }
    );
    let err: Outcome<u32> = Outcome::Error { code: ErrorCode::Timeout, message: "slow".to_owned() };
    assert!(err.is_error());
}

#[test]
fn greentic_error_builders() {
    let e = GreenticError::new(ErrorCode::NotFound, "missing");
    assert_eq!(e.code, ErrorCode::NotFound);
    assert_eq!(e.message, "missing");
    assert!(e.source.is_none());
    let e = e.with_source(std::io::Error::other("io"));
    assert!(e.source.is_some());
}

#[test]
fn extension_schema_versions() {
    let mut idx = ComponentManifestIndexV1::new(vec![]);
    assert_eq!(idx.schema_version, 1);
    assert!(idx.validate_schema_version().is_ok());
    idx.schema_version = 2;
    assert_eq!(
        idx.validate_schema_version(),
        Err(ComponentManifestIndexError::UnsupportedSchemaVersion(2))
    );
    let mut src = ComponentSourcesV1::new(vec![]);
    assert!(src.validate_schema_version().is_ok());
    src.schema_version = 0;
    assert_eq!(
        src.validate_schema_version(),
        Err(ComponentSourcesError::UnsupportedSchemaVersion(0))
    );
}

#[test]
fn plan_limits_default_is_empty() {
    let limits = greentic_types::store::PlanLimits::default();
    assert_eq!(limits.max_environments, None);
    assert_eq!(limits.max_subscriptions, None);
    assert_eq!(limits.monthly_units_included, None);
    assert!(limits.metadata.is_empty());
}

#[test]
fn environment_new_starts_without_labels() {
    let tenant = greentic_types::TenantCtx::new(
        greentic_types::EnvId("dev".to_owned()),
        greentic_types::TenantId("acme".to_owned()),
    );
    let env = greentic_types::store::Environment::new(
        greentic_types::EnvironmentRef("env-1".to_owned()),
        tenant.clone(),
        greentic_types::DistributorRef("dist".to_owned()),
        greentic_types::store::ConnectionKind::Online,
        "Staging",
    );
    assert_eq!(env.name, "Staging");
    assert_eq!(env.id.as_str(), "env-1");
    assert_eq!(env.tenant, tenant);
    assert!(env.labels.is_empty());
    assert!(env.metadata.is_empty());
}
