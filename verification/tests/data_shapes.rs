use std::collections::BTreeMap;

use greentic_types::events_provider::{
    EventProviderDescriptor, EventProviderKind, OrderingKind, ReliabilityKind, TransportKind,
};
use greentic_types::i18n_text::I18nText;
use greentic_types::messaging::rendering::AdaptiveCardVersion;
use greentic_types::op_descriptor::IoSchema;
use greentic_types::run::duration_from_millis;
use greentic_types::schemas::pack::v0_6_0::{ChoiceOption, PackQaSpec, QaMode, Question, QuestionKind};
use greentic_types::secrets::SecretKey;
use greentic_types::tenant_config::{DidContext, TenantDidDocument};
use greentic_types::{CborBytes, SchemaSource, SessionKey, SpanContext, TenantId};

fn text(key: &str) -> I18nText {
    I18nText { key: key.to_owned() }
}

#[test]
fn qa_spec_collects_sorted_unique_keys() {
    let spec = PackQaSpec {
        mode: QaMode::Setup,
        title: text("title"),
        description: Some(text("desc")),
        questions: vec![
            Question {
                id: "q1".to_owned(),
                label: text("q.label"),
                help: Some(text("q.help")),
                error: None,
                kind: QuestionKind::Choice {
                    options: vec![
                        ChoiceOption { value: "a".to_owned(), label: text("opt.a") },
                        ChoiceOption { value: "b".to_owned(), label: text("title") },
                    ],
                },
                required: true,
                default: None,
            },
            Question {
                id: "q2".to_owned(),
                label: text("desc"),
                help: None,
                error: Some(text("err")),
                kind: QuestionKind::Text,
                required: false,
                default: None,
            },
        ],
        defaults: BTreeMap::new(),
    };
    assert_eq!(
        spec.i18n_keys(),
        vec!["desc", "err", "opt.a", "q.help", "q.label", "title"]
    );
}

#[test]
fn did_context_is_listed() {
    let mut doc = TenantDidDocument {
        raw_context: Some(DidContext::Single("https://w3id.org/did/v1".to_owned())),
        id: "did:web:x".to_owned(),
        verification_method: None,
        authentication: None,
        service: vec![],
    };
    assert_eq!(doc.context(), vec!["https://w3id.org/did/v1".to_owned()]);
    doc.raw_context = Some(DidContext::Multiple(vec!["a".to_owned(), "b".to_owned()]));
    assert_eq!(doc.context(), vec!["a".to_owned(), "b".to_owned()]);
    doc.raw_context = None;
    assert!(doc.context().is_empty());
}

#[test]
fn defaults_and_builders() {
    let io = IoSchema::new(SchemaSource::InlineCbor(CborBytes::new(vec![0x01])));
    assert_eq!(io.content_type, "application/cbor");
    let d = EventProviderDescriptor::default();
    assert_eq!(d.name, "provider");
    assert_eq!(d.kind, EventProviderKind::Broker);
    assert_eq!(d.transport, TransportKind::Other("unspecified".to_owned()));
    assert_eq!(d.reliability, ReliabilityKind::AtMostOnce);
    assert_eq!(d.ordering, OrderingKind::Unordered);
    assert_eq!(AdaptiveCardVersion::from("1.4").as_str(), "1.4");
    assert_eq!(SecretKey::from("db-pass".to_owned()).as_str(), "db-pass");
}

#[test]
fn run_duration_clamps_negative() {
    assert_eq!(duration_from_millis(-3), 0);
    assert_eq!(duration_from_millis(1500), 1500);
}

#[test]
fn span_context_builders() {
    let span = SpanContext::new(TenantId::from("t"), "flow", "runner")
        .with_session(SessionKey::new("s"))
        .with_node("n");
    assert_eq!(span.flow_id, "flow");
    assert_eq!(span.provider, "runner");
    assert_eq!(span.node_id.as_deref(), Some("n"));
    assert_eq!(span.session_id, Some(SessionKey::new("s")));
    assert!(span.start.is_none());
}

fn run_between(start_ms: i64, end_ms: i64) -> greentic_types::run::RunResult {
    let at = |ms: i64| {
        time::OffsetDateTime::from_unix_timestamp_nanos(i128::from(ms) * 1_000_000).unwrap()
    };
    greentic_types::run::RunResult {
        session_id: SessionKey("s-1".to_owned()),
        pack_id: greentic_types::PackId("pack".to_owned()),
        pack_version: semver::Version::new(1, 2, 3),
        flow_id: greentic_types::FlowId("flow".to_owned()),
        started_at_utc: at(start_ms),
        finished_at_utc: at(end_ms),
        status: greentic_types::run::RunStatus::Success,
        node_summaries: Vec::new(),
        failures: Vec::new(),
        artifacts_dir: None,
    }
}

#[test]
fn run_duration_counts_whole_milliseconds() {
    assert_eq!(run_between(1_000, 3_500).duration_ms(), 2_500);
    assert_eq!(run_between(0, 0).duration_ms(), 0);
}

#[test]
fn run_duration_is_zero_when_finish_precedes_start() {
    assert_eq!(run_between(5_000, 1_000).duration_ms(), 0);
}
