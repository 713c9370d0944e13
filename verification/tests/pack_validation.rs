use std::hash::BuildHasherDefault;

use greentic_types::validate::Diagnostic;
use greentic_types::{
    validate_pack_manifest_core, ComponentConfigurators, ComponentId, ComponentManifest, Flow,
    FlowId, FlowKind, FlowNodes, FlowValidationError, Node, NodeId, PackDependency, PackFlowEntry,
    PackId, PackKind, PackManifest, PackSignatures, SemverReq, Severity, ValidationReport,
};

fn node(component: Option<&str>, alias: Option<&str>) -> Node {
    Node {
        kind: "tool".to_owned(),
        profile: None,
        component: component.map(ComponentId::from),
        pack_alias: alias.map(str::to_owned),
        config: serde_json::Value::Null,
        routing: serde_json::Value::Null,
    }
}

fn flow(id: &str, kind: FlowKind, nodes: Vec<(&str, Node)>) -> Flow {
    let mut map: FlowNodes = FlowNodes::with_hasher(BuildHasherDefault::default());
    for (name, n) in nodes {
        map.insert(NodeId::from(name), n);
    }
    Flow {
        kind,
        id: FlowId::from(id),
        schema_version: "1".to_owned(),
        description: None,
        nodes: map,
    }
}

fn component(id: &str, basic: Option<&str>) -> ComponentManifest {
    ComponentManifest {
        id: ComponentId::from(id),
        supports: vec![FlowKind::Messaging],
        configurators: basic.map(|b| ComponentConfigurators {
            basic: Some(FlowId::from(b)),
            full: None,
        }),
    }
}

fn manifest() -> PackManifest {
    PackManifest {
        schema_version: "1".to_owned(),
        pack_id: PackId::from("demo"),
        version: semver::Version::new(0, 1, 0),
        kind: PackKind::Application,
        publisher: "acme".to_owned(),
        components: vec![component("c1", Some("main"))],
        flows: vec![PackFlowEntry {
            id: FlowId::from("main"),
            kind: FlowKind::Messaging,
            flow: flow("main", FlowKind::Messaging, vec![("start", node(Some("c1"), None))]),
            tags: vec![],
            entrypoints: vec![],
        }],
        dependencies: vec![PackDependency {
            alias: "dep".to_owned(),
            pack_id: PackId::from("other"),
            version_req: SemverReq("^1".to_owned()),
            required_capabilities: vec![],
        }],
        capabilities: vec![],
        signatures: PackSignatures { signatures: vec![] },
        bootstrap: None,
        extensions: None,
    }
}

fn codes(diags: &[Diagnostic]) -> Vec<(String, Option<String>)> {
    diags.iter().map(|d| (d.code.clone(), d.path.clone())).collect()
}

#[test]
fn valid_manifest_has_no_diagnostics() {
    assert!(validate_pack_manifest_core(&manifest()).is_empty());
}

#[test]
fn blank_header_fields_are_reported() {
    let mut m = manifest();
    m.schema_version = "  ".to_owned();
    m.pack_id = PackId::from("\t");
    let diags = validate_pack_manifest_core(&m);
    assert_eq!(
        codes(&diags),
        vec![
            ("PACK_SCHEMA_VERSION_MISSING".to_owned(), Some("schema_version".to_owned())),
            ("PACK_ID_MISSING".to_owned(), Some("pack_id".to_owned())),
        ]
    );
    assert!(diags.iter().all(|d| d.severity == Severity::Error));
    assert_eq!(diags[0].message, "Pack manifest schema_version is required.");
    assert_eq!(
        diags[1].hint.as_deref(),
        Some("Provide a non-empty pack identifier.")
    );
}

#[test]
fn duplicates_and_mismatches_are_reported_in_order() {
    let mut m = manifest();
    m.components.push(component("c1", None));
    m.dependencies.push(m.dependencies[0].clone());
    m.dependencies.push(PackDependency {
        alias: " ".to_owned(),
        pack_id: PackId::from("x"),
        version_req: SemverReq("*".to_owned()),
        required_capabilities: vec![],
    });
    let mut second = m.flows[0].clone();
    second.kind = FlowKind::Events;
    second.flow.id = FlowId::from("other");
    second.flow.schema_version = String::new();
    m.flows.push(second);
    let diags = validate_pack_manifest_core(&m);
    assert_eq!(
        codes(&diags),
        vec![
            ("PACK_COMPONENT_ID_DUPLICATE".to_owned(), Some("components.c1".to_owned())),
            ("PACK_DEPENDENCY_ALIAS_DUPLICATE".to_owned(), Some("dependencies.dep".to_owned())),
            ("PACK_DEPENDENCY_ALIAS_MISSING".to_owned(), Some("dependencies".to_owned())),
            ("PACK_FLOW_ID_DUPLICATE".to_owned(), Some("flows.main".to_owned())),
            ("PACK_FLOW_ID_MISMATCH".to_owned(), Some("flows.main.id".to_owned())),
            ("PACK_FLOW_KIND_MISMATCH".to_owned(), Some("flows.main.kind".to_owned())),
            (
                "PACK_FLOW_SCHEMA_VERSION_MISSING".to_owned(),
                Some("flows.main.flow.schema_version".to_owned())
            ),
        ]
    );
}

#[test]
fn missing_references_are_reported() {
    let mut m = manifest();
    m.components[0].configurators = Some(ComponentConfigurators {
        basic: Some(FlowId::from("setup")),
        full: Some(FlowId::from("main")),
    });
    m.flows[0].flow = flow(
        "main",
        FlowKind::Messaging,
        vec![
            ("a", node(Some("c1"), Some("nope"))),
            ("b", node(Some("c9"), None)),
            ("c", node(Some("c9"), Some("dep"))),
            ("d", node(None, None)),
        ],
    );
    let diags = validate_pack_manifest_core(&m);
    assert_eq!(
        codes(&diags),
        vec![
            (
                "PACK_COMPONENT_CONFIG_FLOW_MISSING".to_owned(),
                Some("components.c1.configurators.basic".to_owned())
            ),
            (
                "PACK_FLOW_DEPENDENCY_ALIAS_MISSING".to_owned(),
                Some("flows.main.nodes.a.component.pack_alias".to_owned())
            ),
            (
                "PACK_FLOW_COMPONENT_MISSING".to_owned(),
                Some("flows.main.nodes.b.component.id".to_owned())
            ),
        ]
    );
}

#[test]
fn flow_component_validation() {
    let c1 = component("c1", None);
    let f = flow("main", FlowKind::Messaging, vec![("start", node(Some("c1"), None))]);
    assert!(f.validate_structure().is_ok());
    assert!(!f.is_empty());
    assert_eq!(f.ingress().map(|(id, _)| id.as_str()), Some("start"));
    let lookup = |id: &ComponentId| if id.as_str() == "c1" { Some(&c1) } else { None };
    assert_eq!(f.validate_components(lookup), Ok(()));

    let events = flow("ev", FlowKind::Events, vec![("start", node(Some("c1"), None))]);
    let err = events.validate_components(lookup).unwrap_err();
    assert_eq!(
        err,
        FlowValidationError::UnsupportedComponent {
            node_id: NodeId::from("start"),
            component: ComponentId::from("c1"),
            flow_kind: FlowKind::Events,
        }
    );
    assert_eq!(
        err.to_message(),
        "component `c1` used by node `start` does not support `Events` flows"
    );

    let missing = flow("m", FlowKind::Messaging, vec![("n", node(Some("c2"), None))]);
    let err = missing.validate_components(lookup).unwrap_err();
    assert_eq!(err.to_message(), "node `n` references missing component `c2`");

    let empty = flow("e", FlowKind::Messaging, vec![]);
    assert_eq!(empty.validate_structure(), Err(FlowValidationError::EmptyFlow));
    assert_eq!(empty.validate_components(lookup), Err(FlowValidationError::EmptyFlow));
    assert!(empty.ingress().is_none());
}

#[test]
fn report_detects_errors() {
    let mut report = ValidationReport {
        pack_id: None,
        pack_version: None,
        diagnostics: vec![],
    };
    assert!(!report.has_errors());
    let mut m = manifest();
    m.schema_version.clear();
    for d in validate_pack_manifest_core(&m) {
        report.push(d);
    }
    assert!(report.has_errors());
}

#[test]
fn duplicate_counts_match_repeats() {
    let mut m = manifest();
    m.components.push(component("c1", None));
    m.components.push(component("c1", None));
    m.components.push(component("c2", None));
    m.dependencies.push(m.dependencies[0].clone());
    let extra = m.flows[0].clone();
    m.flows.push(extra.clone());
    m.flows.push(extra.clone());
    m.flows.push(extra);
    let diags = validate_pack_manifest_core(&m);
    let count = |code: &str| diags.iter().filter(|d| d.code == code).count();
    assert_eq!(count("PACK_COMPONENT_ID_DUPLICATE"), 4 - 2);
    assert_eq!(count("PACK_DEPENDENCY_ALIAS_DUPLICATE"), 2 - 1);
    assert_eq!(count("PACK_FLOW_ID_DUPLICATE"), 4 - 1);
    assert!(diags.iter().all(|d| d.data.is_null()));
}
