//! Pack validation types and helpers.
use vstd::prelude::*;

use crate::component::ComponentManifest;
use crate::flow::{flow_node_entries, FlowKind, FlowNodes};
use crate::foreign::{json_is_null, json_null};
use crate::ids::{ComponentId, FlowId, NodeId, PackId};
use crate::pack_manifest::{PackDependency, PackFlowEntry, PackManifest};
use crate::text::{concat2, concat3, concat5, is_blank, opt_text, owned, texts, texts_contain, trims_to_empty};

verus! {

/// Severity level for validation diagnostics.
#[derive(Clone, Copy, Debug, PartialEq, Eq, Structural)]
pub enum Severity {
    /// Informational validation message.
    Info,
    /// Warning-level validation message.
    Warn,
    /// Error-level validation message.
    Error,
}

/// Diagnostic entry produced by pack validators.
#[derive(Clone, Debug, PartialEq)]
pub struct Diagnostic {
    /// Severity of the diagnostic.
    pub severity: Severity,
    /// Stable machine-readable identifier (for example `PACK_MISSING_SCHEMA`).
    pub code: String,
    /// Human-readable description.
    pub message: String,
    /// Optional path inside the pack or manifest (for example `extensions.messaging.setup`).
    pub path: Option<String>,
    /// Optional actionable guidance.
    pub hint: Option<String>,
    /// Optional structured payload for tooling.
    pub data: serde_json::Value,
}

/// What a diagnostic says: its texts, and whether its structured payload is
/// JSON `null`.
pub struct DiagnosticModel {
    /// Severity.
    pub severity: Severity,
    /// Code text.
    pub code: Seq<char>,
    /// Message text.
    pub message: Seq<char>,
    /// Path text, if any.
    pub path: Option<Seq<char>>,
    /// Hint text, if any.
    pub hint: Option<Seq<char>>,
    /// Whether the structured payload is JSON `null` (no payload).
    pub data_is_null: bool,
}

impl View for Diagnostic {
    type V = DiagnosticModel;

    open spec fn view(&self) -> DiagnosticModel {
        DiagnosticModel {
            severity: self.severity,
            code: self.code@,
            message: self.message@,
            path: opt_text(self.path),
            hint: opt_text(self.hint),
            data_is_null: json_is_null(self.data),
        }
    }
}

/// Every diagnostic in the list has a JSON `null` payload.
pub open spec fn all_data_null(d: Seq<Diagnostic>) -> bool {
    forall|i: int| 0 <= i < d.len() ==> json_is_null(#[trigger] d[i].data)
}

/// What a list of diagnostics says.
pub open spec fn diag_models(d: Seq<Diagnostic>) -> Seq<DiagnosticModel> {
    d.map_values(|x: Diagnostic| x@)
}

/// Aggregated validation report for a pack.
#[derive(Clone, Debug, PartialEq)]
pub struct ValidationReport {
    /// Optional pack identifier this report refers to.
    pub pack_id: Option<PackId>,
    /// Optional pack semantic version.
    pub pack_version: Option<semver::Version>,
    /// Collected diagnostics.
    pub diagnostics: Vec<Diagnostic>,
}

impl ValidationReport {
    /// Returns `true` when the report includes error diagnostics.
    pub fn has_errors(&self) -> (r: bool)
        ensures
            r == exists|i: int|
                0 <= i < self.diagnostics@.len() && (#[trigger] self.diagnostics@[i]).severity
                    == Severity::Error,
    {
        let mut i: usize = 0;
        while i < self.diagnostics.len()
            invariant
                i <= self.diagnostics.len(),
                forall|k: int| 0 <= k < i ==> (#[trigger] self.diagnostics@[k]).severity != Severity::Error,
            decreases self.diagnostics.len() - i,
        {
            if self.diagnostics[i].severity == Severity::Error {
                return true;
            }
            i = i + 1;
        }
        false
    }

    /// Appends a diagnostic to the report.
    pub fn push(&mut self, diagnostic: Diagnostic)
        ensures
            final(self).diagnostics@ == old(self).diagnostics@.push(diagnostic),
            final(self).pack_id == old(self).pack_id,
            final(self).pack_version == old(self).pack_version,
    {
        self.diagnostics.push(diagnostic);
    }
}

/// Validator for pack manifests that emits diagnostics.
pub trait PackValidator {
    /// Returns the stable validator identifier.
    fn id(&self) -> &'static str;

    /// Returns `true` when the validator applies to the provided manifest.
    fn applies(&self, manifest: &PackManifest) -> bool;

    /// Validates the manifest and returns diagnostics.
    fn validate(&self, manifest: &PackManifest) -> Vec<Diagnostic>;
}

/// An error diagnostic.
pub open spec fn error_diag(code: Seq<char>, message: Seq<char>, path: Seq<char>, hint: Seq<char>) -> DiagnosticModel {
    DiagnosticModel {
        severity: Severity::Error,
        code,
        message,
        path: Some(path),
        hint: Some(hint),
        data_is_null: true,
    }
}

/// Builds a diagnostic with no structured payload.
fn core_diagnostic(
    severity: Severity,
    code: &str,
    message: &str,
    path: Option<String>,
    hint: Option<String>,
) -> (r: Diagnostic)
    ensures
        r@ == (DiagnosticModel {
            severity,
            code: code@,
            message: message@,
            path: opt_text(path),
            hint: opt_text(hint),
            data_is_null: true,
        }),
{
    Diagnostic {
        severity,
        code: owned(code),
        message: owned(message),
        path,
        hint,
        data: json_null(),
    }
}

/// Builds an error diagnostic with a path and a hint.
fn error_diagnostic(code: &str, message: &str, path: String, hint: &str) -> (r: Diagnostic)
    ensures
        r@ == error_diag(code@, message@, path@, hint@),
{
    core_diagnostic(Severity::Error, code, message, Some(path), Some(owned(hint)))
}

fn push_diag(diags: &mut Vec<Diagnostic>, d: Diagnostic)
    requires
        all_data_null(old(diags)@),
        d@.data_is_null,
    ensures
        all_data_null(final(diags)@),
        diag_models(final(diags)@) == diag_models(old(diags)@).push(d@),
{
    diags.push(d);
    assert(diag_models(diags@) =~= diag_models(old(diags)@).push(d@));
}

// ---------------------------------------------------------------------------
// What the core validation reports.

/// Component identifier texts.
pub open spec fn component_ids(cs: Seq<ComponentManifest>) -> Seq<Seq<char>> {
    cs.map_values(|c: ComponentManifest| c.id.0@)
}

/// Dependency alias texts.
pub open spec fn dependency_aliases(ds: Seq<PackDependency>) -> Seq<Seq<char>> {
    ds.map_values(|d: PackDependency| d.alias@)
}

/// Flow entry identifier texts.
pub open spec fn flow_entry_ids(es: Seq<PackFlowEntry>) -> Seq<Seq<char>> {
    es.map_values(|e: PackFlowEntry| e.id.0@)
}

/// Missing schema version and pack id.
pub open spec fn header_diags(m: PackManifest) -> Seq<DiagnosticModel> {
    (if is_blank(m.schema_version@) {
        seq![
            error_diag(
                "PACK_SCHEMA_VERSION_MISSING"@,
                "Pack manifest schema_version is required."@,
                "schema_version"@,
                "Set schema_version to a supported pack manifest version."@,
            ),
        ]
    } else {
        Seq::empty()
    }) + (if is_blank(m.pack_id.0@) {
        seq![
            error_diag(
                "PACK_ID_MISSING"@,
                "Pack manifest pack_id is required."@,
                "pack_id"@,
                "Provide a non-empty pack identifier."@,
            ),
        ]
    } else {
        Seq::empty()
    })
}

/// One diagnostic per component id already seen earlier in the list.
pub open spec fn component_dup_diags(ids: Seq<Seq<char>>) -> Seq<DiagnosticModel>
    decreases ids.len(),
{
    if ids.len() == 0 {
        Seq::empty()
    } else {
        component_dup_diags(ids.drop_last()) + if ids.drop_last().contains(ids.last()) {
            seq![
                error_diag(
                    "PACK_COMPONENT_ID_DUPLICATE"@,
                    "Duplicate component identifiers are not allowed."@,
                    "components."@ + ids.last(),
                    "Ensure each component id is unique within the pack."@,
                ),
            ]
        } else {
            Seq::empty()
        }
    }
}

/// Diagnostics for one dependency alias, given the aliases before it.
pub open spec fn dependency_alias_diags(prev: Seq<Seq<char>>, alias: Seq<char>) -> Seq<DiagnosticModel> {
    (if is_blank(alias) {
        seq![
            error_diag(
                "PACK_DEPENDENCY_ALIAS_MISSING"@,
                "Pack dependency alias is required."@,
                "dependencies"@,
                "Provide a non-empty alias for each dependency."@,
            ),
        ]
    } else {
        Seq::empty()
    }) + (if prev.contains(alias) {
        seq![
            error_diag(
                "PACK_DEPENDENCY_ALIAS_DUPLICATE"@,
                "Duplicate dependency aliases are not allowed."@,
                "dependencies."@ + alias,
                "Ensure each dependency alias is unique within the pack."@,
            ),
        ]
    } else {
        Seq::empty()
    })
}

/// Blank and duplicate dependency aliases.
pub open spec fn dependency_diags(aliases: Seq<Seq<char>>) -> Seq<DiagnosticModel>
    decreases aliases.len(),
{
    if aliases.len() == 0 {
        Seq::empty()
    } else {
        dependency_diags(aliases.drop_last()) + dependency_alias_diags(
            aliases.drop_last(),
            aliases.last(),
        )
    }
}

/// Diagnostics for one flow entry, given the entry ids before it.
pub open spec fn flow_entry_diags(prev: Seq<Seq<char>>, e: PackFlowEntry) -> Seq<DiagnosticModel> {
    let id = e.id.0@;
    (if prev.contains(id) {
        seq![
            error_diag(
                "PACK_FLOW_ID_DUPLICATE"@,
                "Duplicate flow identifiers are not allowed."@,
                "flows."@ + id,
                "Ensure each flow id is unique within the pack."@,
            ),
        ]
    } else {
        Seq::empty()
    }) + (if id != e.flow.id.0@ {
        seq![
            error_diag(
                "PACK_FLOW_ID_MISMATCH"@,
                "Pack flow entry id must match the embedded flow id."@,
                "flows."@ + id + ".id"@,
                "Align the entry id with the flow.id field."@,
            ),
        ]
    } else {
        Seq::empty()
    }) + (if e.kind != e.flow.kind {
        seq![
            error_diag(
                "PACK_FLOW_KIND_MISMATCH"@,
                "Pack flow entry kind must match the embedded flow kind."@,
                "flows."@ + id + ".kind"@,
                "Align the entry kind with the flow.kind field."@,
            ),
        ]
    } else {
        Seq::empty()
    }) + (if is_blank(e.flow.schema_version@) {
        seq![
            error_diag(
                "PACK_FLOW_SCHEMA_VERSION_MISSING"@,
                "Embedded flow schema_version is required."@,
                "flows."@ + id + ".flow.schema_version"@,
                "Set schema_version to a supported flow version."@,
            ),
        ]
    } else {
        Seq::empty()
    })
}

/// Diagnostics for the flow entries.
pub open spec fn flows_diags(es: Seq<PackFlowEntry>) -> Seq<DiagnosticModel>
    decreases es.len(),
{
    if es.len() == 0 {
        Seq::empty()
    } else {
        flows_diags(es.drop_last()) + flow_entry_diags(flow_entry_ids(es.drop_last()), es.last())
    }
}

/// A configurator flow that the manifest lacks.
pub open spec fn configurator_diag(component: Seq<char>, slot: Seq<char>) -> DiagnosticModel {
    error_diag(
        "PACK_COMPONENT_CONFIG_FLOW_MISSING"@,
        "Component configurator flow is not present in the pack manifest."@,
        "components."@ + component + ".configurators."@ + slot,
        "Add the referenced flow to the pack manifest flows."@,
    )
}

/// Diagnostics for one component's configurator flows.
pub open spec fn component_configurator_diags(c: ComponentManifest, flow_ids: Seq<Seq<char>>) -> Seq<
    DiagnosticModel,
> {
    match c.configurators {
        Some(cf) => (match cf.basic {
            Some(f) => if !flow_ids.contains(f.0@) {
                seq![configurator_diag(c.id.0@, "basic"@)]
            } else {
                Seq::empty()
            },
            None => Seq::empty(),
        }) + (match cf.full {
            Some(f) => if !flow_ids.contains(f.0@) {
                seq![configurator_diag(c.id.0@, "full"@)]
            } else {
                Seq::empty()
            },
            None => Seq::empty(),
        }),
        None => Seq::empty(),
    }
}

/// Configurator flows missing from the manifest.
pub open spec fn configurators_diags(cs: Seq<ComponentManifest>, flow_ids: Seq<Seq<char>>) -> Seq<
    DiagnosticModel,
>
    decreases cs.len(),
{
    if cs.len() == 0 {
        Seq::empty()
    } else {
        configurators_diags(cs.drop_last(), flow_ids) + component_configurator_diags(
            cs.last(),
            flow_ids,
        )
    }
}

/// Diagnostics for one node of flow `flow`.
pub open spec fn node_diags(
    flow: Seq<char>,
    n: (NodeId, Option<ComponentId>, Option<String>),
    aliases: Seq<Seq<char>>,
    cids: Seq<Seq<char>>,
) -> Seq<DiagnosticModel> {
    match n.2 {
        Some(a) => if !aliases.contains(a@) {
            seq![
                error_diag(
                    "PACK_FLOW_DEPENDENCY_ALIAS_MISSING"@,
                    "Flow node references an unknown dependency alias."@,
                    "flows."@ + flow + ".nodes."@ + n.0.0@ + ".component.pack_alias"@,
                    "Add the dependency alias to the pack manifest."@,
                ),
            ]
        } else {
            Seq::empty()
        },
        None => match n.1 {
            Some(c) => if !cids.contains(c.0@) {
                seq![
                    error_diag(
                        "PACK_FLOW_COMPONENT_MISSING"@,
                        "Flow node references a component not declared in the pack manifest."@,
                        "flows."@ + flow + ".nodes."@ + n.0.0@ + ".component.id"@,
                        "Declare the component in the pack manifest."@,
                    ),
                ]
            } else {
                Seq::empty()
            },
            None => Seq::empty(),
        },
    }
}

/// Diagnostics for the nodes of flow `flow`.
pub open spec fn nodes_diags(
    flow: Seq<char>,
    ns: Seq<(NodeId, Option<ComponentId>, Option<String>)>,
    aliases: Seq<Seq<char>>,
    cids: Seq<Seq<char>>,
) -> Seq<DiagnosticModel>
    decreases ns.len(),
{
    if ns.len() == 0 {
        Seq::empty()
    } else {
        nodes_diags(flow, ns.drop_last(), aliases, cids) + node_diags(flow, ns.last(), aliases, cids)
    }
}

/// Node references that the manifest cannot satisfy, flow by flow.
pub open spec fn flows_nodes_diags(
    es: Seq<PackFlowEntry>,
    aliases: Seq<Seq<char>>,
    cids: Seq<Seq<char>>,
) -> Seq<DiagnosticModel>
    decreases es.len(),
{
    if es.len() == 0 {
        Seq::empty()
    } else {
        flows_nodes_diags(es.drop_last(), aliases, cids) + nodes_diags(
            es.last().id.0@,
            flow_node_entries(es.last().flow.nodes),
            aliases,
            cids,
        )
    }
}

/// Everything the core structural validation reports, in order.
pub open spec fn spec_core_diagnostics(m: PackManifest) -> Seq<DiagnosticModel> {
    header_diags(m) + component_dup_diags(component_ids(m.components@)) + dependency_diags(
        dependency_aliases(m.dependencies@),
    ) + flows_diags(m.flows@) + configurators_diags(m.components@, flow_entry_ids(m.flows@))
        + flows_nodes_diags(
        m.flows@,
        dependency_aliases(m.dependencies@),
        component_ids(m.components@),
    )
}


// ---------------------------------------------------------------------------
// Counting diagnostics by code.

/// Number of diagnostics in the list that carry `code`.
pub open spec fn count_code(s: Seq<DiagnosticModel>, code: Seq<char>) -> nat
    decreases s.len(),
{
    if s.len() == 0 {
        0
    } else {
        count_code(s.drop_last(), code) + if s.last().code == code {
            1nat
        } else {
            0nat
        }
    }
}

proof fn lemma_count_add(a: Seq<DiagnosticModel>, b: Seq<DiagnosticModel>, code: Seq<char>)
    ensures
        count_code(a + b, code) == count_code(a, code) + count_code(b, code),
    decreases b.len(),
{
    if b.len() == 0 {
        assert(a + b =~= a);
    } else {
        assert((a + b).drop_last() =~= a + b.drop_last());
        assert((a + b).last() == b.last());
        lemma_count_add(a, b.drop_last(), code);
    }
}

proof fn lemma_count_one(x: DiagnosticModel, code: Seq<char>)
    ensures
        count_code(seq![x], code) == (if x.code == code { 1nat } else { 0nat }),
{
    let s1 = seq![x];
    assert(s1.drop_last() =~= Seq::<DiagnosticModel>::empty());
    assert(count_code(s1.drop_last(), code) == 0);
    assert(s1.last() == x);
}

/// Counts in a list of at most one diagnostic.
proof fn lemma_count_opt(b: bool, x: DiagnosticModel, code: Seq<char>)
    ensures
        count_code(if b { seq![x] } else { Seq::<DiagnosticModel>::empty() }, code) == (if b
            && x.code == code {
            1nat
        } else {
            0nat
        }),
{
    lemma_count_one(x, code);
}

proof fn lemma_count_header(m: PackManifest, code: Seq<char>)
    requires
        code != "PACK_SCHEMA_VERSION_MISSING"@,
        code != "PACK_ID_MISSING"@,
    ensures
        count_code(header_diags(m), code) == 0,
{
    let a = error_diag(
        "PACK_SCHEMA_VERSION_MISSING"@,
        "Pack manifest schema_version is required."@,
        "schema_version"@,
        "Set schema_version to a supported pack manifest version."@,
    );
    let b = error_diag(
        "PACK_ID_MISSING"@,
        "Pack manifest pack_id is required."@,
        "pack_id"@,
        "Provide a non-empty pack identifier."@,
    );
    lemma_count_opt(is_blank(m.schema_version@), a, code);
    lemma_count_opt(is_blank(m.pack_id.0@), b, code);
    lemma_count_add(
        if is_blank(m.schema_version@) { seq![a] } else { Seq::empty() },
        if is_blank(m.pack_id.0@) { seq![b] } else { Seq::empty() },
        code,
    );
}

/// Appending `x` to a list adds one distinct value exactly when `x` is new.
proof fn lemma_distinct_push(p: Seq<Seq<char>>, x: Seq<char>)
    ensures
        p.push(x).to_set().len() == p.to_set().len() + (if p.contains(x) { 0int } else { 1int }),
{
    broadcast use vstd::seq_lib::seq_to_set_is_finite;
    assert(p.push(x).to_set() =~= p.to_set().insert(x)) by {
        assert forall|y: Seq<char>| #[trigger] p.push(x).to_set().contains(y) <==> p.to_set().insert(x).contains(y) by {
            if p.push(x).contains(y) {
                let i = choose|i: int| 0 <= i < p.push(x).len() && p.push(x)[i] == y;
                if i < p.len() {
                    assert(p[i] == y);
                }
            }
            if p.contains(y) {
                let i = choose|i: int| 0 <= i < p.len() && p[i] == y;
                assert(p.push(x)[i] == y);
            }
            if y == x {
                assert(p.push(x)[p.len() as int] == x);
            }
        }
    }
    if p.contains(x) {
        assert(p.to_set().contains(x));
    }
}

proof fn lemma_count_component_dups(ids: Seq<Seq<char>>, code: Seq<char>)
    ensures
        count_code(component_dup_diags(ids), code) == (if code == "PACK_COMPONENT_ID_DUPLICATE"@ {
            ids.len() - ids.to_set().len()
        } else {
            0
        }),
    decreases ids.len(),
{
    if ids.len() == 0 {
        assert(ids.to_set() =~= Set::<Seq<char>>::empty());
    } else {
        let p = ids.drop_last();
        lemma_count_component_dups(p, code);
        assert(p.push(ids.last()) =~= ids);
        lemma_distinct_push(p, ids.last());
        let x = error_diag(
            "PACK_COMPONENT_ID_DUPLICATE"@,
            "Duplicate component identifiers are not allowed."@,
            "components."@ + ids.last(),
            "Ensure each component id is unique within the pack."@,
        );
        lemma_count_opt(p.contains(ids.last()), x, code);
        lemma_count_add(
            component_dup_diags(p),
            if p.contains(ids.last()) { seq![x] } else { Seq::empty() },
            code,
        );
    }
}


proof fn lemma_count_dependencies(aliases: Seq<Seq<char>>, code: Seq<char>)
    requires
        code != "PACK_DEPENDENCY_ALIAS_MISSING"@,
    ensures
        count_code(dependency_diags(aliases), code) == (if code == "PACK_DEPENDENCY_ALIAS_DUPLICATE"@ {
            aliases.len() - aliases.to_set().len()
        } else {
            0
        }),
    decreases aliases.len(),
{
    if aliases.len() == 0 {
        assert(aliases.to_set() =~= Set::<Seq<char>>::empty());
    } else {
        let p = aliases.drop_last();
        let alias = aliases.last();
        lemma_count_dependencies(p, code);
        assert(p.push(alias) =~= aliases);
        lemma_distinct_push(p, alias);
        let a = error_diag(
            "PACK_DEPENDENCY_ALIAS_MISSING"@,
            "Pack dependency alias is required."@,
            "dependencies"@,
            "Provide a non-empty alias for each dependency."@,
        );
        let b = error_diag(
            "PACK_DEPENDENCY_ALIAS_DUPLICATE"@,
            "Duplicate dependency aliases are not allowed."@,
            "dependencies."@ + alias,
            "Ensure each dependency alias is unique within the pack."@,
        );
        let sa = if is_blank(alias) { seq![a] } else { Seq::<DiagnosticModel>::empty() };
        let sb = if p.contains(alias) { seq![b] } else { Seq::<DiagnosticModel>::empty() };
        lemma_count_opt(is_blank(alias), a, code);
        lemma_count_opt(p.contains(alias), b, code);
        lemma_count_add(sa, sb, code);
        lemma_count_add(dependency_diags(p), sa + sb, code);
    }
}

proof fn lemma_count_flows(es: Seq<PackFlowEntry>, code: Seq<char>)
    requires
        code != "PACK_FLOW_ID_MISMATCH"@,
        code != "PACK_FLOW_KIND_MISMATCH"@,
        code != "PACK_FLOW_SCHEMA_VERSION_MISSING"@,
    ensures
        count_code(flows_diags(es), code) == (if code == "PACK_FLOW_ID_DUPLICATE"@ {
            es.len() - flow_entry_ids(es).to_set().len()
        } else {
            0
        }),
    decreases es.len(),
{
    if es.len() == 0 {
        assert(flow_entry_ids(es).to_set() =~= Set::<Seq<char>>::empty());
    } else {
        let p = es.drop_last();
        let e = es.last();
        let id = e.id.0@;
        lemma_count_flows(p, code);
        assert(flow_entry_ids(p).push(id) =~= flow_entry_ids(es));
        lemma_distinct_push(flow_entry_ids(p), id);
        let prev = flow_entry_ids(p);
        let a = error_diag(
            "PACK_FLOW_ID_DUPLICATE"@,
            "Duplicate flow identifiers are not allowed."@,
            "flows."@ + id,
            "Ensure each flow id is unique within the pack."@,
        );
        let b = error_diag(
            "PACK_FLOW_ID_MISMATCH"@,
            "Pack flow entry id must match the embedded flow id."@,
            "flows."@ + id + ".id"@,
            "Align the entry id with the flow.id field."@,
        );
        let c = error_diag(
            "PACK_FLOW_KIND_MISMATCH"@,
            "Pack flow entry kind must match the embedded flow kind."@,
            "flows."@ + id + ".kind"@,
            "Align the entry kind with the flow.kind field."@,
        );
        let d = error_diag(
            "PACK_FLOW_SCHEMA_VERSION_MISSING"@,
            "Embedded flow schema_version is required."@,
            "flows."@ + id + ".flow.schema_version"@,
            "Set schema_version to a supported flow version."@,
        );
        let sa = if prev.contains(id) { seq![a] } else { Seq::<DiagnosticModel>::empty() };
        let sb = if id != e.flow.id.0@ { seq![b] } else { Seq::<DiagnosticModel>::empty() };
        let sc = if e.kind != e.flow.kind { seq![c] } else { Seq::<DiagnosticModel>::empty() };
        let sd = if is_blank(e.flow.schema_version@) { seq![d] } else { Seq::<DiagnosticModel>::empty() };
        lemma_count_opt(prev.contains(id), a, code);
        lemma_count_opt(id != e.flow.id.0@, b, code);
        lemma_count_opt(e.kind != e.flow.kind, c, code);
        lemma_count_opt(is_blank(e.flow.schema_version@), d, code);
        lemma_count_add(sa, sb, code);
        lemma_count_add(sa + sb, sc, code);
        lemma_count_add(sa + sb + sc, sd, code);
        assert(flow_entry_diags(prev, e) == sa + sb + sc + sd);
        lemma_count_add(flows_diags(p), sa + sb + sc + sd, code);
    }
}

proof fn lemma_count_configurators(cs: Seq<ComponentManifest>, flow_ids: Seq<Seq<char>>, code: Seq<char>)
    requires
        code != "PACK_COMPONENT_CONFIG_FLOW_MISSING"@,
    ensures
        count_code(configurators_diags(cs, flow_ids), code) == 0,
    decreases cs.len(),
{
    if cs.len() > 0 {
        let p = cs.drop_last();
        let c = cs.last();
        lemma_count_configurators(p, flow_ids, code);
        let one = component_configurator_diags(c, flow_ids);
        match c.configurators {
            Some(cf) => {
                let sa = match cf.basic {
                    Some(f) => if !flow_ids.contains(f.0@) {
                        seq![configurator_diag(c.id.0@, "basic"@)]
                    } else {
                        Seq::<DiagnosticModel>::empty()
                    },
                    None => Seq::<DiagnosticModel>::empty(),
                };
                let sb = match cf.full {
                    Some(f) => if !flow_ids.contains(f.0@) {
                        seq![configurator_diag(c.id.0@, "full"@)]
                    } else {
                        Seq::<DiagnosticModel>::empty()
                    },
                    None => Seq::<DiagnosticModel>::empty(),
                };
                lemma_count_one(configurator_diag(c.id.0@, "basic"@), code);
                lemma_count_one(configurator_diag(c.id.0@, "full"@), code);
                assert(count_code(Seq::<DiagnosticModel>::empty(), code) == 0);
                lemma_count_add(sa, sb, code);
                assert(one == sa + sb);
            },
            None => {
                assert(count_code(Seq::<DiagnosticModel>::empty(), code) == 0);
            },
        }
        lemma_count_add(configurators_diags(p, flow_ids), one, code);
    }
}

proof fn lemma_count_nodes(
    flow: Seq<char>,
    ns: Seq<(NodeId, Option<ComponentId>, Option<String>)>,
    aliases: Seq<Seq<char>>,
    cids: Seq<Seq<char>>,
    code: Seq<char>,
)
    requires
        code != "PACK_FLOW_DEPENDENCY_ALIAS_MISSING"@,
        code != "PACK_FLOW_COMPONENT_MISSING"@,
    ensures
        count_code(nodes_diags(flow, ns, aliases, cids), code) == 0,
    decreases ns.len(),
{
    if ns.len() > 0 {
        let n = ns.last();
        lemma_count_nodes(flow, ns.drop_last(), aliases, cids, code);
        let one = node_diags(flow, n, aliases, cids);
        assert(count_code(Seq::<DiagnosticModel>::empty(), code) == 0);
        if one.len() > 0 {
            assert(one.len() == 1);
            lemma_count_one(one[0], code);
            assert(one =~= seq![one[0]]);
        } else {
            assert(one =~= Seq::<DiagnosticModel>::empty());
        }
        lemma_count_add(nodes_diags(flow, ns.drop_last(), aliases, cids), one, code);
    }
}

proof fn lemma_count_flows_nodes(
    es: Seq<PackFlowEntry>,
    aliases: Seq<Seq<char>>,
    cids: Seq<Seq<char>>,
    code: Seq<char>,
)
    requires
        code != "PACK_FLOW_DEPENDENCY_ALIAS_MISSING"@,
        code != "PACK_FLOW_COMPONENT_MISSING"@,
    ensures
        count_code(flows_nodes_diags(es, aliases, cids), code) == 0,
    decreases es.len(),
{
    if es.len() > 0 {
        lemma_count_flows_nodes(es.drop_last(), aliases, cids, code);
        lemma_count_nodes(es.last().id.0@, flow_node_entries(es.last().flow.nodes), aliases, cids, code);
        lemma_count_add(
            flows_nodes_diags(es.drop_last(), aliases, cids),
            nodes_diags(es.last().id.0@, flow_node_entries(es.last().flow.nodes), aliases, cids),
            code,
        );
    }
}


proof fn lemma_count_core(m: PackManifest, code: Seq<char>)
    requires
        code != "PACK_SCHEMA_VERSION_MISSING"@,
        code != "PACK_ID_MISSING"@,
        code != "PACK_DEPENDENCY_ALIAS_MISSING"@,
        code != "PACK_FLOW_ID_MISMATCH"@,
        code != "PACK_FLOW_KIND_MISMATCH"@,
        code != "PACK_FLOW_SCHEMA_VERSION_MISSING"@,
        code != "PACK_COMPONENT_CONFIG_FLOW_MISSING"@,
        code != "PACK_FLOW_DEPENDENCY_ALIAS_MISSING"@,
        code != "PACK_FLOW_COMPONENT_MISSING"@,
    ensures
        count_code(spec_core_diagnostics(m), code) == count_code(
            component_dup_diags(component_ids(m.components@)),
            code,
        ) + count_code(dependency_diags(dependency_aliases(m.dependencies@)), code) + count_code(
            flows_diags(m.flows@),
            code,
        ),
{
    let h = header_diags(m);
    let c = component_dup_diags(component_ids(m.components@));
    let d = dependency_diags(dependency_aliases(m.dependencies@));
    let f = flows_diags(m.flows@);
    let g = configurators_diags(m.components@, flow_entry_ids(m.flows@));
    let n = flows_nodes_diags(m.flows@, dependency_aliases(m.dependencies@), component_ids(m.components@));
    lemma_count_header(m, code);
    lemma_count_configurators(m.components@, flow_entry_ids(m.flows@), code);
    lemma_count_flows_nodes(m.flows@, dependency_aliases(m.dependencies@), component_ids(m.components@), code);
    lemma_count_add(h, c, code);
    lemma_count_add(h + c, d, code);
    lemma_count_add(h + c + d, f, code);
    lemma_count_add(h + c + d + f, g, code);
    lemma_count_add(h + c + d + f + g, n, code);
}

/// Every repeat of a component id, a dependency alias or a flow entry id is
/// reported once: the core validation holds as many diagnostics of each
/// duplicate kind as there are entries beyond the distinct values.
pub proof fn law_duplicate_diagnostics_counted(m: PackManifest)
    ensures
        count_code(spec_core_diagnostics(m), "PACK_COMPONENT_ID_DUPLICATE"@) == m.components@.len()
            - component_ids(m.components@).to_set().len(),
        count_code(spec_core_diagnostics(m), "PACK_DEPENDENCY_ALIAS_DUPLICATE"@)
            == m.dependencies@.len() - dependency_aliases(m.dependencies@).to_set().len(),
        count_code(spec_core_diagnostics(m), "PACK_FLOW_ID_DUPLICATE"@) == m.flows@.len()
            - flow_entry_ids(m.flows@).to_set().len(),
{
    reveal_strlit("PACK_SCHEMA_VERSION_MISSING");
    reveal_strlit("PACK_ID_MISSING");
    reveal_strlit("PACK_COMPONENT_ID_DUPLICATE");
    reveal_strlit("PACK_DEPENDENCY_ALIAS_MISSING");
    reveal_strlit("PACK_DEPENDENCY_ALIAS_DUPLICATE");
    reveal_strlit("PACK_FLOW_ID_DUPLICATE");
    reveal_strlit("PACK_FLOW_ID_MISMATCH");
    reveal_strlit("PACK_FLOW_KIND_MISMATCH");
    reveal_strlit("PACK_FLOW_SCHEMA_VERSION_MISSING");
    reveal_strlit("PACK_COMPONENT_CONFIG_FLOW_MISSING");
    reveal_strlit("PACK_FLOW_DEPENDENCY_ALIAS_MISSING");
    reveal_strlit("PACK_FLOW_COMPONENT_MISSING");
    let cids = component_ids(m.components@);
    let aliases = dependency_aliases(m.dependencies@);
    let cd = "PACK_COMPONENT_ID_DUPLICATE"@;
    let dd = "PACK_DEPENDENCY_ALIAS_DUPLICATE"@;
    let fd = "PACK_FLOW_ID_DUPLICATE"@;
    assert(cd != "PACK_SCHEMA_VERSION_MISSING"@) by {
        assert(cd[5] != "PACK_SCHEMA_VERSION_MISSING"@[5]);
    }
    assert(cd != "PACK_FLOW_COMPONENT_MISSING"@) by {
        assert(cd[5] != "PACK_FLOW_COMPONENT_MISSING"@[5]);
    }
    assert(dd.len() != cd.len() && fd.len() != cd.len() && fd.len() != dd.len());
    lemma_count_core(m, cd);
    lemma_count_core(m, dd);
    lemma_count_core(m, fd);
    lemma_count_component_dups(cids, cd);
    lemma_count_component_dups(cids, dd);
    lemma_count_component_dups(cids, fd);
    lemma_count_dependencies(aliases, cd);
    lemma_count_dependencies(aliases, dd);
    lemma_count_dependencies(aliases, fd);
    lemma_count_flows(m.flows@, cd);
    lemma_count_flows(m.flows@, dd);
    lemma_count_flows(m.flows@, fd);
}


/// Whether a configurator reference names a flow that no flow entry of the
/// manifest has as its id.
pub open spec fn names_missing_flow(r: Option<FlowId>, flows: Seq<PackFlowEntry>) -> bool {
    match r {
        Some(f) => !(exists|j: int| 0 <= j < flows.len() && #[trigger] flows[j].id.0@ == f.0@),
        None => false,
    }
}

/// Number of configurator references (basic and full) of the components
/// that name a flow missing from the manifest.
pub open spec fn missing_configurator_refs(cs: Seq<ComponentManifest>, flows: Seq<PackFlowEntry>) -> nat
    decreases cs.len(),
{
    if cs.len() == 0 {
        0
    } else {
        missing_configurator_refs(cs.drop_last(), flows) + match cs.last().configurators {
            Some(cf) => (if names_missing_flow(cf.basic, flows) {
                1nat
            } else {
                0nat
            }) + (if names_missing_flow(cf.full, flows) {
                1nat
            } else {
                0nat
            }),
            None => 0nat,
        }
    }
}

proof fn lemma_flow_ids_contain(flows: Seq<PackFlowEntry>, x: Seq<char>)
    ensures
        flow_entry_ids(flows).contains(x) <==> exists|j: int|
            0 <= j < flows.len() && #[trigger] flows[j].id.0@ == x,
{
    let ids = flow_entry_ids(flows);
    if ids.contains(x) {
        let k = choose|k: int| 0 <= k < ids.len() && ids[k] == x;
        assert(flows[k].id.0@ == x);
    }
    if exists|j: int| 0 <= j < flows.len() && #[trigger] flows[j].id.0@ == x {
        let j = choose|j: int| 0 <= j < flows.len() && #[trigger] flows[j].id.0@ == x;
        assert(ids[j] == x);
    }
}

proof fn lemma_count_configurators_missing(cs: Seq<ComponentManifest>, flows: Seq<PackFlowEntry>)
    ensures
        count_code(configurators_diags(cs, flow_entry_ids(flows)), "PACK_COMPONENT_CONFIG_FLOW_MISSING"@)
            == missing_configurator_refs(cs, flows),
    decreases cs.len(),
{
    let code = "PACK_COMPONENT_CONFIG_FLOW_MISSING"@;
    let fids = flow_entry_ids(flows);
    if cs.len() > 0 {
        let p = cs.drop_last();
        let c = cs.last();
        lemma_count_configurators_missing(p, flows);
        let one = component_configurator_diags(c, fids);
        assert(count_code(Seq::<DiagnosticModel>::empty(), code) == 0);
        match c.configurators {
            Some(cf) => {
                let sa = match cf.basic {
                    Some(f) => if !fids.contains(f.0@) {
                        seq![configurator_diag(c.id.0@, "basic"@)]
                    } else {
                        Seq::<DiagnosticModel>::empty()
                    },
                    None => Seq::<DiagnosticModel>::empty(),
                };
                let sb = match cf.full {
                    Some(f) => if !fids.contains(f.0@) {
                        seq![configurator_diag(c.id.0@, "full"@)]
                    } else {
                        Seq::<DiagnosticModel>::empty()
                    },
                    None => Seq::<DiagnosticModel>::empty(),
                };
                lemma_count_one(configurator_diag(c.id.0@, "basic"@), code);
                lemma_count_one(configurator_diag(c.id.0@, "full"@), code);
                match cf.basic {
                    Some(f) => lemma_flow_ids_contain(flows, f.0@),
                    None => {},
                }
                match cf.full {
                    Some(f) => lemma_flow_ids_contain(flows, f.0@),
                    None => {},
                }
                lemma_count_add(sa, sb, code);
                assert(one == sa + sb);
            },
            None => {},
        }
        lemma_count_add(configurators_diags(p, fids), one, code);
    }
}

/// Each configurator reference (basic or full) that names a flow absent from
/// the manifest is reported once: the core validation holds exactly that
/// many `PACK_COMPONENT_CONFIG_FLOW_MISSING` diagnostics.
pub proof fn law_missing_configurator_flows_counted(m: PackManifest)
    ensures
        count_code(spec_core_diagnostics(m), "PACK_COMPONENT_CONFIG_FLOW_MISSING"@)
            == missing_configurator_refs(m.components@, m.flows@),
{
    reveal_strlit("PACK_SCHEMA_VERSION_MISSING");
    reveal_strlit("PACK_ID_MISSING");
    reveal_strlit("PACK_COMPONENT_ID_DUPLICATE");
    reveal_strlit("PACK_DEPENDENCY_ALIAS_MISSING");
    reveal_strlit("PACK_DEPENDENCY_ALIAS_DUPLICATE");
    reveal_strlit("PACK_FLOW_ID_DUPLICATE");
    reveal_strlit("PACK_FLOW_ID_MISMATCH");
    reveal_strlit("PACK_FLOW_KIND_MISMATCH");
    reveal_strlit("PACK_FLOW_SCHEMA_VERSION_MISSING");
    reveal_strlit("PACK_COMPONENT_CONFIG_FLOW_MISSING");
    reveal_strlit("PACK_FLOW_DEPENDENCY_ALIAS_MISSING");
    reveal_strlit("PACK_FLOW_COMPONENT_MISSING");
    let code = "PACK_COMPONENT_CONFIG_FLOW_MISSING"@;
    assert(code != "PACK_FLOW_DEPENDENCY_ALIAS_MISSING"@) by {
        assert(code[5] != "PACK_FLOW_DEPENDENCY_ALIAS_MISSING"@[5]);
    }
    assert(code.len() != "PACK_SCHEMA_VERSION_MISSING"@.len());
    assert(code.len() != "PACK_DEPENDENCY_ALIAS_MISSING"@.len());
    let cids = component_ids(m.components@);
    let aliases = dependency_aliases(m.dependencies@);
    let h = header_diags(m);
    let c = component_dup_diags(cids);
    let d = dependency_diags(aliases);
    let f = flows_diags(m.flows@);
    let g = configurators_diags(m.components@, flow_entry_ids(m.flows@));
    let n = flows_nodes_diags(m.flows@, aliases, cids);
    lemma_count_header(m, code);
    lemma_count_component_dups(cids, code);
    lemma_count_dependencies(aliases, code);
    lemma_count_flows(m.flows@, code);
    lemma_count_configurators_missing(m.components@, m.flows@);
    lemma_count_flows_nodes(m.flows@, aliases, cids, code);
    lemma_count_add(h, c, code);
    lemma_count_add(h + c, d, code);
    lemma_count_add(h + c + d, f, code);
    lemma_count_add(h + c + d + f, g, code);
    lemma_count_add(h + c + d + f + g, n, code);
}


proof fn lemma_configurator_diag_present(
    cs: Seq<ComponentManifest>,
    flows: Seq<PackFlowEntry>,
    i: int,
    full: bool,
)
    requires
        0 <= i < cs.len(),
        cs[i].configurators matches Some(cf) && names_missing_flow(
            if full { cf.full } else { cf.basic },
            flows,
        ),
    ensures
        configurators_diags(cs, flow_entry_ids(flows)).contains(
            configurator_diag(cs[i].id.0@, if full { "full"@ } else { "basic"@ }),
        ),
    decreases cs.len(),
{
    let fids = flow_entry_ids(flows);
    let p = cs.drop_last();
    let x = configurator_diag(cs[i].id.0@, if full { "full"@ } else { "basic"@ });
    if i < cs.len() - 1 {
        assert(p[i] == cs[i]);
        lemma_configurator_diag_present(p, flows, i, full);
        let prev = configurators_diags(p, fids);
        let k = choose|k: int| 0 <= k < prev.len() && prev[k] == x;
        let all = configurators_diags(cs, fids);
        assert(all == prev + component_configurator_diags(cs.last(), fids));
        assert(all[k] == x);
    } else {
        let c = cs.last();
        assert(c == cs[i]);
        let cf = c.configurators->Some_0;
        let sa = match cf.basic {
            Some(f) => if !fids.contains(f.0@) {
                seq![configurator_diag(c.id.0@, "basic"@)]
            } else {
                Seq::<DiagnosticModel>::empty()
            },
            None => Seq::<DiagnosticModel>::empty(),
        };
        let sb = match cf.full {
            Some(f) => if !fids.contains(f.0@) {
                seq![configurator_diag(c.id.0@, "full"@)]
            } else {
                Seq::<DiagnosticModel>::empty()
            },
            None => Seq::<DiagnosticModel>::empty(),
        };
        let one = component_configurator_diags(c, fids);
        assert(one == sa + sb);
        let prev = configurators_diags(p, fids);
        let all = configurators_diags(cs, fids);
        assert(all == prev + one);
        if full {
            let f = cf.full->Some_0;
            lemma_flow_ids_contain(flows, f.0@);
            assert(sb == seq![x]);
            assert(all[(prev.len() + sa.len()) as int] == x);
        } else {
            let f = cf.basic->Some_0;
            lemma_flow_ids_contain(flows, f.0@);
            assert(sa == seq![x]);
            assert(all[prev.len() as int] == x);
        }
    }
}

/// A component configurator (basic or full) that names a flow absent from
/// the manifest is reported as a `PACK_COMPONENT_CONFIG_FLOW_MISSING` error
/// at `components.<id>.configurators.full` (or `.basic`).
pub proof fn law_missing_configurator_flow_reported(m: PackManifest, i: int, full: bool)
    requires
        0 <= i < m.components@.len(),
        m.components@[i].configurators matches Some(cf) && names_missing_flow(
            if full { cf.full } else { cf.basic },
            m.flows@,
        ),
    ensures
        exists|k: int|
            0 <= k < spec_core_diagnostics(m).len() && {
                let d = #[trigger] spec_core_diagnostics(m)[k];
                &&& d.code == "PACK_COMPONENT_CONFIG_FLOW_MISSING"@
                &&& d.severity == Severity::Error
                &&& d.path == Some(
                    "components."@ + m.components@[i].id.0@ + if full {
                        ".configurators.full"@
                    } else {
                        ".configurators.basic"@
                    },
                )
            },
{
    reveal_strlit(".configurators.full");
    reveal_strlit(".configurators.basic");
    reveal_strlit(".configurators.");
    reveal_strlit("full");
    reveal_strlit("basic");
    let id = m.components@[i].id.0@;
    let slot = if full { "full"@ } else { "basic"@ };
    let x = configurator_diag(id, slot);
    lemma_configurator_diag_present(m.components@, m.flows@, i, full);
    let cids = component_ids(m.components@);
    let aliases = dependency_aliases(m.dependencies@);
    let a = header_diags(m) + component_dup_diags(cids) + dependency_diags(aliases) + flows_diags(
        m.flows@,
    );
    let g = configurators_diags(m.components@, flow_entry_ids(m.flows@));
    let n = flows_nodes_diags(m.flows@, aliases, cids);
    let all = spec_core_diagnostics(m);
    assert(all == a + g + n);
    let j = choose|j: int| 0 <= j < g.len() && g[j] == x;
    assert(all[a.len() + j] == x);
    assert(x.path == Some(
        "components."@ + id + if full {
            ".configurators.full"@
        } else {
            ".configurators.basic"@
        },
    )) by {
        assert("components."@ + id + ".configurators."@ + slot =~= "components."@ + id + if full {
            ".configurators.full"@
        } else {
            ".configurators.basic"@
        });
    }
}


// ---------------------------------------------------------------------------
// Core validation.

fn check_header(m: &PackManifest, diags: &mut Vec<Diagnostic>)
    requires
        all_data_null(old(diags)@),
    ensures
        all_data_null(final(diags)@),
        diag_models(final(diags)@) == diag_models(old(diags)@) + header_diags(*m),
{
    let ghost base = diag_models(diags@);
    if trims_to_empty(m.schema_version.as_str()) {
        push_diag(
            diags,
            error_diagnostic(
                "PACK_SCHEMA_VERSION_MISSING",
                "Pack manifest schema_version is required.",
                owned("schema_version"),
                "Set schema_version to a supported pack manifest version.",
            ),
        );
    }
    let ghost mid = diag_models(diags@);
    if trims_to_empty(m.pack_id.as_str()) {
        push_diag(
            diags,
            error_diagnostic(
                "PACK_ID_MISSING",
                "Pack manifest pack_id is required.",
                owned("pack_id"),
                "Provide a non-empty pack identifier.",
            ),
        );
    }
    assert(diag_models(diags@) =~= base + header_diags(*m));
}

fn check_component_ids(m: &PackManifest, diags: &mut Vec<Diagnostic>) -> (seen: Vec<String>)
    requires
        all_data_null(old(diags)@),
    ensures
        all_data_null(final(diags)@),
        diag_models(final(diags)@) == diag_models(old(diags)@) + component_dup_diags(
            component_ids(m.components@),
        ),
        texts(seen@) == component_ids(m.components@),
{
    let ghost base = diag_models(diags@);
    let ghost ids = component_ids(m.components@);
    let mut seen: Vec<String> = Vec::new();
    let mut i: usize = 0;
    assert(ids.subrange(0, 0) =~= Seq::<Seq<char>>::empty());
    assert(diag_models(diags@) =~= base + component_dup_diags(ids.subrange(0, 0)));
    while i < m.components.len()
        invariant
            all_data_null(diags@),
            i <= m.components.len(),
            ids == component_ids(m.components@),
            texts(seen@) == ids.subrange(0, i as int),
            diag_models(diags@) == base + component_dup_diags(ids.subrange(0, i as int)),
        decreases m.components.len() - i,
    {
        let id = m.components[i].id.as_str();
        assert(id@ == ids[i as int]);
        let dup = texts_contain(&seen, id);
        let ghost pre = diag_models(diags@);
        if dup {
            push_diag(
                diags,
                error_diagnostic(
                    "PACK_COMPONENT_ID_DUPLICATE",
                    "Duplicate component identifiers are not allowed.",
                    concat2("components.", id),
                    "Ensure each component id is unique within the pack.",
                ),
            );
        }
        seen.push(owned(id));
        proof {
            let sub = ids.subrange(0, i + 1);
            assert(sub.drop_last() =~= ids.subrange(0, i as int));
            assert(sub.last() == ids[i as int]);
            assert(texts(seen@) =~= ids.subrange(0, i + 1));
            assert(diag_models(diags@) =~= base + component_dup_diags(sub));
        }
        i = i + 1;
    }
    assert(ids.subrange(0, m.components.len() as int) =~= ids);
    seen
}

fn check_dependencies(m: &PackManifest, diags: &mut Vec<Diagnostic>) -> (seen: Vec<String>)
    requires
        all_data_null(old(diags)@),
    ensures
        all_data_null(final(diags)@),
        diag_models(final(diags)@) == diag_models(old(diags)@) + dependency_diags(
            dependency_aliases(m.dependencies@),
        ),
        texts(seen@) == dependency_aliases(m.dependencies@),
{
    let ghost base = diag_models(diags@);
    let ghost aliases = dependency_aliases(m.dependencies@);
    let mut seen: Vec<String> = Vec::new();
    let mut i: usize = 0;
    assert(aliases.subrange(0, 0) =~= Seq::<Seq<char>>::empty());
    assert(diag_models(diags@) =~= base + dependency_diags(aliases.subrange(0, 0)));
    while i < m.dependencies.len()
        invariant
            all_data_null(diags@),
            i <= m.dependencies.len(),
            aliases == dependency_aliases(m.dependencies@),
            texts(seen@) == aliases.subrange(0, i as int),
            diag_models(diags@) == base + dependency_diags(aliases.subrange(0, i as int)),
        decreases m.dependencies.len() - i,
    {
        let alias = m.dependencies[i].alias.as_str();
        assert(alias@ == aliases[i as int]);
        let ghost pre = diag_models(diags@);
        if trims_to_empty(alias) {
            push_diag(
                diags,
                error_diagnostic(
                    "PACK_DEPENDENCY_ALIAS_MISSING",
                    "Pack dependency alias is required.",
                    owned("dependencies"),
                    "Provide a non-empty alias for each dependency.",
                ),
            );
        }
        let dup = texts_contain(&seen, alias);
        if dup {
            push_diag(
                diags,
                error_diagnostic(
                    "PACK_DEPENDENCY_ALIAS_DUPLICATE",
                    "Duplicate dependency aliases are not allowed.",
                    concat2("dependencies.", alias),
                    "Ensure each dependency alias is unique within the pack.",
                ),
            );
        }
        seen.push(owned(alias));
        proof {
            let sub = aliases.subrange(0, i + 1);
            assert(sub.drop_last() =~= aliases.subrange(0, i as int));
            assert(sub.last() == aliases[i as int]);
            assert(texts(seen@) =~= aliases.subrange(0, i + 1));
            assert(diag_models(diags@) =~= base + dependency_diags(sub));
        }
        i = i + 1;
    }
    assert(aliases.subrange(0, m.dependencies.len() as int) =~= aliases);
    seen
}

#[verifier::rlimit(40)]
#[verifier::spinoff_prover]
fn check_flow_entries(m: &PackManifest, diags: &mut Vec<Diagnostic>) -> (seen: Vec<String>)
    requires
        all_data_null(old(diags)@),
    ensures
        all_data_null(final(diags)@),
        diag_models(final(diags)@) == diag_models(old(diags)@) + flows_diags(m.flows@),
        texts(seen@) == flow_entry_ids(m.flows@),
{
    let ghost base = diag_models(diags@);
    let ghost ids = flow_entry_ids(m.flows@);
    let mut seen: Vec<String> = Vec::new();
    let mut i: usize = 0;
    assert(m.flows@.subrange(0, 0) =~= Seq::<PackFlowEntry>::empty());
    assert(diag_models(diags@) =~= base + flows_diags(m.flows@.subrange(0, 0)));
    while i < m.flows.len()
        invariant
            all_data_null(diags@),
            i <= m.flows.len(),
            ids == flow_entry_ids(m.flows@),
            texts(seen@) == ids.subrange(0, i as int),
            diag_models(diags@) == base + flows_diags(m.flows@.subrange(0, i as int)),
        decreases m.flows.len() - i,
    {
        let entry = &m.flows[i];
        let id = entry.id.as_str();
        let ghost pre = diag_models(diags@);
        let dup = texts_contain(&seen, id);
        if dup {
            push_diag(
                diags,
                error_diagnostic(
                    "PACK_FLOW_ID_DUPLICATE",
                    "Duplicate flow identifiers are not allowed.",
                    concat2("flows.", id),
                    "Ensure each flow id is unique within the pack.",
                ),
            );
        }
        if !crate::text::str_eq(id, entry.flow.id.as_str()) {
            push_diag(
                diags,
                error_diagnostic(
                    "PACK_FLOW_ID_MISMATCH",
                    "Pack flow entry id must match the embedded flow id.",
                    concat3("flows.", id, ".id"),
                    "Align the entry id with the flow.id field.",
                ),
            );
        }
        if entry.kind != entry.flow.kind {
            push_diag(
                diags,
                error_diagnostic(
                    "PACK_FLOW_KIND_MISMATCH",
                    "Pack flow entry kind must match the embedded flow kind.",
                    concat3("flows.", id, ".kind"),
                    "Align the entry kind with the flow.kind field.",
                ),
            );
        }
        if trims_to_empty(entry.flow.schema_version.as_str()) {
            push_diag(
                diags,
                error_diagnostic(
                    "PACK_FLOW_SCHEMA_VERSION_MISSING",
                    "Embedded flow schema_version is required.",
                    concat3("flows.", id, ".flow.schema_version"),
                    "Set schema_version to a supported flow version.",
                ),
            );
        }
        seen.push(owned(id));
        proof {
            let sub = m.flows@.subrange(0, i + 1);
            assert(sub.drop_last() =~= m.flows@.subrange(0, i as int));
            assert(sub.last() == m.flows@[i as int]);
            assert(flow_entry_ids(sub.drop_last()) =~= ids.subrange(0, i as int));
            assert(texts(seen@) =~= ids.subrange(0, i + 1));
            assert(diag_models(diags@) =~= base + flows_diags(sub));
        }
        i = i + 1;
    }
    assert(ids.subrange(0, m.flows.len() as int) =~= ids);
    assert(m.flows@.subrange(0, m.flows.len() as int) =~= m.flows@);
    seen
}

fn check_configurators(m: &PackManifest, flow_ids: &Vec<String>, diags: &mut Vec<Diagnostic>)
    requires
        all_data_null(old(diags)@),
        texts(flow_ids@) == flow_entry_ids(m.flows@),
    ensures
        all_data_null(final(diags)@),
        diag_models(final(diags)@) == diag_models(old(diags)@) + configurators_diags(
            m.components@,
            flow_entry_ids(m.flows@),
        ),
{
    let ghost base = diag_models(diags@);
    let ghost fids = flow_entry_ids(m.flows@);
    let mut i: usize = 0;
    assert(m.components@.subrange(0, 0) =~= Seq::<ComponentManifest>::empty());
    assert(diag_models(diags@) =~= base + configurators_diags(m.components@.subrange(0, 0), fids));
    while i < m.components.len()
        invariant
            all_data_null(diags@),
            i <= m.components.len(),
            fids == flow_entry_ids(m.flows@),
            texts(flow_ids@) == fids,
            diag_models(diags@) == base + configurators_diags(m.components@.subrange(0, i as int), fids),
        decreases m.components.len() - i,
    {
        let component = &m.components[i];
        let ghost pre = diag_models(diags@);
        if let Some(configurators) = &component.configurators {
            if let Some(flow_id) = &configurators.basic {
                if !texts_contain(flow_ids, flow_id.as_str()) {
                    push_diag(
                        diags,
                        error_diagnostic(
                            "PACK_COMPONENT_CONFIG_FLOW_MISSING",
                            "Component configurator flow is not present in the pack manifest.",
                            concat3("components.", component.id.as_str(), ".configurators.basic"),
                            "Add the referenced flow to the pack manifest flows.",
                        ),
                    );
                    assert("components."@ + component.id.0@ + ".configurators.basic"@ =~= "components."@ + component.id.0@ + ".configurators."@ + "basic"@) by {
                        reveal_strlit(".configurators.basic");
                        reveal_strlit(".configurators.");
                        reveal_strlit("basic");
                    }
                }
            }
            if let Some(flow_id) = &configurators.full {
                if !texts_contain(flow_ids, flow_id.as_str()) {
                    push_diag(
                        diags,
                        error_diagnostic(
                            "PACK_COMPONENT_CONFIG_FLOW_MISSING",
                            "Component configurator flow is not present in the pack manifest.",
                            concat3("components.", component.id.as_str(), ".configurators.full"),
                            "Add the referenced flow to the pack manifest flows.",
                        ),
                    );
                    assert("components."@ + component.id.0@ + ".configurators.full"@ =~= "components."@ + component.id.0@ + ".configurators."@ + "full"@) by {
                        reveal_strlit(".configurators.full");
                        reveal_strlit(".configurators.");
                        reveal_strlit("full");
                    }
                }
            }
        }
        proof {
            let sub = m.components@.subrange(0, i + 1);
            assert(sub.drop_last() =~= m.components@.subrange(0, i as int));
            assert(sub.last() == m.components@[i as int]);
            assert(diag_models(diags@) =~= base + configurators_diags(sub, fids));
        }
        i = i + 1;
    }
    assert(m.components@.subrange(0, m.components.len() as int) =~= m.components@);
}


fn check_flow_nodes(
    entry: &PackFlowEntry,
    aliases: &Vec<String>,
    cids: &Vec<String>,
    diags: &mut Vec<Diagnostic>,
)
    requires
        all_data_null(old(diags)@),
    ensures
        all_data_null(final(diags)@),
        diag_models(final(diags)@) == diag_models(old(diags)@) + nodes_diags(
            entry.id.0@,
            flow_node_entries(entry.flow.nodes),
            texts(aliases@),
            texts(cids@),
        ),
{
    let ghost base = diag_models(diags@);
    let ghost ns = flow_node_entries(entry.flow.nodes);
    let ghost fid = entry.id.0@;
    let n = crate::flow::flow_nodes_len(&entry.flow.nodes);
    let mut i: usize = 0;
    assert(ns.subrange(0, 0) =~= Seq::<(NodeId, Option<ComponentId>, Option<String>)>::empty());
    assert(diag_models(diags@) =~= base + nodes_diags(fid, ns.subrange(0, 0), texts(aliases@), texts(cids@)));
    while i < n
        invariant
            all_data_null(diags@),
            i <= n,
            n == ns.len(),
            ns == flow_node_entries(entry.flow.nodes),
            fid == entry.id.0@,
            diag_models(diags@) == base + nodes_diags(fid, ns.subrange(0, i as int), texts(aliases@), texts(cids@)),
        decreases n - i,
    {
        let (node_id, node) = crate::flow::flow_node_at(&entry.flow.nodes, i);
        let ghost pre = diag_models(diags@);
        match &node.pack_alias {
            Some(alias) => {
                if !texts_contain(aliases, alias.as_str()) {
                    push_diag(
                        diags,
                        error_diagnostic(
                            "PACK_FLOW_DEPENDENCY_ALIAS_MISSING",
                            "Flow node references an unknown dependency alias.",
                            concat5("flows.", entry.id.as_str(), ".nodes.", node_id.as_str(), ".component.pack_alias"),
                            "Add the dependency alias to the pack manifest.",
                        ),
                    );
                }
            },
            None => {
                if let Some(component) = &node.component {
                    if !texts_contain(cids, component.as_str()) {
                        push_diag(
                            diags,
                            error_diagnostic(
                                "PACK_FLOW_COMPONENT_MISSING",
                                "Flow node references a component not declared in the pack manifest.",
                                concat5("flows.", entry.id.as_str(), ".nodes.", node_id.as_str(), ".component.id"),
                                "Declare the component in the pack manifest.",
                            ),
                        );
                    }
                }
            },
        }
        proof {
            let sub = ns.subrange(0, i + 1);
            assert(sub.drop_last() =~= ns.subrange(0, i as int));
            assert(sub.last() == ns[i as int]);
            assert(diag_models(diags@) =~= base + nodes_diags(fid, sub, texts(aliases@), texts(cids@)));
        }
        i = i + 1;
    }
    assert(ns.subrange(0, n as int) =~= ns);
}

fn check_nodes(m: &PackManifest, aliases: &Vec<String>, cids: &Vec<String>, diags: &mut Vec<Diagnostic>)
    requires
        all_data_null(old(diags)@),
    ensures
        all_data_null(final(diags)@),
        diag_models(final(diags)@) == diag_models(old(diags)@) + flows_nodes_diags(
            m.flows@,
            texts(aliases@),
            texts(cids@),
        ),
{
    let ghost base = diag_models(diags@);
    let mut i: usize = 0;
    assert(m.flows@.subrange(0, 0) =~= Seq::<PackFlowEntry>::empty());
    assert(diag_models(diags@) =~= base + flows_nodes_diags(m.flows@.subrange(0, 0), texts(aliases@), texts(cids@)));
    while i < m.flows.len()
        invariant
            all_data_null(diags@),
            i <= m.flows.len(),
            diag_models(diags@) == base + flows_nodes_diags(m.flows@.subrange(0, i as int), texts(aliases@), texts(cids@)),
        decreases m.flows.len() - i,
    {
        check_flow_nodes(&m.flows[i], aliases, cids, diags);
        proof {
            let sub = m.flows@.subrange(0, i + 1);
            assert(sub.drop_last() =~= m.flows@.subrange(0, i as int));
            assert(sub.last() == m.flows@[i as int]);
            assert(diag_models(diags@) =~= base + flows_nodes_diags(sub, texts(aliases@), texts(cids@)));
        }
        i = i + 1;
    }
    assert(m.flows@.subrange(0, m.flows.len() as int) =~= m.flows@);
}

/// Performs domain-agnostic structural validation for a pack manifest.
///
/// Reports, in this order: a blank schema version or pack id; duplicate
/// component ids; blank or duplicate dependency aliases; duplicate flow
/// entries, entries whose id or kind disagree with the embedded flow, and
/// flows without a schema version; configurator flows the manifest lacks;
/// and flow nodes whose dependency alias or component the manifest lacks.
pub fn validate_pack_manifest_core(manifest: &PackManifest) -> (r: Vec<Diagnostic>)
    ensures
        diag_models(r@) == spec_core_diagnostics(*manifest),
        all_data_null(r@),
{
    let mut diagnostics: Vec<Diagnostic> = Vec::new();
    assert(diag_models(diagnostics@) =~= Seq::<DiagnosticModel>::empty());
    check_header(manifest, &mut diagnostics);
    let component_ids = check_component_ids(manifest, &mut diagnostics);
    let dependency_aliases = check_dependencies(manifest, &mut diagnostics);
    let flow_ids = check_flow_entries(manifest, &mut diagnostics);
    check_configurators(manifest, &flow_ids, &mut diagnostics);
    check_nodes(manifest, &dependency_aliases, &component_ids, &mut diagnostics);
    assert(diag_models(diagnostics@) =~= spec_core_diagnostics(*manifest));
    diagnostics
}

} // verus!
