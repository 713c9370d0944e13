//! Generic flow graph definitions used by packs and runtimes.
use std::hash::BuildHasherDefault;

use fnv::FnvHasher;
use indexmap::IndexMap;
use vstd::prelude::*;

use crate::component::ComponentManifest;
use crate::ids::{ComponentId, FlowId, NodeId};
use crate::text::{owned, push_str};

verus! {

/// Supported flow kinds.
#[derive(Clone, Copy, Debug, PartialEq, Eq, Hash, Structural)]
pub enum FlowKind {
    /// Session-centric messaging flows (chat, DM, etc.).
    Messaging,
    /// Fire-and-forget event flows (webhooks, timers, etc.).
    Events,
}

/// Flow node metadata. All semantics are opaque strings or documents.
#[derive(Clone, Debug, PartialEq)]
pub struct Node {
    /// Component kind (opaque string interpreted by tooling/runtime).
    pub kind: String,
    /// Optional profile override for this node.
    pub profile: Option<String>,
    /// Optional component binding identifier.
    pub component: Option<ComponentId>,
    /// Optional alias of the pack dependency that provides the component.
    pub pack_alias: Option<String>,
    /// Component-specific configuration blob.
    pub config: serde_json::Value,
    /// Opaque routing document interpreted by the component.
    pub routing: serde_json::Value,
}

/// Ordered node container referenced by [`Flow`].
pub type FlowNodes = IndexMap<NodeId, Node, BuildHasherDefault<FnvHasher>>;

/// What a flow's node map holds, in order: each node's identifier, its
/// component binding and its dependency alias.
pub uninterp spec fn flow_node_entries(nodes: FlowNodes) -> Seq<(NodeId, Option<ComponentId>, Option<String>)>;

/// Number of nodes, with `IndexMap::len`.
///
/// Claimed of the call: it is the number of entries the map holds.
#[verifier::external_body]
pub(crate) fn flow_nodes_len(nodes: &FlowNodes) -> (r: usize)
    ensures
        r == flow_node_entries(*nodes).len(),
{
    nodes.len()
}

/// The node at position `i` in insertion order, with `IndexMap::get_index`.
///
/// Claimed of the call: the key and the node's component binding and alias
/// are those of entry `i`.
#[verifier::external_body]
pub(crate) fn flow_node_at(nodes: &FlowNodes, i: usize) -> (r: (&NodeId, &Node))
    requires
        i < flow_node_entries(*nodes).len(),
    ensures
        (*r.0, r.1.component, r.1.pack_alias) == flow_node_entries(*nodes)[i as int],
{
    nodes.get_index(i).expect("index checked against len")
}

/// Canonical .ygtc flow representation.
#[derive(Clone, Debug, PartialEq)]
pub struct Flow {
    /// Flow execution kind.
    pub kind: FlowKind,
    /// Flow identifier inside the pack.
    pub id: FlowId,
    /// Schema version of the flow document.
    pub schema_version: String,
    /// Optional human-friendly summary.
    pub description: Option<String>,
    /// Ordered node map describing the flow graph.
    pub nodes: FlowNodes,
}

/// Validation errors produced by [`Flow::validate_components`].
#[derive(Clone, Debug, PartialEq, Eq)]
pub enum FlowValidationError {
    /// Flow has no nodes.
    EmptyFlow,
    /// Node references a component that is missing from the manifest set.
    MissingComponent {
        /// Offending node identifier.
        node_id: NodeId,
        /// Referenced component identifier.
        component: ComponentId,
    },
    /// Component does not support the flow kind.
    UnsupportedComponent {
        /// Offending node identifier.
        node_id: NodeId,
        /// Referenced component identifier.
        component: ComponentId,
        /// Flow kind the node participates in.
        flow_kind: FlowKind,
    },
}

/// The node passes component validation: unbound, or bound to a component
/// that the resolver finds and that supports `kind`.
pub open spec fn node_resolves<'a, F: Fn(&ComponentId) -> Option<&'a ComponentManifest>>(
    resolver: F,
    entry: (NodeId, Option<ComponentId>, Option<String>),
    kind: FlowKind,
) -> bool {
    entry.1 matches Some(c) ==> exists|m: &'a ComponentManifest|
        #[trigger] call_ensures(resolver, (&c,), Some(m)) && m.supports@.contains(kind)
}

impl Flow {
    /// Returns `true` when no nodes are defined.
    pub fn is_empty(&self) -> (r: bool)
        ensures
            r == (flow_node_entries(self.nodes).len() == 0),
    {
        flow_nodes_len(&self.nodes) == 0
    }

    /// Returns the implicit ingress node (first user-declared entry).
    pub fn ingress(&self) -> (r: Option<(&NodeId, &Node)>)
        ensures
            r is None <==> flow_node_entries(self.nodes).len() == 0,
            r matches Some(p) ==> (*p.0, p.1.component, p.1.pack_alias) == flow_node_entries(
                self.nodes,
            )[0],
    {
        if flow_nodes_len(&self.nodes) == 0 {
            None
        } else {
            Some(flow_node_at(&self.nodes, 0))
        }
    }

    /// Validates the flow structure (at least one node).
    pub fn validate_structure(&self) -> (r: Result<(), FlowValidationError>)
        ensures
            r is Ok <==> flow_node_entries(self.nodes).len() > 0,
            r matches Err(e) ==> e == FlowValidationError::EmptyFlow,
    {
        if self.is_empty() {
            return Err(FlowValidationError::EmptyFlow);
        }
        Ok(())
    }

    /// Ensures all referenced components exist and support this flow kind.
    pub fn validate_components<'a, F: Fn(&ComponentId) -> Option<&'a ComponentManifest>>(
        &self,
        resolver: F,
    ) -> (r: Result<(), FlowValidationError>)
        requires
            forall|c: &ComponentId| #[trigger] resolver.requires((c,)),
        ensures
            r matches Err(FlowValidationError::EmptyFlow) <==> flow_node_entries(self.nodes).len() == 0,
            r is Ok ==> forall|i: int|
                0 <= i < flow_node_entries(self.nodes).len() ==> node_resolves(
                    resolver,
                    #[trigger] flow_node_entries(self.nodes)[i],
                    self.kind,
                ),
            r matches Err(FlowValidationError::MissingComponent { node_id, component }) ==> exists|i: int|
                0 <= i < flow_node_entries(self.nodes).len()
                    && (#[trigger] flow_node_entries(self.nodes)[i]).0 == node_id
                    && flow_node_entries(self.nodes)[i].1 == Some(component)
                    && call_ensures(resolver, (&component,), None)
                    && forall|j: int| 0 <= j < i ==> node_resolves(resolver, flow_node_entries(self.nodes)[j], self.kind),
            r matches Err(FlowValidationError::UnsupportedComponent { node_id, component, flow_kind }) ==> flow_kind == self.kind && exists|i: int|
                0 <= i < flow_node_entries(self.nodes).len()
                    && (#[trigger] flow_node_entries(self.nodes)[i]).0 == node_id
                    && flow_node_entries(self.nodes)[i].1 == Some(component)
                    && (exists|m: &'a ComponentManifest|
                        call_ensures(resolver, (&component,), Some(m)) && !m.supports@.contains(self.kind))
                    && forall|j: int| 0 <= j < i ==> node_resolves(resolver, flow_node_entries(self.nodes)[j], self.kind),
    {
        self.validate_structure()?;
        let n = flow_nodes_len(&self.nodes);
        let mut i: usize = 0;
        while i < n
            invariant
                i <= n,
                n == flow_node_entries(self.nodes).len(),
                n > 0,
                forall|c: &ComponentId| #[trigger] resolver.requires((c,)),
                forall|j: int| 0 <= j < i ==> node_resolves(resolver, #[trigger] flow_node_entries(self.nodes)[j], self.kind),
            decreases n - i,
        {
            let (node_id, node) = flow_node_at(&self.nodes, i);
            if let Some(component_id) = &node.component {
                let found = resolver(component_id);
                match found {
                    None => {
                        return Err(FlowValidationError::MissingComponent {
                            node_id: node_id.clone(),
                            component: component_id.clone(),
                        });
                    },
                    Some(manifest) => {
                        if !manifest.supports_kind(self.kind) {
                            return Err(FlowValidationError::UnsupportedComponent {
                                node_id: node_id.clone(),
                                component: component_id.clone(),
                                flow_kind: self.kind,
                            });
                        }
                    },
                }
            }
            i = i + 1;
        }
        Ok(())
    }
}

/// The kind's name as `Debug` prints it.
pub open spec fn flow_kind_name(k: FlowKind) -> Seq<char> {
    match k {
        FlowKind::Messaging => "Messaging"@,
        FlowKind::Events => "Events"@,
    }
}

/// Human-readable description of a validation error.
pub open spec fn flow_error_message(e: FlowValidationError) -> Seq<char> {
    match e {
        FlowValidationError::EmptyFlow => "flows must declare at least one node"@,
        FlowValidationError::MissingComponent { node_id, component } => "node `"@ + node_id.0@
            + "` references missing component `"@ + component.0@ + "`"@,
        FlowValidationError::UnsupportedComponent { node_id, component, flow_kind } => "component `"@
            + component.0@ + "` used by node `"@ + node_id.0@ + "` does not support `"@
            + flow_kind_name(flow_kind) + "` flows"@,
    }
}

impl FlowKind {
    /// The kind's name as `Debug` prints it.
    pub fn name(&self) -> (r: &'static str)
        ensures
            r@ == flow_kind_name(*self),
    {
        match self {
            FlowKind::Messaging => "Messaging",
            FlowKind::Events => "Events",
        }
    }
}

impl FlowValidationError {
    /// Human-readable description of the error.
    pub fn to_message(&self) -> (r: String)
        ensures
            r@ == flow_error_message(*self),
    {
        match self {
            FlowValidationError::EmptyFlow => owned("flows must declare at least one node"),
            FlowValidationError::MissingComponent { node_id, component } => {
                let mut out = owned("node `");
                push_str(&mut out, node_id.as_str());
                push_str(&mut out, "` references missing component `");
                push_str(&mut out, component.as_str());
                push_str(&mut out, "`");
                out
            },
            FlowValidationError::UnsupportedComponent { node_id, component, flow_kind } => {
                let mut out = owned("component `");
                push_str(&mut out, component.as_str());
                push_str(&mut out, "` used by node `");
                push_str(&mut out, node_id.as_str());
                push_str(&mut out, "` does not support `");
                push_str(&mut out, flow_kind.name());
                push_str(&mut out, "` flows");
                out
            },
        }
    }
}

} // verus!
