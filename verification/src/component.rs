//! Component manifest data read by flow and pack validation.
use vstd::prelude::*;

use crate::flow::FlowKind;
use crate::ids::{ComponentId, FlowId};

verus! {

/// Flows that configure a component.
#[derive(Clone, Debug, PartialEq, Eq)]
pub struct ComponentConfigurators {
    /// Flow used for basic configuration.
    pub basic: Option<FlowId>,
    /// Flow used for full configuration.
    pub full: Option<FlowId>,
}

/// Manifest describing a component bundled in a pack.
#[derive(Clone, Debug, PartialEq, Eq)]
pub struct ComponentManifest {
    /// Component identifier.
    pub id: ComponentId,
    /// Flow kinds the component supports.
    pub supports: Vec<FlowKind>,
    /// Optional configurator flows.
    pub configurators: Option<ComponentConfigurators>,
}

impl ComponentManifest {
    /// Whether the component supports flows of the given kind.
    pub fn supports_kind(&self, kind: FlowKind) -> (r: bool)
        ensures
            r == self.supports@.contains(kind),
    {
        let mut i: usize = 0;
        while i < self.supports.len()
            invariant
                i <= self.supports.len(),
                forall|k: int| 0 <= k < i ==> self.supports@[k] != kind,
            decreases self.supports.len() - i,
        {
            if self.supports[i] == kind {
                return true;
            }
            i = i + 1;
        }
        false
    }
}

} // verus!
