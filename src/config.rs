//! Per-operator configuration.
use vstd::prelude::*;

verus! {

/// Identity and behaviour flags of one operator.
#[derive(Debug, Clone)]
pub struct OperatorConfig {
    /// Operator identifier.
    pub id: u64,
    /// Node that hosts the operator.
    pub node_id: u64,
    /// Display name.
    pub name: String,
    /// When set, watermark callbacks re-emit their watermark downstream.
    pub flow_watermarks: bool,
}

impl OperatorConfig {
    pub fn new(id: u64, node_id: u64, name: String, flow_watermarks: bool) -> (r: OperatorConfig)
        ensures
            r.id == id,
            r.node_id == node_id,
            r.name == name,
            r.flow_watermarks == flow_watermarks,
    {
        OperatorConfig { id, node_id, name, flow_watermarks }
    }

    pub fn get_name(&self) -> (r: &String)
        ensures
            r == &self.name,
    {
        &self.name
    }
}

} // verus!
