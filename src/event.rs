//! Callback event descriptors inserted into the execution lattice.
use vstd::prelude::*;

use crate::timestamp::{Timestamp, TimestampModel};

verus! {

/// Priority of data callbacks; data fires first within a timestamp.
pub const DATA_PRIORITY: u8 = 0;

/// Priority of watermark callbacks that re-emit their watermark downstream.
pub const FLOW_WATERMARK_PRIORITY: u8 = 127;

/// How the lattice may run an event relative to others of the same operator.
#[derive(Debug, Clone, Copy, PartialEq, Eq, Structural)]
pub enum OperatorType {
    ReadOnly,
    Sequential,
    Parallel,
}

/// What an event runner does when the event fires.
#[derive(Debug, Clone)]
pub enum Callback<M> {
    /// Invoke the operator's data callback on `message`.
    Data { message: M, stateful: bool },
    /// Invoke the operator's watermark callback, then re-emit the watermark on
    /// every output when `flow_watermarks`, then commit the state at the
    /// timestamp when `commit_state`.
    Watermark { flow_watermarks: bool, commit_state: bool },
}

/// One scheduled callback with its ordering keys and state footprint.
#[derive(Debug, Clone)]
pub struct OperatorEvent<M> {
    pub timestamp: Timestamp,
    pub is_watermark: bool,
    /// Smaller fires earlier within the same timestamp.
    pub priority: u8,
    /// State identifiers the callback reads.
    pub read_ids: Vec<u64>,
    /// State identifiers the callback writes.
    pub write_ids: Vec<u64>,
    pub callback: Callback<M>,
    pub operator_type: OperatorType,
}

impl<M> OperatorEvent<M> {
    pub fn new(
        timestamp: Timestamp,
        is_watermark: bool,
        priority: u8,
        read_ids: Vec<u64>,
        write_ids: Vec<u64>,
        callback: Callback<M>,
        operator_type: OperatorType,
    ) -> (r: OperatorEvent<M>)
        ensures
            r == (OperatorEvent { timestamp, is_watermark, priority, read_ids, write_ids, callback, operator_type }),
    {
        OperatorEvent { timestamp, is_watermark, priority, read_ids, write_ids, callback, operator_type }
    }

    /// A data callback event on `message`, at priority `DATA_PRIORITY`.
    pub open spec fn is_data_event(&self, t: TimestampModel, message: M, stateful: bool, write_ids: Seq<u64>, ty: OperatorType) -> bool {
        &&& self.timestamp@ == t
        &&& !self.is_watermark
        &&& self.priority == DATA_PRIORITY
        &&& self.read_ids@.len() == 0
        &&& self.write_ids@ == write_ids
        &&& self.callback == Callback::Data { message, stateful }
        &&& self.operator_type == ty
    }

    /// A watermark callback event at `t`; its priority follows `flow`.
    pub open spec fn is_watermark_event(&self, t: TimestampModel, flow: bool, commit: bool, write_ids: Seq<u64>, ty: OperatorType) -> bool {
        &&& self.timestamp@ == t
        &&& self.is_watermark
        &&& self.priority == (if flow { FLOW_WATERMARK_PRIORITY } else { DATA_PRIORITY })
        &&& self.read_ids@.len() == 0
        &&& self.write_ids@ == write_ids
        &&& self.callback == Callback::<M>::Watermark { flow_watermarks: flow, commit_state: commit }
        &&& self.operator_type == ty
    }
}

/// Within one timestamp, a data event never has a larger priority number
/// than the watermark event, and fires strictly first when the watermark
/// is re-emitted downstream.
pub proof fn lemma_data_before_watermark<M>(
    data: OperatorEvent<M>,
    watermark: OperatorEvent<M>,
    t: TimestampModel,
    message: M,
    stateful: bool,
    data_writes: Seq<u64>,
    data_type: OperatorType,
    flow: bool,
    commit: bool,
    watermark_writes: Seq<u64>,
    watermark_type: OperatorType,
)
    requires
        data.is_data_event(t, message, stateful, data_writes, data_type),
        watermark.is_watermark_event(t, flow, commit, watermark_writes, watermark_type),
    ensures
        data.timestamp@ == watermark.timestamp@,
        data.priority <= watermark.priority,
        flow ==> data.priority < watermark.priority,
{
}

/// Copies a list of integers (state identifiers, timestamp coordinates).
pub fn copy_ids(ids: &Vec<u64>) -> (r: Vec<u64>)
    ensures
        r@ == ids@,
{
    let mut r: Vec<u64> = Vec::new();
    let mut i: usize = 0;
    while i < ids.len()
        invariant
            i <= ids@.len(),
            r@ == ids@.subrange(0, i as int),
        decreases ids.len() - i,
    {
        r.push(ids[i]);
        i = i + 1;
    }
    assert(r@ =~= ids@);
    r
}

} // verus!
