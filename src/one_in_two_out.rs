//! Message processors of operators with one input and two outputs.
use vstd::prelude::*;

use std::sync::Arc;

use crate::config::OperatorConfig;
use crate::deadline::{DeadlineEvent, DeadlineEventModel};
use crate::event::{copy_ids, Callback, OperatorEvent, OperatorType, DATA_PRIORITY, FLOW_WATERMARK_PRIORITY};
use crate::lifecycle::sends_top_watermark;
use crate::message::Message;
use crate::processor::OneInMessageProcessorT;
use crate::timestamp::Timestamp;

verus! {

/// Runs data callbacks in parallel; the state supports concurrent appends
/// and a commit at a timestamp.
pub struct ParallelOneInTwoOutMessageProcessor {
    config: OperatorConfig,
    state_ids: Vec<u64>,
}

impl ParallelOneInTwoOutMessageProcessor {
    pub closed spec fn config_spec(&self) -> OperatorConfig {
        self.config
    }

    pub closed spec fn state_ids_spec(&self) -> Seq<u64> {
        self.state_ids@
    }

    /// A processor for the operator `config`, whose state is `state_id`.
    pub fn new(config: OperatorConfig, state_id: u64) -> (r: ParallelOneInTwoOutMessageProcessor)
        ensures
            r.config_spec() == config,
            r.state_ids_spec() == seq![state_id],
    {
        let mut state_ids: Vec<u64> = Vec::new();
        state_ids.push(state_id);
        assert(state_ids@ =~= seq![state_id]);
        ParallelOneInTwoOutMessageProcessor { config, state_ids }
    }

    pub fn operator_id(&self) -> (r: u64)
        ensures
            r == self.config_spec().id,
    {
        self.config.id
    }

    /// Which outputs get `Watermark(Top)` at cleanup: each one not closed.
    pub fn cleanup(&self, left_closed: bool, right_closed: bool) -> (r: (bool, bool))
        ensures
            r == (!left_closed, !right_closed),
    {
        (sends_top_watermark(left_closed), sends_top_watermark(right_closed))
    }
}

impl<T> OneInMessageProcessorT<T> for ParallelOneInTwoOutMessageProcessor {
    /// Fired deadlines are always disarmed: no handler runs.
    open spec fn disarms(&self, event: DeadlineEventModel, end_condition_held: bool) -> bool {
        true
    }

    /// A data event at priority `DATA_PRIORITY`, tagged `Parallel`, that
    /// writes no state.
    fn message_cb_event(&mut self, msg: Arc<Message<T>>) -> (r: OperatorEvent<Arc<Message<T>>>)
        ensures
            r.is_data_event(msg.timestamp_spec(), msg, false, seq![], OperatorType::Parallel),
            *final(self) == *old(self),
    {
        let timestamp = msg.timestamp().duplicate();
        OperatorEvent::new(
            timestamp,
            false,
            DATA_PRIORITY,
            Vec::new(),
            Vec::new(),
            Callback::Data { message: msg, stateful: false },
            OperatorType::Parallel,
        )
    }

    /// A watermark event that writes the state and commits it at the
    /// timestamp; with `flow_watermarks` it re-emits the watermark on both
    /// outputs at `FLOW_WATERMARK_PRIORITY`, else it runs at `DATA_PRIORITY`.
    fn watermark_cb_event(&mut self, timestamp: &Timestamp) -> (r: OperatorEvent<Arc<Message<T>>>)
        ensures
            OperatorEvent::<Arc<Message<T>>>::is_watermark_event(&r, timestamp@,
                old(self).config_spec().flow_watermarks, true, old(self).state_ids_spec(), OperatorType::Parallel),
            *final(self) == *old(self),
    {
        let flow = self.config.flow_watermarks;
        let priority = if flow { FLOW_WATERMARK_PRIORITY } else { DATA_PRIORITY };
        OperatorEvent::new(
            timestamp.duplicate(),
            true,
            priority,
            Vec::new(),
            copy_ids(&self.state_ids),
            Callback::<Arc<Message<T>>>::Watermark { flow_watermarks: flow, commit_state: true },
            OperatorType::Parallel,
        )
    }

    fn disarm_deadline(&self, event: &DeadlineEvent, end_condition_held: bool) -> (r: bool) {
        true
    }
}

/// Runs callbacks one at a time, the operator and its state each behind a
/// lock.
pub struct OneInTwoOutMessageProcessor {
    config: OperatorConfig,
    state_ids: Vec<u64>,
}

impl OneInTwoOutMessageProcessor {
    pub closed spec fn config_spec(&self) -> OperatorConfig {
        self.config
    }

    pub closed spec fn state_ids_spec(&self) -> Seq<u64> {
        self.state_ids@
    }

    /// A processor for the operator `config`, whose state is `state_id`.
    pub fn new(config: OperatorConfig, state_id: u64) -> (r: OneInTwoOutMessageProcessor)
        ensures
            r.config_spec() == config,
            r.state_ids_spec() == seq![state_id],
    {
        let mut state_ids: Vec<u64> = Vec::new();
        state_ids.push(state_id);
        assert(state_ids@ =~= seq![state_id]);
        OneInTwoOutMessageProcessor { config, state_ids }
    }

    pub fn operator_id(&self) -> (r: u64)
        ensures
            r == self.config_spec().id,
    {
        self.config.id
    }

    /// Which outputs get `Watermark(Top)` at cleanup: each one not closed.
    pub fn cleanup(&self, left_closed: bool, right_closed: bool) -> (r: (bool, bool))
        ensures
            r == (!left_closed, !right_closed),
    {
        (sends_top_watermark(left_closed), sends_top_watermark(right_closed))
    }
}

impl<T> OneInMessageProcessorT<T> for OneInTwoOutMessageProcessor {
    /// Fired deadlines are always disarmed: no handler runs.
    open spec fn disarms(&self, event: DeadlineEventModel, end_condition_held: bool) -> bool {
        true
    }

    /// A data event at priority `DATA_PRIORITY`, tagged `Sequential`, that
    /// writes no state.
    fn message_cb_event(&mut self, msg: Arc<Message<T>>) -> (r: OperatorEvent<Arc<Message<T>>>)
        ensures
            r.is_data_event(msg.timestamp_spec(), msg, false, seq![], OperatorType::Sequential),
            *final(self) == *old(self),
    {
        let timestamp = msg.timestamp().duplicate();
        OperatorEvent::new(
            timestamp,
            false,
            DATA_PRIORITY,
            Vec::new(),
            Vec::new(),
            Callback::Data { message: msg, stateful: false },
            OperatorType::Sequential,
        )
    }

    /// A watermark event that writes the state and commits it at the
    /// timestamp; with `flow_watermarks` it re-emits the watermark on both
    /// outputs at `FLOW_WATERMARK_PRIORITY`, else it runs at `DATA_PRIORITY`.
    fn watermark_cb_event(&mut self, timestamp: &Timestamp) -> (r: OperatorEvent<Arc<Message<T>>>)
        ensures
            OperatorEvent::<Arc<Message<T>>>::is_watermark_event(&r, timestamp@,
                old(self).config_spec().flow_watermarks, true, old(self).state_ids_spec(), OperatorType::Sequential),
            *final(self) == *old(self),
    {
        let flow = self.config.flow_watermarks;
        let priority = if flow { FLOW_WATERMARK_PRIORITY } else { DATA_PRIORITY };
        OperatorEvent::new(
            timestamp.duplicate(),
            true,
            priority,
            Vec::new(),
            copy_ids(&self.state_ids),
            Callback::<Arc<Message<T>>>::Watermark { flow_watermarks: flow, commit_state: true },
            OperatorType::Sequential,
        )
    }

    fn disarm_deadline(&self, event: &DeadlineEvent, end_condition_held: bool) -> (r: bool) {
        true
    }
}

} // verus!
