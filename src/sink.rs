//! The message processor of an operator with one input and no output.
use vstd::prelude::*;

use std::sync::Arc;

use crate::config::OperatorConfig;
use crate::deadline::{DeadlineEvent, DeadlineEventModel};
use crate::event::{copy_ids, Callback, OperatorEvent, OperatorType, DATA_PRIORITY};
use crate::message::Message;
use crate::processor::OneInMessageProcessorT;
use crate::timestamp::Timestamp;

verus! {

/// A sink never re-emits watermarks. A stateful sink's watermark callback
/// writes its state; a stateless one touches none.
pub struct SinkMessageProcessor {
    config: OperatorConfig,
    state_ids: Vec<u64>,
}

impl SinkMessageProcessor {
    pub closed spec fn config_spec(&self) -> OperatorConfig {
        self.config
    }

    pub closed spec fn state_ids_spec(&self) -> Seq<u64> {
        self.state_ids@
    }

    /// A processor for the sink `config`; `state_id` is its state, if any.
    pub fn new(config: OperatorConfig, state_id: Option<u64>) -> (r: SinkMessageProcessor)
        ensures
            r.config_spec() == config,
            r.state_ids_spec() == match state_id {
                Some(id) => seq![id],
                None => Seq::<u64>::empty(),
            },
    {
        let mut state_ids: Vec<u64> = Vec::new();
        if let Some(id) = state_id {
            state_ids.push(id);
            assert(state_ids@ =~= seq![id]);
        } else {
            assert(state_ids@ =~= Seq::<u64>::empty());
        }
        SinkMessageProcessor { config, state_ids }
    }

    pub fn operator_id(&self) -> (r: u64)
        ensures
            r == self.config_spec().id,
    {
        self.config.id
    }
}

impl<T> OneInMessageProcessorT<T> for SinkMessageProcessor {
    /// Fired deadlines are always disarmed: no handler runs.
    open spec fn disarms(&self, event: DeadlineEventModel, end_condition_held: bool) -> bool {
        true
    }

    fn message_cb_event(&mut self, msg: Arc<Message<T>>) -> (r: OperatorEvent<Arc<Message<T>>>)
        ensures
            r.is_data_event(msg.timestamp_spec(), msg, false, seq![], OperatorType::ReadOnly),
            *final(self) == *old(self),
    {
        let timestamp = msg.timestamp().duplicate();
        OperatorEvent::new(
            timestamp,
            false,
            DATA_PRIORITY,
            Vec::new(),
            Vec::new(),
            Callback::Data { message: msg, stateful: false },
            OperatorType::ReadOnly,
        )
    }

    fn watermark_cb_event(&mut self, timestamp: &Timestamp) -> (r: OperatorEvent<Arc<Message<T>>>)
        ensures
            OperatorEvent::<Arc<Message<T>>>::is_watermark_event(&r, timestamp@, false, false,
                old(self).state_ids_spec(), OperatorType::ReadOnly),
            *final(self) == *old(self),
    {
        OperatorEvent::new(
            timestamp.duplicate(),
            true,
            DATA_PRIORITY,
            Vec::new(),
            copy_ids(&self.state_ids),
            Callback::<Arc<Message<T>>>::Watermark { flow_watermarks: false, commit_state: false },
            OperatorType::ReadOnly,
        )
    }

    fn disarm_deadline(&self, event: &DeadlineEvent, end_condition_held: bool) -> (r: bool) {
        true
    }
}

} // verus!
