//! The message processor of an operator with two inputs and one output.
use vstd::prelude::*;

use std::sync::Arc;

use crate::config::OperatorConfig;
use crate::event::{copy_ids, Callback, OperatorEvent, OperatorType, DATA_PRIORITY, FLOW_WATERMARK_PRIORITY};
use crate::lifecycle::sends_top_watermark;
use crate::message::Message;
use crate::processor::{TwoInMessage, TwoInMessageProcessorT};
use crate::timestamp::Timestamp;

verus! {

/// Stateless data callbacks are read-only; stateful data callbacks and the
/// watermark callback write the operator's state.
pub struct TwoInOneOutMessageProcessor {
    config: OperatorConfig,
    state_ids: Vec<u64>,
}

impl TwoInOneOutMessageProcessor {
    pub closed spec fn config_spec(&self) -> OperatorConfig {
        self.config
    }

    pub closed spec fn state_ids_spec(&self) -> Seq<u64> {
        self.state_ids@
    }

    /// A processor for the operator `config`, whose state is `state_id`.
    pub fn new(config: OperatorConfig, state_id: u64) -> (r: TwoInOneOutMessageProcessor)
        ensures
            r.config_spec() == config,
            r.state_ids_spec() == seq![state_id],
    {
        let mut state_ids: Vec<u64> = Vec::new();
        state_ids.push(state_id);
        assert(state_ids@ =~= seq![state_id]);
        TwoInOneOutMessageProcessor { config, state_ids }
    }

    pub fn operator_id(&self) -> (r: u64)
        ensures
            r == self.config_spec().id,
    {
        self.config.id
    }

    /// Whether cleanup sends `Watermark(Top)` on the output: exactly when it
    /// is not closed.
    pub fn cleanup(&self, write_stream_closed: bool) -> (r: bool)
        ensures
            r == !write_stream_closed,
    {
        sends_top_watermark(write_stream_closed)
    }

    fn data_event<T, U>(&self, timestamp: Timestamp, message: TwoInMessage<T, U>, stateful: bool) -> (r: OperatorEvent<TwoInMessage<T, U>>)
        ensures
            r.is_data_event(timestamp@, message, stateful,
                if stateful { self.state_ids_spec() } else { seq![] },
                if stateful { OperatorType::Sequential } else { OperatorType::ReadOnly }),
    {
        let write_ids = if stateful { copy_ids(&self.state_ids) } else { Vec::new() };
        let ty = if stateful { OperatorType::Sequential } else { OperatorType::ReadOnly };
        proof {
            if !stateful {
                assert(write_ids@ =~= seq![]);
            }
        }
        OperatorEvent::new(timestamp, false, DATA_PRIORITY, Vec::new(), write_ids,
            Callback::Data { message, stateful }, ty)
    }
}

impl<T, U> TwoInMessageProcessorT<T, U> for TwoInOneOutMessageProcessor {
    fn left_stateless_cb_event(&self, msg: Arc<Message<T>>) -> (r: OperatorEvent<TwoInMessage<T, U>>)
        ensures
            OperatorEvent::<TwoInMessage<T, U>>::is_data_event(&r, msg.timestamp_spec(), TwoInMessage::<T, U>::Left(msg), false, seq![], OperatorType::ReadOnly),
    {
        let t = msg.timestamp().duplicate();
        self.data_event(t, TwoInMessage::Left(msg), false)
    }

    fn left_stateful_cb_event(&self, msg: Arc<Message<T>>) -> (r: OperatorEvent<TwoInMessage<T, U>>)
        ensures
            OperatorEvent::<TwoInMessage<T, U>>::is_data_event(&r, msg.timestamp_spec(), TwoInMessage::<T, U>::Left(msg), true, self.state_ids_spec(), OperatorType::Sequential),
    {
        let t = msg.timestamp().duplicate();
        self.data_event(t, TwoInMessage::Left(msg), true)
    }

    fn right_stateless_cb_event(&self, msg: Arc<Message<U>>) -> (r: OperatorEvent<TwoInMessage<T, U>>)
        ensures
            OperatorEvent::<TwoInMessage<T, U>>::is_data_event(&r, msg.timestamp_spec(), TwoInMessage::<T, U>::Right(msg), false, seq![], OperatorType::ReadOnly),
    {
        let t = msg.timestamp().duplicate();
        self.data_event(t, TwoInMessage::Right(msg), false)
    }

    fn right_stateful_cb_event(&self, msg: Arc<Message<U>>) -> (r: OperatorEvent<TwoInMessage<T, U>>)
        ensures
            OperatorEvent::<TwoInMessage<T, U>>::is_data_event(&r, msg.timestamp_spec(), TwoInMessage::<T, U>::Right(msg), true, self.state_ids_spec(), OperatorType::Sequential),
    {
        let t = msg.timestamp().duplicate();
        self.data_event(t, TwoInMessage::Right(msg), true)
    }

    /// With `flow_watermarks` the merged watermark is re-emitted at
    /// `FLOW_WATERMARK_PRIORITY`; else the event runs at `DATA_PRIORITY`.
    fn watermark_cb_event(&self, timestamp: &Timestamp) -> (r: OperatorEvent<TwoInMessage<T, U>>)
        ensures
            OperatorEvent::<TwoInMessage<T, U>>::is_watermark_event(&r, timestamp@,
                self.config_spec().flow_watermarks, false, self.state_ids_spec(), OperatorType::ReadOnly),
    {
        let flow = self.config.flow_watermarks;
        let priority = if flow { FLOW_WATERMARK_PRIORITY } else { DATA_PRIORITY };
        OperatorEvent::new(
            timestamp.duplicate(),
            true,
            priority,
            Vec::new(),
            copy_ids(&self.state_ids),
            Callback::<TwoInMessage<T, U>>::Watermark { flow_watermarks: flow, commit_state: false },
            OperatorType::ReadOnly,
        )
    }
}

} // verus!
