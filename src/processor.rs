//! Message processors: what an executor turns each inbound message into.
use vstd::prelude::*;

use std::sync::Arc;

use crate::deadline::{
    armed_deadlines, deadlines_to_arm, events_view, DeadlineEvent, DeadlineEventModel,
    SetupContext,
};
use crate::event::{Callback, OperatorEvent, DATA_PRIORITY};
use crate::message::Message;
use crate::timestamp::Timestamp;

verus! {

/// Turns the messages of one input stream into callback events.
pub trait OneInMessageProcessorT<T> {
    /// Whether the deadline `event` counts as met when its timer fires, given
    /// whether its end condition held on the relevant condition context.
    spec fn disarms(&self, event: DeadlineEventModel, end_condition_held: bool) -> bool;

    /// The event for a data message.
    fn message_cb_event(&mut self, msg: Arc<Message<T>>) -> (r: OperatorEvent<Arc<Message<T>>>)
        requires
            !msg.is_watermark_spec(),
        ensures
            r.timestamp@ == msg.timestamp_spec(),
            !r.is_watermark,
            r.priority == DATA_PRIORITY,
            r.callback == (Callback::Data { message: msg, stateful: false }),
    ;

    /// The event for a watermark at `timestamp`.
    fn watermark_cb_event(&mut self, timestamp: &Timestamp) -> (r: OperatorEvent<Arc<Message<T>>>)
        ensures
            r.timestamp@ == timestamp@,
            r.is_watermark,
            r.priority >= DATA_PRIORITY,
            r.callback is Watermark,
    ;

    /// The deadlines to arm for a message on `stream_id` at `timestamp`:
    /// every declaration that constrains the stream and whose start
    /// condition held (`started`), with its duration from `durations`.
    fn arm_deadlines(
        &self,
        setup_context: &SetupContext,
        stream_id: u64,
        timestamp: &Timestamp,
        started: &Vec<bool>,
        durations: &Vec<u64>,
    ) -> (r: Vec<DeadlineEvent>)
        requires
            started@.len() == setup_context.deadlines@.len(),
            durations@.len() == setup_context.deadlines@.len(),
        ensures
            events_view(r@) == armed_deadlines(
                setup_context.deadlines@,
                stream_id,
                timestamp@,
                started@,
                durations@,
                setup_context.deadlines@.len(),
            ),
    {
        deadlines_to_arm(setup_context, stream_id, timestamp, started, durations)
    }

    /// Whether the fired deadline `event` is disarmed (its handler skipped).
    fn disarm_deadline(&self, event: &DeadlineEvent, end_condition_held: bool) -> (r: bool)
        ensures
            r == self.disarms(event@, end_condition_held),
    ;
}

/// A message from one of the two inputs of a two-input operator.
#[derive(Debug, Clone)]
pub enum TwoInMessage<T, U> {
    Left(Arc<Message<T>>),
    Right(Arc<Message<U>>),
}

/// Turns the messages of two input streams into callback events.
pub trait TwoInMessageProcessorT<T, U> {
    /// The stateless event for a data message of the left input.
    fn left_stateless_cb_event(&self, msg: Arc<Message<T>>) -> (r: OperatorEvent<TwoInMessage<T, U>>)
        requires
            !msg.is_watermark_spec(),
        ensures
            r.timestamp@ == msg.timestamp_spec(),
            !r.is_watermark,
            r.priority == DATA_PRIORITY,
            r.callback == (Callback::Data { message: TwoInMessage::<T, U>::Left(msg), stateful: false }),
    ;

    /// The stateful event for a data message of the left input.
    fn left_stateful_cb_event(&self, msg: Arc<Message<T>>) -> (r: OperatorEvent<TwoInMessage<T, U>>)
        requires
            !msg.is_watermark_spec(),
        ensures
            r.timestamp@ == msg.timestamp_spec(),
            !r.is_watermark,
            r.priority == DATA_PRIORITY,
            r.callback == (Callback::Data { message: TwoInMessage::<T, U>::Left(msg), stateful: true }),
    ;

    /// The stateless event for a data message of the right input.
    fn right_stateless_cb_event(&self, msg: Arc<Message<U>>) -> (r: OperatorEvent<TwoInMessage<T, U>>)
        requires
            !msg.is_watermark_spec(),
        ensures
            r.timestamp@ == msg.timestamp_spec(),
            !r.is_watermark,
            r.priority == DATA_PRIORITY,
            r.callback == (Callback::Data { message: TwoInMessage::<T, U>::Right(msg), stateful: false }),
    ;

    /// The stateful event for a data message of the right input.
    fn right_stateful_cb_event(&self, msg: Arc<Message<U>>) -> (r: OperatorEvent<TwoInMessage<T, U>>)
        requires
            !msg.is_watermark_spec(),
        ensures
            r.timestamp@ == msg.timestamp_spec(),
            !r.is_watermark,
            r.priority == DATA_PRIORITY,
            r.callback == (Callback::Data { message: TwoInMessage::<T, U>::Right(msg), stateful: true }),
    ;

    /// The event for a merged watermark at `timestamp`.
    fn watermark_cb_event(&self, timestamp: &Timestamp) -> (r: OperatorEvent<TwoInMessage<T, U>>)
        ensures
            r.timestamp@ == timestamp@,
            r.is_watermark,
            r.priority >= DATA_PRIORITY,
            r.callback is Watermark,
    ;
}

} // verus!
