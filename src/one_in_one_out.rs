//! The executor of an operator with one input and one output.
use vstd::prelude::*;

use std::sync::Arc;

use crate::config::OperatorConfig;
use crate::deadline::{DeadlineEvent, DeadlineEventModel};
use crate::event::{copy_ids, Callback, OperatorEvent, OperatorType, DATA_PRIORITY, FLOW_WATERMARK_PRIORITY};
use crate::helper::OperatorExecutorHelper;
use crate::lifecycle::{sends_top_watermark, Lifecycle, LifecycleAction, LifecycleInput, LifecycleModel, Phase, lifecycle_step};
use crate::message::Message;
use crate::processor::OneInMessageProcessorT;
use crate::timer::DeadlineReceiver;
use crate::timestamp::Timestamp;

verus! {

pub struct OneInOneOutExecutor {
    config: OperatorConfig,
    state_ids: Vec<u64>,
    read_stream_id: u64,
    helper: Option<OperatorExecutorHelper>,
    lifecycle: Lifecycle,
}

impl OneInOneOutExecutor {
    pub closed spec fn config_spec(&self) -> OperatorConfig {
        self.config
    }

    pub closed spec fn state_ids_spec(&self) -> Seq<u64> {
        self.state_ids@
    }

    pub closed spec fn read_stream_id_spec(&self) -> u64 {
        self.read_stream_id
    }

    pub closed spec fn helper_spec(&self) -> Option<OperatorExecutorHelper> {
        self.helper
    }

    pub closed spec fn lifecycle_spec(&self) -> LifecycleModel {
        self.lifecycle@
    }

    /// An executor in `Initialize` holding a fresh helper, and the receiver
    /// of the helper's fired deadlines. `state_id` identifies the operator's
    /// state, which watermark callbacks write.
    pub fn new(config: OperatorConfig, read_stream_id: u64, state_id: u64) -> (r: (OneInOneOutExecutor, DeadlineReceiver))
        ensures
            r.0.config_spec() == config,
            r.0.state_ids_spec() == seq![state_id],
            r.0.read_stream_id_spec() == read_stream_id,
            r.0.helper_spec() matches Some(h) && h.wf() && h.id() == config.id && h.active_keys().len() == 0,
            r.0.lifecycle_spec() == (LifecycleModel { operator_id: config.id, has_inputs: true, phase: Phase::Initialize }),
    {
        let (helper, receiver) = OperatorExecutorHelper::new(config.id);
        let lifecycle = Lifecycle::new(config.id, true);
        let mut state_ids: Vec<u64> = Vec::new();
        state_ids.push(state_id);
        assert(state_ids@ =~= seq![state_id]);
        (OneInOneOutExecutor { config, state_ids, read_stream_id, helper: Some(helper), lifecycle }, receiver)
    }

    pub fn operator_id(&self) -> (r: u64)
        ensures
            r == self.config_spec().id,
    {
        self.config.id
    }

    pub fn read_stream_id(&self) -> (r: u64)
        ensures
            r == self.read_stream_id_spec(),
    {
        self.read_stream_id
    }

    /// Takes the helper out for the stream-processing loop.
    pub fn take_helper(&mut self) -> (r: Option<OperatorExecutorHelper>)
        ensures
            r == old(self).helper_spec(),
            final(self).helper_spec() is None,
            final(self).config_spec() == old(self).config_spec(),
            final(self).state_ids_spec() == old(self).state_ids_spec(),
            final(self).read_stream_id_spec() == old(self).read_stream_id_spec(),
            final(self).lifecycle_spec() == old(self).lifecycle_spec(),
    {
        self.helper.take()
    }

    /// Returns the helper after the loop.
    pub fn return_helper(&mut self, helper: OperatorExecutorHelper)
        ensures
            final(self).helper_spec() == Some(helper),
            final(self).config_spec() == old(self).config_spec(),
            final(self).state_ids_spec() == old(self).state_ids_spec(),
            final(self).read_stream_id_spec() == old(self).read_stream_id_spec(),
            final(self).lifecycle_spec() == old(self).lifecycle_spec(),
    {
        self.helper = Some(helper);
    }

    /// Advances the lifecycle by one input.
    pub fn step(&mut self, input: LifecycleInput) -> (r: LifecycleAction)
        ensures
            (final(self).lifecycle_spec(), r) == lifecycle_step(old(self).lifecycle_spec(), input),
            final(self).config_spec() == old(self).config_spec(),
            final(self).state_ids_spec() == old(self).state_ids_spec(),
            final(self).read_stream_id_spec() == old(self).read_stream_id_spec(),
            final(self).helper_spec() == old(self).helper_spec(),
    {
        self.lifecycle.step(input)
    }

    /// Whether cleanup sends `Watermark(Top)` on the output: exactly when it
    /// is not closed.
    pub fn cleanup(&self, write_stream_closed: bool) -> (r: bool)
        ensures
            r == !write_stream_closed,
    {
        sends_top_watermark(write_stream_closed)
    }
}

impl<T> OneInMessageProcessorT<T> for OneInOneOutExecutor {
    /// Disarmed exactly when the end condition held on the output stream's
    /// statistics at the deadline's timestamp.
    open spec fn disarms(&self, event: DeadlineEventModel, end_condition_held: bool) -> bool {
        end_condition_held
    }

    /// A read-only data event at priority `DATA_PRIORITY` that touches no
    /// state.
    fn message_cb_event(&mut self, msg: Arc<Message<T>>) -> (r: OperatorEvent<Arc<Message<T>>>)
        ensures
            r.is_data_event(msg.timestamp_spec(), msg, false, seq![], OperatorType::ReadOnly),
            *final(self) == *old(self),
    {
        let timestamp = msg.timestamp().duplicate();
        OperatorEvent::new(
            timestamp,
            false,
            DATA_PRIORITY,
            Vec::new(),
            Vec::new(),
            Callback::Data { message: msg, stateful: false },
            OperatorType::ReadOnly,
        )
    }

    /// A watermark event writing the operator's state; with
    /// `flow_watermarks` it re-emits the watermark at
    /// `FLOW_WATERMARK_PRIORITY`, else it runs at `DATA_PRIORITY`.
    fn watermark_cb_event(&mut self, timestamp: &Timestamp) -> (r: OperatorEvent<Arc<Message<T>>>)
        ensures
            OperatorEvent::<Arc<Message<T>>>::is_watermark_event(&r, timestamp@,
                old(self).config_spec().flow_watermarks, false, old(self).state_ids_spec(), OperatorType::ReadOnly),
            *final(self) == *old(self),
    {
        let flow = self.config.flow_watermarks;
        let priority = if flow { FLOW_WATERMARK_PRIORITY } else { DATA_PRIORITY };
        OperatorEvent::new(
            timestamp.duplicate(),
            true,
            priority,
            Vec::new(),
            copy_ids(&self.state_ids),
            Callback::<Arc<Message<T>>>::Watermark { flow_watermarks: flow, commit_state: false },
            OperatorType::ReadOnly,
        )
    }

    fn disarm_deadline(&self, event: &DeadlineEvent, end_condition_held: bool) -> (r: bool) {
        end_condition_held
    }
}

} // verus!
