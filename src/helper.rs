//! The per-operator helper: turns inbound messages into callback events and
//! keeps at most one armed deadline per `(stream, timestamp)`.
use vstd::prelude::*;

use std::sync::Arc;

use futures_delay_queue::DelayHandle;

use crate::deadline::{
    armed_deadlines, events_view, DeadlineEvent, DeadlineEventModel, SetupContext,
};
use crate::event::{Callback, OperatorEvent, DATA_PRIORITY};
use crate::message::Message;
use crate::notification::EventNotification;
use crate::processor::{OneInMessageProcessorT, TwoInMessage, TwoInMessageProcessorT};
use crate::watermark::{merge_step, MergeModel, WatermarkMerger};
use crate::timer::{inserted, new_deadline_queue, schedule_deadline, DeadlineQueue, DeadlineReceiver};
use crate::timestamp::{Timestamp, TimestampModel};

verus! {

/// The key under which an armed deadline is recorded.
pub type DeadlineKey = (u64, TimestampModel);

pub open spec fn deadline_key(e: DeadlineEventModel) -> DeadlineKey {
    (e.stream_id, e.timestamp)
}

/// The active keys after arming `events` in order from `keys`: an event whose
/// key is already active is skipped.
pub open spec fn arm_keys(keys: Seq<DeadlineKey>, events: Seq<DeadlineEventModel>) -> Seq<DeadlineKey>
    decreases events.len(),
{
    if events.len() == 0 {
        keys
    } else {
        let prev = arm_keys(keys, events.drop_last());
        let k = deadline_key(events.last());
        if prev.contains(k) {
            prev
        } else {
            prev.push(k)
        }
    }
}

/// The timers started when arming `events` in order from `keys`: one for
/// each event whose key is not active yet, carrying that event and its
/// duration. An event whose key is already active, or was armed earlier in
/// the batch, starts none.
pub open spec fn arm_schedules(keys: Seq<DeadlineKey>, events: Seq<DeadlineEventModel>) -> Seq<(DeadlineEventModel, u64)>
    decreases events.len(),
{
    if events.len() == 0 {
        seq![]
    } else {
        let prev = arm_schedules(keys, events.drop_last());
        let e = events.last();
        if arm_keys(keys, events.drop_last()).contains(deadline_key(e)) {
            prev
        } else {
            prev.push((e, e.duration_ms))
        }
    }
}

pub open spec fn schedule_key(s: (DeadlineEventModel, u64)) -> DeadlineKey {
    deadline_key(s.0)
}

/// `keys` without `key`.
pub open spec fn remove_key(keys: Seq<DeadlineKey>, key: DeadlineKey) -> Seq<DeadlineKey>
    decreases keys.len(),
{
    if keys.len() == 0 {
        keys
    } else {
        let prev = remove_key(keys.drop_last(), key);
        if keys.last() == key {
            prev
        } else {
            prev.push(keys.last())
        }
    }
}

/// An armed deadline and the handle of its timer.
struct ActiveDeadline {
    stream_id: u64,
    timestamp: Timestamp,
    handle: DelayHandle,
}

/// What happened when a deadline's timer fired.
#[derive(Debug, Clone, Copy, PartialEq, Eq, Structural)]
pub struct DeadlineOutcome {
    /// The handler is to be invoked: the processor did not disarm the deadline.
    pub invoke_handler: bool,
    /// The deadline was recorded as active (else a warning is due).
    pub key_found: bool,
}

/// Events to insert into the lattice in one batch, and the notification to
/// send to the event runners afterwards.
pub struct EventBatch<M> {
    pub events: Vec<OperatorEvent<M>>,
    pub notification: EventNotification,
}

pub struct OperatorExecutorHelper {
    operator_id: u64,
    deadline_queue: DeadlineQueue,
    active_deadlines: Vec<ActiveDeadline>,
}

impl OperatorExecutorHelper {
    /// Keys of the armed deadlines, in arming order.
    pub closed spec fn active_keys(&self) -> Seq<DeadlineKey> {
        self.active_deadlines@.map_values(|a: ActiveDeadline| (a.stream_id, a.timestamp@))
    }

    /// Every timer started on the deadline queue, with its delay, in order.
    pub closed spec fn scheduled(&self) -> Seq<(DeadlineEventModel, u64)> {
        inserted(self.deadline_queue)
    }

    pub closed spec fn id(&self) -> u64 {
        self.operator_id
    }

    /// At most one armed deadline per key.
    pub open spec fn wf(&self) -> bool {
        self.active_keys().no_duplicates()
    }

    /// A helper with no armed deadline, and the receiver on which its
    /// deadlines come out when their timers fire.
    pub fn new(operator_id: u64) -> (r: (OperatorExecutorHelper, DeadlineReceiver))
        ensures
            r.0.wf(),
            r.0.active_keys() == Seq::<DeadlineKey>::empty(),
            r.0.scheduled() == Seq::<(DeadlineEventModel, u64)>::empty(),
            r.0.id() == operator_id,
    {
        let (deadline_queue, receiver) = new_deadline_queue();
        let helper = OperatorExecutorHelper { operator_id, deadline_queue, active_deadlines: Vec::new() };
        assert(helper.active_keys() =~= Seq::<DeadlineKey>::empty());
        (helper, receiver)
    }

    pub fn operator_id(&self) -> (r: u64)
        ensures
            r == self.id(),
    {
        self.operator_id
    }

    pub fn num_active_deadlines(&self) -> (r: usize)
        ensures
            r == self.active_keys().len(),
    {
        self.active_deadlines.len()
    }

    /// The position of the deadline armed for `(stream_id, timestamp)`.
    fn find_active(&self, stream_id: u64, timestamp: &Timestamp) -> (r: Option<usize>)
        ensures
            match r {
                Some(i) => i < self.active_keys().len() && self.active_keys()[i as int] == (stream_id, timestamp@),
                None => !self.active_keys().contains((stream_id, timestamp@)),
            },
    {
        let mut i: usize = 0;
        while i < self.active_deadlines.len()
            invariant
                i <= self.active_keys().len(),
                self.active_keys().len() == self.active_deadlines@.len(),
                forall|j: int| 0 <= j < i ==> self.active_keys()[j] != (stream_id, timestamp@),
            decreases self.active_deadlines.len() - i,
        {
            let a = &self.active_deadlines[i];
            assert(self.active_keys()[i as int] == (a.stream_id, a.timestamp@));
            if a.stream_id == stream_id && a.timestamp.same_as(timestamp) {
                return Some(i);
            }
            i = i + 1;
        }
        None
    }

    /// Whether a deadline is armed for `(stream_id, timestamp)`.
    pub fn has_active_deadline(&self, stream_id: u64, timestamp: &Timestamp) -> (r: bool)
        ensures
            r == self.active_keys().contains((stream_id, timestamp@)),
    {
        self.find_active(stream_id, timestamp).is_some()
    }

    /// Arms each of `deadlines` whose key has no armed deadline yet: starts
    /// its timer and records its key. Never arms a second deadline for a key.
    pub fn manage_deadlines(&mut self, deadlines: Vec<DeadlineEvent>)
        requires
            old(self).wf(),
        ensures
            final(self).wf(),
            final(self).id() == old(self).id(),
            final(self).active_keys() == arm_keys(old(self).active_keys(), events_view(deadlines@)),
            final(self).scheduled() == old(self).scheduled() + arm_schedules(
                old(self).active_keys(),
                events_view(deadlines@),
            ),
    {
        let ghost keys0 = self.active_keys();
        let ghost sched0 = self.scheduled();
        let mut i: usize = 0;
        while i < deadlines.len()
            invariant
                i <= deadlines@.len(),
                self.wf(),
                self.id() == old(self).id(),
                keys0 == old(self).active_keys(),
                self.active_keys() == arm_keys(keys0, events_view(deadlines@).subrange(0, i as int)),
                sched0 == old(self).scheduled(),
                self.scheduled() == sched0 + arm_schedules(keys0, events_view(deadlines@).subrange(0, i as int)),
            decreases deadlines.len() - i,
        {
            let ev = &deadlines[i];
            let ghost prefix = events_view(deadlines@).subrange(0, i as int);
            let ghost next = events_view(deadlines@).subrange(0, i + 1);
            assert(next.drop_last() =~= prefix);
            assert(next.last() == ev@);
            if self.find_active(ev.stream_id, &ev.timestamp).is_none() {
                let ghost sched_before = self.scheduled();
                let handle = schedule_deadline(&mut self.deadline_queue, ev.duplicate(), ev.duration_ms);
                assert(self.scheduled() =~= sched_before.push((ev@, ev.duration_ms)));
                let ghost before = self.active_keys();
                self.active_deadlines.push(
                    ActiveDeadline { stream_id: ev.stream_id, timestamp: ev.timestamp.duplicate(), handle },
                );
                assert(self.active_keys() =~= before.push((ev.stream_id, ev.timestamp@)));
            }
            i = i + 1;
        }
        assert(events_view(deadlines@).subrange(0, deadlines@.len() as int) =~= events_view(deadlines@));
    }

    /// A deadline's timer fired. The processor decides whether the deadline
    /// is disarmed (its end condition was met); if not, the handler is to be
    /// invoked. Either way the key is no longer armed.
    pub fn process_deadline<T, P: OneInMessageProcessorT<T>>(
        &mut self,
        processor: &P,
        event: &DeadlineEvent,
        end_condition_held: bool,
    ) -> (r: DeadlineOutcome)
        requires
            old(self).wf(),
        ensures
            final(self).wf(),
            final(self).id() == old(self).id(),
            r.invoke_handler == !processor.disarms(event@, end_condition_held),
            r.key_found == old(self).active_keys().contains(deadline_key(event@)),
            final(self).active_keys() == remove_key(old(self).active_keys(), deadline_key(event@)),
            final(self).scheduled() == old(self).scheduled(),
    {
        let disarmed = processor.disarm_deadline(event, end_condition_held);
        let ghost key = deadline_key(event@);
        let ghost keys = self.active_keys();
        let found = self.find_active(event.stream_id, &event.timestamp);
        match found {
            Some(i) => {
                self.active_deadlines.remove(i);
                proof {
                    assert(self.active_keys() =~= keys.remove(i as int));
                    lemma_remove_unique(keys, i as int);
                }
                DeadlineOutcome { invoke_handler: !disarmed, key_found: true }
            },
            None => {
                proof {
                    lemma_remove_absent(keys, key);
                }
                DeadlineOutcome { invoke_handler: !disarmed, key_found: false }
            },
        }
    }

    /// A message arrived on the read stream `stream_id`: the event for it (a
    /// data event, or a watermark event), and the deadlines that the message
    /// starts, armed. `started` and `durations` are the start conditions and
    /// durations of the declarations in `setup_context`, evaluated for the
    /// message's timestamp.
    pub fn process_stream_message<T, P: OneInMessageProcessorT<T>>(
        &mut self,
        processor: &mut P,
        setup_context: &SetupContext,
        stream_id: u64,
        msg: Arc<Message<T>>,
        started: &Vec<bool>,
        durations: &Vec<u64>,
    ) -> (r: EventBatch<Arc<Message<T>>>)
        requires
            old(self).wf(),
            started@.len() == setup_context.deadlines@.len(),
            durations@.len() == setup_context.deadlines@.len(),
        ensures
            final(self).wf(),
            final(self).id() == old(self).id(),
            final(self).active_keys() == arm_keys(
                old(self).active_keys(),
                armed_deadlines(
                    setup_context.deadlines@,
                    stream_id,
                    msg.timestamp_spec(),
                    started@,
                    durations@,
                    setup_context.deadlines@.len(),
                ),
            ),
            final(self).scheduled() == old(self).scheduled() + arm_schedules(
                old(self).active_keys(),
                armed_deadlines(
                    setup_context.deadlines@,
                    stream_id,
                    msg.timestamp_spec(),
                    started@,
                    durations@,
                    setup_context.deadlines@.len(),
                ),
            ),
            r.events@.len() == 1,
            r.events@[0].timestamp@ == msg.timestamp_spec(),
            !msg.is_watermark_spec() ==> r.events@[0].priority == DATA_PRIORITY,
            msg.is_watermark_spec() ==> r.events@[0].priority >= DATA_PRIORITY,
            r.events@[0].is_watermark == msg.is_watermark_spec(),
            !msg.is_watermark_spec() ==> r.events@[0].callback == (Callback::Data { message: msg, stateful: false }),
            msg.is_watermark_spec() ==> r.events@[0].callback is Watermark,
            r.notification == EventNotification::AddedEvents(old(self).id()),
    {
        let timestamp = msg.timestamp().duplicate();
        let event = if msg.is_watermark() {
            processor.watermark_cb_event(&timestamp)
        } else {
            processor.message_cb_event(msg)
        };
        let deadline_events = processor.arm_deadlines(setup_context, stream_id, &timestamp, started, durations);
        self.manage_deadlines(deadline_events);
        let mut events: Vec<OperatorEvent<Arc<Message<T>>>> = Vec::new();
        events.push(event);
        EventBatch { events, notification: EventNotification::AddedEvents(self.operator_id) }
    }

    /// A message arrived on one input of a two-input operator. Data gives a
    /// stateless and a stateful event for its side. A watermark updates the
    /// merge and gives one watermark event at the new merged watermark when
    /// that advances, and no event otherwise.
    pub fn process_two_streams_message<T, U, P: TwoInMessageProcessorT<T, U>>(
        &self,
        processor: &P,
        merger: &mut WatermarkMerger,
        msg: TwoInMessage<T, U>,
    ) -> (r: EventBatch<TwoInMessage<T, U>>)
        ensures
            r.notification == EventNotification::AddedEvents(self.id()),
            match msg {
                TwoInMessage::Left(m) => two_in_outcome(
                    old(merger)@, final(merger)@, r.events@, true, m.is_watermark_spec(), m.timestamp_spec(), msg),
                TwoInMessage::Right(m) => two_in_outcome(
                    old(merger)@, final(merger)@, r.events@, false, m.is_watermark_spec(), m.timestamp_spec(), msg),
            },
    {
        let mut events: Vec<OperatorEvent<TwoInMessage<T, U>>> = Vec::new();
        match msg {
            TwoInMessage::Left(m) => {
                if m.is_watermark() {
                    let t = m.timestamp().duplicate();
                    if let Some(merged) = merger.on_watermark(true, t) {
                        events.push(processor.watermark_cb_event(&merged));
                    }
                } else {
                    let shared = share(&m);
                    events.push(processor.left_stateless_cb_event(shared));
                    events.push(processor.left_stateful_cb_event(m));
                }
            },
            TwoInMessage::Right(m) => {
                if m.is_watermark() {
                    let t = m.timestamp().duplicate();
                    if let Some(merged) = merger.on_watermark(false, t) {
                        events.push(processor.watermark_cb_event(&merged));
                    }
                } else {
                    let shared = share(&m);
                    events.push(processor.right_stateless_cb_event(shared));
                    events.push(processor.right_stateful_cb_event(m));
                }
            },
        }
        EventBatch { events, notification: EventNotification::AddedEvents(self.operator_id) }
    }
}

/// What a two-input step did with a message `msg` from the left
/// (`from_left`) or right input, at `t`, that is a watermark or not.
pub open spec fn two_in_outcome<T, U>(
    before: MergeModel,
    after: MergeModel,
    events: Seq<OperatorEvent<TwoInMessage<T, U>>>,
    from_left: bool,
    is_watermark: bool,
    t: TimestampModel,
    msg: TwoInMessage<T, U>,
) -> bool {
    if is_watermark {
        let (next, emitted) = merge_step(before, from_left, t);
        &&& after == next
        &&& match emitted {
            Some(m) => events.len() == 1 && events[0].is_watermark && events[0].timestamp@ == m
                && events[0].callback is Watermark && events[0].priority >= DATA_PRIORITY,
            None => events.len() == 0,
        }
    } else {
        &&& after == before
        &&& events.len() == 2
        &&& events[0].callback == (Callback::Data { message: msg, stateful: false })
        &&& events[1].callback == (Callback::Data { message: msg, stateful: true })
        &&& events[0].timestamp@ == t && events[1].timestamp@ == t
        &&& !events[0].is_watermark && !events[1].is_watermark
        &&& events[0].priority == DATA_PRIORITY && events[1].priority == DATA_PRIORITY
    }
}

/// Relies on `Arc::clone`: a second pointer to the same allocation, so the
/// same value.
#[verifier::external_body]
fn share<A>(a: &Arc<A>) -> (r: Arc<A>)
    ensures
        r == *a,
{
    Arc::clone(a)
}

/// Arming keeps at most one armed deadline per `(stream, timestamp)`, and
/// after arming, the key of every armed event is active.
pub proof fn lemma_arming_keeps_keys_unique(keys: Seq<DeadlineKey>, events: Seq<DeadlineEventModel>)
    requires
        keys.no_duplicates(),
    ensures
        arm_keys(keys, events).no_duplicates(),
        forall|i: int| 0 <= i < events.len() ==> arm_keys(keys, events).contains(deadline_key(#[trigger] events[i])),
        forall|k: DeadlineKey| keys.contains(k) ==> arm_keys(keys, events).contains(k),
    decreases events.len(),
{
    if events.len() > 0 {
        let init = events.drop_last();
        lemma_arming_keeps_keys_unique(keys, init);
        let prev = arm_keys(keys, init);
        let k = deadline_key(events.last());
        if !prev.contains(k) {
            assert(prev.push(k)[prev.len() as int] == k);
            assert forall|j: int| 0 <= j < prev.len() implies prev.push(k)[j] == prev[j] by {}
        }
        assert forall|i: int| 0 <= i < events.len() implies arm_keys(keys, events).contains(deadline_key(#[trigger] events[i])) by {
            if i < events.len() - 1 {
                assert(init[i] == events[i]);
                let j = choose|j: int| 0 <= j < prev.len() && prev[j] == deadline_key(init[i]);
                if !prev.contains(k) {
                    assert(prev.push(k)[j] == prev[j]);
                }
            } else if !prev.contains(k) {
                assert(prev.push(k)[prev.len() as int] == k);
            }
        }
        assert forall|kk: DeadlineKey| keys.contains(kk) implies arm_keys(keys, events).contains(kk) by {
            let j = choose|j: int| 0 <= j < prev.len() && prev[j] == kk;
            if !prev.contains(k) {
                assert(prev.push(k)[j] == prev[j]);
            }
        }
    }
}

/// Arming the same deadline event twice, in one batch or in two, leaves
/// the same armed deadlines and starts the same timers as arming it once:
/// one timer, with the event's duration, when its key was not active, and
/// none when it was.
pub proof fn lemma_arming_is_idempotent(keys: Seq<DeadlineKey>, event: DeadlineEventModel)
    requires
        keys.no_duplicates(),
    ensures
        arm_keys(arm_keys(keys, seq![event]), seq![event]) == arm_keys(keys, seq![event]),
        arm_keys(keys, seq![event, event]) == arm_keys(keys, seq![event]),
        arm_keys(keys, seq![event]).contains(deadline_key(event)),
        arm_keys(keys, seq![event]).no_duplicates(),
        arm_schedules(arm_keys(keys, seq![event]), seq![event]) == Seq::<(DeadlineEventModel, u64)>::empty(),
        arm_schedules(keys, seq![event, event]) == arm_schedules(keys, seq![event]),
        !keys.contains(deadline_key(event)) ==> arm_schedules(keys, seq![event]) == seq![(event, event.duration_ms)],
        keys.contains(deadline_key(event)) ==> arm_schedules(keys, seq![event]) == Seq::<(DeadlineEventModel, u64)>::empty(),
{
    let once = arm_keys(keys, seq![event]);
    assert(seq![event].drop_last() =~= Seq::<DeadlineEventModel>::empty());
    assert(seq![event, event].drop_last() =~= seq![event]);
    lemma_arming_keeps_keys_unique(keys, seq![event]);
    assert(once.contains(deadline_key(seq![event][0])));
    assert(arm_keys(once, Seq::<DeadlineEventModel>::empty()) == once);
    assert(seq![event].last() == event);
    assert(seq![event, event].last() == event);
    assert(arm_schedules(keys, Seq::<DeadlineEventModel>::empty()) == Seq::<(DeadlineEventModel, u64)>::empty());
    assert(arm_schedules(once, Seq::<DeadlineEventModel>::empty()) == Seq::<(DeadlineEventModel, u64)>::empty());
    assert(arm_keys(keys, Seq::<DeadlineEventModel>::empty()) == keys);
    assert(seq![(event, event.duration_ms)] =~= Seq::<(DeadlineEventModel, u64)>::empty().push((event, event.duration_ms)));
}

/// Arming starts exactly one timer per key that becomes active and none
/// for a key that was active: the keys after arming are the keys before,
/// followed by the keys of the started timers, in order. With unique keys
/// before, no two started timers share a key and none has an active key.
pub proof fn lemma_one_timer_per_new_key(keys: Seq<DeadlineKey>, events: Seq<DeadlineEventModel>)
    ensures
        arm_keys(keys, events) == keys + arm_schedules(keys, events).map_values(|s: (DeadlineEventModel, u64)| schedule_key(s)),
        forall|i: int| 0 <= i < arm_schedules(keys, events).len()
            ==> (#[trigger] arm_schedules(keys, events)[i]).1 == arm_schedules(keys, events)[i].0.duration_ms,
    decreases events.len(),
{
    if events.len() > 0 {
        lemma_one_timer_per_new_key(keys, events.drop_last());
        let prev = arm_schedules(keys, events.drop_last());
        let e = events.last();
        let f = |s: (DeadlineEventModel, u64)| schedule_key(s);
        if !arm_keys(keys, events.drop_last()).contains(deadline_key(e)) {
            assert(prev.push((e, e.duration_ms)).map_values(f) =~= prev.map_values(f).push(deadline_key(e)));
            assert(keys + prev.map_values(f).push(deadline_key(e)) =~= (keys + prev.map_values(f)).push(deadline_key(e)));
            let next = prev.push((e, e.duration_ms));
            assert forall|i: int| 0 <= i < next.len() implies (#[trigger] next[i]).1 == next[i].0.duration_ms by {
                if i < prev.len() {
                    assert(next[i] == prev[i]);
                }
            }
        }
    }
}

proof fn lemma_remove_unique(keys: Seq<DeadlineKey>, i: int)
    requires
        keys.no_duplicates(),
        0 <= i < keys.len(),
    ensures
        keys.remove(i).no_duplicates(),
        keys.remove(i) == remove_key(keys, keys[i]),
    decreases keys.len(),
{
    let key = keys[i];
    let init = keys.drop_last();
    if i == keys.len() - 1 {
        assert(keys.remove(i) =~= init);
        assert(!init.contains(key)) by {
            if init.contains(key) {
                let j = choose|j: int| 0 <= j < init.len() && init[j] == key;
                assert(keys[j] == keys[i]);
            }
        }
        lemma_remove_absent(init, key);
    } else {
        assert(init[i] == key);
        lemma_remove_unique(init, i);
        assert(keys.remove(i) =~= init.remove(i).push(keys.last()));
        assert(keys.last() != key);
    }
}

proof fn lemma_remove_absent(keys: Seq<DeadlineKey>, key: DeadlineKey)
    requires
        !keys.contains(key),
    ensures
        remove_key(keys, key) == keys,
    decreases keys.len(),
{
    if keys.len() > 0 {
        let init = keys.drop_last();
        assert(!init.contains(key)) by {
            if init.contains(key) {
                let j = choose|j: int| 0 <= j < init.len() && init[j] == key;
                assert(keys[j] == key);
            }
        }
        lemma_remove_absent(init, key);
        assert(keys =~= init.push(keys.last()));
    }
}

} // verus!
