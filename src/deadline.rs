//! Deadline declarations, armed deadline instances, and the selection of
//! the deadlines to arm for a message.
use vstd::prelude::*;

use crate::timestamp::{Timestamp, TimestampModel};

verus! {

/// A deadline scoped to a timestamp. Its start condition, end condition,
/// duration function and handler are user code held beside the declaration at
/// the same index; the declaration itself records the read streams it
/// constrains.
#[derive(Debug, Clone)]
pub struct TimestampDeadline {
    pub read_stream_ids: Vec<u64>,
}

impl TimestampDeadline {
    pub fn new(read_stream_ids: Vec<u64>) -> (r: TimestampDeadline)
        ensures
            r.read_stream_ids == read_stream_ids,
    {
        TimestampDeadline { read_stream_ids }
    }

    /// Whether the deadline applies to messages of `stream_id`.
    pub fn constrained_on_read_stream(&self, stream_id: u64) -> (r: bool)
        ensures
            r == self.read_stream_ids@.contains(stream_id),
    {
        let mut i: usize = 0;
        while i < self.read_stream_ids.len()
            invariant
                i <= self.read_stream_ids@.len(),
                forall|j: int| 0 <= j < i ==> self.read_stream_ids@[j] != stream_id,
            decreases self.read_stream_ids.len() - i,
        {
            if self.read_stream_ids[i] == stream_id {
                return true;
            }
            i = i + 1;
        }
        false
    }
}

/// A user-declared deadline.
#[derive(Debug, Clone)]
pub enum Deadline {
    TimestampDeadline(TimestampDeadline),
}

pub open spec fn deadline_constrains(d: Deadline, stream_id: u64) -> bool {
    match d {
        Deadline::TimestampDeadline(td) => td.read_stream_ids@.contains(stream_id),
    }
}

/// The deadlines an operator declared during setup.
#[derive(Debug, Clone)]
pub struct SetupContext {
    pub read_stream_ids: Vec<u64>,
    pub deadlines: Vec<Deadline>,
}

impl SetupContext {
    /// A context for an operator reading `read_stream_ids`, with no deadline.
    pub fn new(read_stream_ids: Vec<u64>) -> (r: SetupContext)
        ensures
            r.read_stream_ids == read_stream_ids,
            r.deadlines@.len() == 0,
    {
        SetupContext { read_stream_ids, deadlines: Vec::new() }
    }

    pub fn add_deadline(&mut self, deadline: Deadline)
        ensures
            final(self).read_stream_ids == old(self).read_stream_ids,
            final(self).deadlines@ == old(self).deadlines@.push(deadline),
    {
        self.deadlines.push(deadline);
    }

    pub fn get_deadlines(&self) -> (r: &Vec<Deadline>)
        ensures
            r == &self.deadlines,
    {
        &self.deadlines
    }
}

/// An armed deadline: the declaration at `deadline_index` armed for
/// `(stream_id, timestamp)`, to fire after `duration_ms` milliseconds.
#[derive(Debug, Clone)]
pub struct DeadlineEvent {
    pub stream_id: u64,
    pub timestamp: Timestamp,
    pub duration_ms: u64,
    pub deadline_index: usize,
}

pub struct DeadlineEventModel {
    pub stream_id: u64,
    pub timestamp: TimestampModel,
    pub duration_ms: u64,
    pub deadline_index: usize,
}

impl View for DeadlineEvent {
    type V = DeadlineEventModel;

    open spec fn view(&self) -> DeadlineEventModel {
        DeadlineEventModel {
            stream_id: self.stream_id,
            timestamp: self.timestamp@,
            duration_ms: self.duration_ms,
            deadline_index: self.deadline_index,
        }
    }
}

impl DeadlineEvent {
    pub fn new(stream_id: u64, timestamp: Timestamp, duration_ms: u64, deadline_index: usize) -> (r: DeadlineEvent)
        ensures
            r == (DeadlineEvent { stream_id, timestamp, duration_ms, deadline_index }),
    {
        DeadlineEvent { stream_id, timestamp, duration_ms, deadline_index }
    }

    /// A copy with the same value.
    pub fn duplicate(&self) -> (r: DeadlineEvent)
        ensures
            r@ == self@,
    {
        DeadlineEvent {
            stream_id: self.stream_id,
            timestamp: self.timestamp.duplicate(),
            duration_ms: self.duration_ms,
            deadline_index: self.deadline_index,
        }
    }
}

pub open spec fn events_view(v: Seq<DeadlineEvent>) -> Seq<DeadlineEventModel> {
    v.map_values(|e: DeadlineEvent| e@)
}

/// The deadlines armed for a message of `stream_id` at `t`, among the first
/// `n` declarations: in declaration order, each declaration that constrains
/// the stream and whose start condition held (`started`), with its computed
/// duration.
pub open spec fn armed_deadlines(
    decls: Seq<Deadline>,
    stream_id: u64,
    t: TimestampModel,
    started: Seq<bool>,
    durations: Seq<u64>,
    n: nat,
) -> Seq<DeadlineEventModel>
    decreases n,
{
    if n == 0 {
        seq![]
    } else {
        let prev = armed_deadlines(decls, stream_id, t, started, durations, (n - 1) as nat);
        let i = n - 1;
        if deadline_constrains(decls[i], stream_id) && started[i] {
            prev.push(
                DeadlineEventModel {
                    stream_id,
                    timestamp: t,
                    duration_ms: durations[i],
                    deadline_index: i as usize,
                },
            )
        } else {
            prev
        }
    }
}

/// Selects and builds the deadline events to arm for a message of
/// `stream_id` at `timestamp`. `started[i]` is the start condition of
/// declaration `i` evaluated on the stream's condition context, and
/// `durations[i]` its computed duration (read only where it applies).
pub fn deadlines_to_arm(
    setup_context: &SetupContext,
    stream_id: u64,
    timestamp: &Timestamp,
    started: &Vec<bool>,
    durations: &Vec<u64>,
) -> (r: Vec<DeadlineEvent>)
    requires
        started@.len() == setup_context.deadlines@.len(),
        durations@.len() == setup_context.deadlines@.len(),
    ensures
        events_view(r@) == armed_deadlines(
            setup_context.deadlines@,
            stream_id,
            timestamp@,
            started@,
            durations@,
            setup_context.deadlines@.len(),
        ),
{
    let decls = setup_context.get_deadlines();
    let mut r: Vec<DeadlineEvent> = Vec::new();
    let mut i: usize = 0;
    while i < decls.len()
        invariant
            decls == &setup_context.deadlines,
            i <= decls@.len(),
            started@.len() == decls@.len(),
            durations@.len() == decls@.len(),
            events_view(r@) == armed_deadlines(decls@, stream_id, timestamp@, started@, durations@, i as nat),
        decreases decls.len() - i,
    {
        let applies = match &decls[i] {
            Deadline::TimestampDeadline(d) => d.constrained_on_read_stream(stream_id),
        };
        if applies && started[i] {
            let ev = DeadlineEvent::new(stream_id, timestamp.duplicate(), durations[i], i);
            r.push(ev);
            assert(events_view(r@) =~= armed_deadlines(decls@, stream_id, timestamp@, started@, durations@, i as nat).push(ev@));
        }
        i = i + 1;
    }
    r
}

} // verus!
