//! The deadline timer queue of `futures_delay_queue`.
use vstd::prelude::*;

use futures_delay_queue::{delay_queue, DelayHandle, DelayQueue, Receiver};
use futures_intrusive::buffer::GrowingHeapBuf;

use crate::deadline::{DeadlineEvent, DeadlineEventModel};

verus! {

#[verifier::external_type_specification]
#[verifier::external_body]
pub struct ExDelayHandle(DelayHandle);

/// The sending side of a delay queue of armed deadlines.
#[verifier::external_body]
pub struct DeadlineQueue {
    queue: DelayQueue<DeadlineEvent, GrowingHeapBuf<DeadlineEvent>>,
}

/// The receiving side: yields each armed deadline once its duration elapsed.
#[verifier::external_body]
pub struct DeadlineReceiver {
    pub receiver: Receiver<DeadlineEvent>,
}

/// Every item inserted into the queue since it was made, with its delay in
/// milliseconds, in insertion order.
pub uninterp spec fn inserted(q: DeadlineQueue) -> Seq<(DeadlineEventModel, u64)>;

/// Relies on `futures_delay_queue::delay_queue`: a new queue, into which
/// nothing was inserted, and the receiver of its expired items.
#[verifier::external_body]
pub(crate) fn new_deadline_queue() -> (r: (DeadlineQueue, DeadlineReceiver))
    ensures
        inserted(r.0) == Seq::<(DeadlineEventModel, u64)>::empty(),
{
    let (queue, receiver) = delay_queue();
    (DeadlineQueue { queue }, DeadlineReceiver { receiver })
}

/// Relies on `futures_delay_queue::DelayQueue::insert`: spawns a timer that
/// yields `event` on the queue's receiver once `duration_ms` milliseconds have
/// passed, and returns the handle of that delay. Each call inserts one item:
/// `event` with `duration_ms`. When the item comes out depends on the clock,
/// so nothing is stated of that.
#[verifier::external_body]
pub(crate) fn schedule_deadline(queue: &mut DeadlineQueue, event: DeadlineEvent, duration_ms: u64) -> (r: DelayHandle)
    ensures
        inserted(*final(queue)) == inserted(*old(queue)).push((event@, duration_ms)),
{
    queue.queue.insert(event, std::time::Duration::from_millis(duration_ms))
}

} // verus!
