//! Notifications exchanged with the worker and the event runners.
use vstd::prelude::*;

verus! {

/// From the executor to the event runners.
#[derive(Debug, Clone, Copy, PartialEq, Eq, Structural)]
pub enum EventNotification {
    /// New events of this operator are in its lattice.
    AddedEvents(u64),
}

/// From the executor to the worker.
#[derive(Debug, Clone, Copy, PartialEq, Eq, Structural)]
pub enum WorkerNotification {
    /// The operator has run its destroy hook and closed its outputs.
    DestroyedOperator(u64),
}

/// From the worker to the executor.
#[derive(Debug, Clone, Copy, PartialEq, Eq, Structural)]
pub enum OperatorExecutorNotification {
    Shutdown,
}

} // verus!
