//! The executor lifecycle as a state machine: each input reports what the
//! surrounding runtime observed, each action says what it must do next.
use vstd::prelude::*;

use crate::notification::WorkerNotification;

verus! {

#[derive(Debug, Clone, Copy, PartialEq, Eq, Structural)]
pub enum Phase {
    Initialize,
    Synchronize,
    Setup,
    Run,
    Loop,
    Destroy,
    Cleanup,
    Terminated,
}

/// What the runtime reports to the lifecycle.
#[derive(Debug, Clone, Copy, PartialEq, Eq, Structural)]
pub enum LifecycleInput {
    /// `execute` was called.
    Start,
    /// All peer operators are ready.
    Synchronized,
    /// The operator's `setup` returned.
    SetupDone,
    /// The operator's `run` returned.
    RunDone,
    /// The stream-processing loop ended (inputs closed).
    StreamsEnded,
    /// The worker asked for shutdown.
    Shutdown,
    /// The channel from the worker failed; handled as a shutdown.
    WorkerChannelError,
    /// The channel to the event runners is gone; processing cannot go on,
    /// but the operator is still destroyed and its outputs closed.
    NotifierDown,
    /// The operator's `destroy` returned.
    Destroyed,
    /// The terminal watermarks were sent.
    CleanedUp,
}

/// What the runtime must do next.
#[derive(Debug, Clone, Copy, PartialEq, Eq, Structural)]
pub enum LifecycleAction {
    Synchronize,
    Setup,
    Run,
    /// Run the stream-processing loop until it ends or the worker shuts down.
    ProcessStreams,
    Destroy,
    /// Send `Watermark(Top)` on every output stream that is not closed.
    SendTopWatermarks,
    NotifyWorker(WorkerNotification),
    /// The input changes nothing in this phase.
    Nothing,
}

pub struct LifecycleModel {
    pub operator_id: u64,
    pub has_inputs: bool,
    pub phase: Phase,
}

pub open spec fn rank(p: Phase) -> nat {
    match p {
        Phase::Initialize => 0,
        Phase::Synchronize => 1,
        Phase::Setup => 2,
        Phase::Run => 3,
        Phase::Loop => 4,
        Phase::Destroy => 5,
        Phase::Cleanup => 6,
        Phase::Terminated => 7,
    }
}

/// The action taken on entering phase `p`.
pub open spec fn entry_action(operator_id: u64, p: Phase) -> LifecycleAction {
    match p {
        Phase::Initialize => LifecycleAction::Nothing,
        Phase::Synchronize => LifecycleAction::Synchronize,
        Phase::Setup => LifecycleAction::Setup,
        Phase::Run => LifecycleAction::Run,
        Phase::Loop => LifecycleAction::ProcessStreams,
        Phase::Destroy => LifecycleAction::Destroy,
        Phase::Cleanup => LifecycleAction::SendTopWatermarks,
        Phase::Terminated => LifecycleAction::NotifyWorker(WorkerNotification::DestroyedOperator(operator_id)),
    }
}

/// The phase that `input` leads to from `s`, if any.
pub open spec fn next_phase(s: LifecycleModel, input: LifecycleInput) -> Option<Phase> {
    match (s.phase, input) {
        (Phase::Initialize, LifecycleInput::Start) => Some(Phase::Synchronize),
        (Phase::Synchronize, LifecycleInput::Synchronized) => Some(Phase::Setup),
        (Phase::Setup, LifecycleInput::SetupDone) => Some(Phase::Run),
        (Phase::Run, LifecycleInput::RunDone) => Some(if s.has_inputs { Phase::Loop } else { Phase::Destroy }),
        (Phase::Loop, LifecycleInput::StreamsEnded) => Some(Phase::Destroy),
        (p, LifecycleInput::Shutdown) => if rank(p) < rank(Phase::Destroy) { Some(Phase::Destroy) } else { None },
        (p, LifecycleInput::WorkerChannelError) => if rank(p) < rank(Phase::Destroy) { Some(Phase::Destroy) } else { None },
        (p, LifecycleInput::NotifierDown) => if rank(p) < rank(Phase::Destroy) { Some(Phase::Destroy) } else { None },
        (Phase::Destroy, LifecycleInput::Destroyed) => Some(Phase::Cleanup),
        (Phase::Cleanup, LifecycleInput::CleanedUp) => Some(Phase::Terminated),
        _ => None,
    }
}

pub open spec fn lifecycle_step(s: LifecycleModel, input: LifecycleInput) -> (LifecycleModel, LifecycleAction) {
    match next_phase(s, input) {
        Some(p) => (LifecycleModel { phase: p, ..s }, entry_action(s.operator_id, p)),
        None => (s, LifecycleAction::Nothing),
    }
}

/// The state after a sequence of inputs and the actions taken, in order.
pub open spec fn lifecycle_run(s: LifecycleModel, inputs: Seq<LifecycleInput>) -> (LifecycleModel, Seq<LifecycleAction>)
    decreases inputs.len(),
{
    if inputs.len() == 0 {
        (s, seq![])
    } else {
        let (prev, acts) = lifecycle_run(s, inputs.drop_last());
        let (next, a) = lifecycle_step(prev, inputs.last());
        (next, acts.push(a))
    }
}

/// The rank of the phase an action enters (`Nothing` enters none).
pub open spec fn action_rank(a: LifecycleAction) -> int {
    match a {
        LifecycleAction::Nothing => -1,
        LifecycleAction::Synchronize => 1,
        LifecycleAction::Setup => 2,
        LifecycleAction::Run => 3,
        LifecycleAction::ProcessStreams => 4,
        LifecycleAction::Destroy => 5,
        LifecycleAction::SendTopWatermarks => 6,
        LifecycleAction::NotifyWorker(_) => 7,
    }
}

/// Drives one executor through `Initialize → Synchronize → Setup → Run →
/// Loop → Destroy → Cleanup → Terminated`.
pub struct Lifecycle {
    operator_id: u64,
    has_inputs: bool,
    phase: Phase,
}

impl View for Lifecycle {
    type V = LifecycleModel;

    closed spec fn view(&self) -> LifecycleModel {
        LifecycleModel { operator_id: self.operator_id, has_inputs: self.has_inputs, phase: self.phase }
    }
}

impl Lifecycle {
    /// A lifecycle in `Initialize`; `has_inputs` is false for a source, which
    /// goes from `Run` straight to `Destroy`.
    pub fn new(operator_id: u64, has_inputs: bool) -> (r: Lifecycle)
        ensures
            r@ == (LifecycleModel { operator_id, has_inputs, phase: Phase::Initialize }),
    {
        Lifecycle { operator_id, has_inputs, phase: Phase::Initialize }
    }

    pub fn phase(&self) -> (r: Phase)
        ensures
            r == self@.phase,
    {
        self.phase
    }

    fn next(&self, input: LifecycleInput) -> (r: Option<Phase>)
        ensures
            r == next_phase(self@, input),
    {
        let before_destroy = match self.phase {
            Phase::Destroy | Phase::Cleanup | Phase::Terminated => false,
            _ => true,
        };
        match (self.phase, input) {
            (Phase::Initialize, LifecycleInput::Start) => Some(Phase::Synchronize),
            (Phase::Synchronize, LifecycleInput::Synchronized) => Some(Phase::Setup),
            (Phase::Setup, LifecycleInput::SetupDone) => Some(Phase::Run),
            (Phase::Run, LifecycleInput::RunDone) => Some(if self.has_inputs { Phase::Loop } else { Phase::Destroy }),
            (Phase::Loop, LifecycleInput::StreamsEnded) => Some(Phase::Destroy),
            (_, LifecycleInput::Shutdown) => if before_destroy { Some(Phase::Destroy) } else { None },
            (_, LifecycleInput::WorkerChannelError) => if before_destroy { Some(Phase::Destroy) } else { None },
            (_, LifecycleInput::NotifierDown) => if before_destroy { Some(Phase::Destroy) } else { None },
            (Phase::Destroy, LifecycleInput::Destroyed) => Some(Phase::Cleanup),
            (Phase::Cleanup, LifecycleInput::CleanedUp) => Some(Phase::Terminated),
            _ => None,
        }
    }

    /// Takes one input; returns the action to perform.
    pub fn step(&mut self, input: LifecycleInput) -> (r: LifecycleAction)
        ensures
            (final(self)@, r) == lifecycle_step(old(self)@, input),
    {
        match self.next(input) {
            Some(p) => {
                self.phase = p;
                match p {
                    Phase::Initialize => LifecycleAction::Nothing,
                    Phase::Synchronize => LifecycleAction::Synchronize,
                    Phase::Setup => LifecycleAction::Setup,
                    Phase::Run => LifecycleAction::Run,
                    Phase::Loop => LifecycleAction::ProcessStreams,
                    Phase::Destroy => LifecycleAction::Destroy,
                    Phase::Cleanup => LifecycleAction::SendTopWatermarks,
                    Phase::Terminated => LifecycleAction::NotifyWorker(
                        WorkerNotification::DestroyedOperator(self.operator_id),
                    ),
                }
            },
            None => LifecycleAction::Nothing,
        }
    }
}

/// Whether an output gets `Watermark(Top)` at cleanup: exactly when it is
/// not closed.
pub fn sends_top_watermark(output_closed: bool) -> (r: bool)
    ensures
        r == !output_closed,
{
    !output_closed
}

/// Every step either leaves the state alone with `Nothing`, or moves to a
/// later phase and takes that phase's entry action.
proof fn lemma_step_forward(s: LifecycleModel, input: LifecycleInput)
    ensures
        ({
            let (n, a) = lifecycle_step(s, input);
            &&& n.operator_id == s.operator_id && n.has_inputs == s.has_inputs
            &&& rank(n.phase) >= rank(s.phase)
            &&& a == LifecycleAction::Nothing ==> n == s
            &&& a != LifecycleAction::Nothing ==> action_rank(a) == rank(n.phase) && rank(n.phase) > rank(s.phase)
            &&& a == LifecycleAction::SendTopWatermarks ==> s.phase == Phase::Destroy
            &&& a is NotifyWorker ==> s.phase == Phase::Cleanup
        }),
{
}

/// In any run, each action other than `Nothing` is taken at most once and
/// they come in lifecycle order: in particular `destroy` runs at most once,
/// the terminal watermarks are sent at most once, and the worker is told
/// at most once.
pub proof fn lemma_actions_once_in_order(s: LifecycleModel, inputs: Seq<LifecycleInput>)
    ensures
        ({
            let (last, acts) = lifecycle_run(s, inputs);
            &&& forall|i: int, j: int|
                0 <= i < j < acts.len() && acts[i] != LifecycleAction::Nothing && acts[j] != LifecycleAction::Nothing
                    ==> action_rank(#[trigger] acts[i]) < action_rank(#[trigger] acts[j])
            &&& forall|i: int| 0 <= i < acts.len() && acts[i] != LifecycleAction::Nothing
                ==> rank(s.phase) < action_rank(#[trigger] acts[i]) <= rank(last.phase)
            &&& rank(s.phase) <= rank(last.phase)
            &&& last.operator_id == s.operator_id
        }),
    decreases inputs.len(),
{
    if inputs.len() > 0 {
        lemma_actions_once_in_order(s, inputs.drop_last());
        let (prev, acts) = lifecycle_run(s, inputs.drop_last());
        lemma_step_forward(prev, inputs.last());
    }
}

/// Starting before `Destroy`, a run that has reached `Destroy` or beyond has
/// run `destroy`; one that has reached `Cleanup` or beyond has also sent the
/// terminal watermarks, after `destroy`; one that has terminated has also
/// notified the worker, last.
pub proof fn lemma_destroy_before_termination(s: LifecycleModel, inputs: Seq<LifecycleInput>)
    requires
        rank(s.phase) < rank(Phase::Destroy),
    ensures
        ({
            let (last, acts) = lifecycle_run(s, inputs);
            &&& rank(last.phase) >= rank(Phase::Destroy) ==> acts.contains(LifecycleAction::Destroy)
            &&& rank(last.phase) >= rank(Phase::Cleanup) ==> acts.contains(LifecycleAction::SendTopWatermarks)
            &&& last.phase == Phase::Terminated ==> acts.contains(
                LifecycleAction::NotifyWorker(WorkerNotification::DestroyedOperator(s.operator_id)),
            )
        }),
    decreases inputs.len(),
{
    if inputs.len() > 0 {
        lemma_destroy_before_termination(s, inputs.drop_last());
        lemma_actions_once_in_order(s, inputs.drop_last());
        let (prev, acts) = lifecycle_run(s, inputs.drop_last());
        let (next, a) = lifecycle_step(prev, inputs.last());
        lemma_step_forward(prev, inputs.last());
        let acts2 = acts.push(a);
        assert(acts2[acts.len() as int] == a);
        assert forall|x: LifecycleAction| acts.contains(x) implies acts2.contains(x) by {
            let j = choose|j: int| 0 <= j < acts.len() && acts[j] == x;
            assert(acts2[j] == x);
        }
    }
}

/// Once the terminal watermarks are sent, the executor neither processes
/// streams, runs the operator, nor sends them again: the only action left is
/// telling the worker.
pub proof fn lemma_top_watermarks_come_last(s: LifecycleModel, inputs: Seq<LifecycleInput>, i: int)
    requires
        0 <= i < lifecycle_run(s, inputs).1.len(),
        lifecycle_run(s, inputs).1[i] == LifecycleAction::SendTopWatermarks,
    ensures
        forall|j: int| i < j < lifecycle_run(s, inputs).1.len() ==> {
            let a = #[trigger] lifecycle_run(s, inputs).1[j];
            a == LifecycleAction::Nothing || a is NotifyWorker
        },
{
    lemma_actions_once_in_order(s, inputs);
    let acts = lifecycle_run(s, inputs).1;
    assert forall|j: int| i < j < acts.len() implies {
        let a = #[trigger] acts[j];
        a == LifecycleAction::Nothing || a is NotifyWorker
    } by {
        if acts[j] != LifecycleAction::Nothing {
            assert(action_rank(acts[i]) < action_rank(acts[j]));
        }
    }
}

/// Once terminated, no input leads to any further action.
pub proof fn lemma_terminated_is_final(s: LifecycleModel, inputs: Seq<LifecycleInput>)
    requires
        s.phase == Phase::Terminated,
    ensures
        lifecycle_run(s, inputs).0 == s,
        lifecycle_run(s, inputs).1.len() == inputs.len(),
        forall|i: int| 0 <= i < inputs.len() ==> #[trigger] lifecycle_run(s, inputs).1[i] == LifecycleAction::Nothing,
    decreases inputs.len(),
{
    if inputs.len() > 0 {
        lemma_terminated_is_final(s, inputs.drop_last());
        let acts = lifecycle_run(s, inputs.drop_last()).1;
        assert(lifecycle_run(s, inputs).1 == acts.push(LifecycleAction::Nothing));
    }
}

/// A shutdown (or a failed channel) before `Destroy` moves straight
/// to `Destroy` and runs `destroy`.
pub proof fn lemma_shutdown_destroys(s: LifecycleModel, input: LifecycleInput)
    requires
        rank(s.phase) < rank(Phase::Destroy),
        input == LifecycleInput::Shutdown || input == LifecycleInput::WorkerChannelError
            || input == LifecycleInput::NotifierDown,
    ensures
        lifecycle_step(s, input) == (LifecycleModel { phase: Phase::Destroy, ..s }, LifecycleAction::Destroy),
{
}

} // verus!
