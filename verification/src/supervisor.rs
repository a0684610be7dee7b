//! The execution supervisor's state machine.
//!
//! One run moves from `Pending` through `Running` into exactly one of the
//! terminal states `Completed`, `Trapped` or `TimedOut`. The surrounding
//! process performs the actions the machine asks for (begin the sandboxed
//! run, interrupt it at the deadline) and feeds the resulting events back
//! in; every decision is taken here.

use vstd::prelude::*;

verus! {

/// The phase of one supervised run.
#[derive(PartialEq, Eq, Structural, Clone, Copy, Debug)]
pub enum SupervisorState {
    /// The run has not been started yet.
    Pending,
    /// The sandboxed run is in progress, racing the deadline timer.
    Running,
    /// The entry point returned normally.
    Completed,
    /// The run ended in a sandbox-contained fault or budget exhaustion.
    Trapped,
    /// The deadline fired first and the run was abandoned.
    TimedOut,
}

/// An observation fed into the state machine.
#[derive(PartialEq, Eq, Structural, Clone, Copy, Debug)]
pub enum RunEvent {
    /// The caller asks for the run to begin.
    StartRequested,
    /// The sandboxed run finished normally.
    RunCompleted,
    /// The sandboxed run ended in a trap.
    RunTrapped,
    /// The wall-clock deadline fired before the run finished.
    DeadlineFired,
}

/// What the surrounding process must do after a transition.
#[derive(PartialEq, Eq, Structural, Clone, Copy, Debug)]
pub enum SupervisorAction {
    /// Start the sandboxed run as a cancellable unit of work.
    BeginRun,
    /// Request cooperative interruption of the in-progress run.
    InterruptRun,
    /// Nothing: the event does not apply to the current state.
    Ignore,
}

/// The terminal states: mutually exclusive and final.
pub open spec fn is_terminal(s: SupervisorState) -> bool {
    s == SupervisorState::Completed || s == SupervisorState::Trapped || s
        == SupervisorState::TimedOut
}

/// The transition function of the supervisor.
pub open spec fn step_spec(s: SupervisorState, e: RunEvent) -> (SupervisorState, SupervisorAction) {
    match (s, e) {
        (SupervisorState::Pending, RunEvent::StartRequested) => (
            SupervisorState::Running,
            SupervisorAction::BeginRun,
        ),
        (SupervisorState::Running, RunEvent::RunCompleted) => (
            SupervisorState::Completed,
            SupervisorAction::Ignore,
        ),
        (SupervisorState::Running, RunEvent::RunTrapped) => (
            SupervisorState::Trapped,
            SupervisorAction::Ignore,
        ),
        (SupervisorState::Running, RunEvent::DeadlineFired) => (
            SupervisorState::TimedOut,
            SupervisorAction::InterruptRun,
        ),
        _ => (s, SupervisorAction::Ignore),
    }
}

/// Take one supervisor step.
pub fn step(s: SupervisorState, e: RunEvent) -> (r: (SupervisorState, SupervisorAction))
    ensures
        r == step_spec(s, e),
{
    match (s, e) {
        (SupervisorState::Pending, RunEvent::StartRequested) => (
            SupervisorState::Running,
            SupervisorAction::BeginRun,
        ),
        (SupervisorState::Running, RunEvent::RunCompleted) => (
            SupervisorState::Completed,
            SupervisorAction::Ignore,
        ),
        (SupervisorState::Running, RunEvent::RunTrapped) => (
            SupervisorState::Trapped,
            SupervisorAction::Ignore,
        ),
        (SupervisorState::Running, RunEvent::DeadlineFired) => (
            SupervisorState::TimedOut,
            SupervisorAction::InterruptRun,
        ),
        _ => (s, SupervisorAction::Ignore),
    }
}

/// A terminal state is final: no later event moves the machine again or
/// asks the surrounding process for further work.
pub proof fn lemma_terminal_is_final(s: SupervisorState, e: RunEvent)
    requires
        is_terminal(s),
    ensures
        step_spec(s, e).0 == s,
        step_spec(s, e).1 == SupervisorAction::Ignore,
{
}

/// From `Running`, each outcome event reaches its terminal state in one
/// step, and only the deadline asks for an interruption of the run.
pub proof fn lemma_running_resolves(e: RunEvent)
    ensures
        e == RunEvent::RunCompleted ==> step_spec(SupervisorState::Running, e) == (
            SupervisorState::Completed,
            SupervisorAction::Ignore,
        ),
        e == RunEvent::RunTrapped ==> step_spec(SupervisorState::Running, e) == (
            SupervisorState::Trapped,
            SupervisorAction::Ignore,
        ),
        e == RunEvent::DeadlineFired ==> step_spec(SupervisorState::Running, e) == (
            SupervisorState::TimedOut,
            SupervisorAction::InterruptRun,
        ),
{
}

} // verus!
