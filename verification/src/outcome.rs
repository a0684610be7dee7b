//! Raw run outcomes and the assembly of the structured result.
//!
//! The sandboxed run ends in exactly one of three ways: normal return,
//! a contained trap, or abandonment at the deadline. `ExecutionOutcome`
//! records which, together with the metering count when the runtime
//! reported one; `assemble_result` turns an outcome and the two capture
//! buffers into the response contract.

use vstd::prelude::*;
use crate::protocol::ExecuteCodeResult;
use crate::supervisor::{is_terminal, step_spec, RunEvent, SupervisorState};
use crate::text::{all_ascii, ascii_chars_of, decode_lossy, lossy_of};

verus! {

/// How one sandboxed run terminated.
pub enum RunTermination {
    /// The entry point returned normally.
    Completed,
    /// The run ended in a sandbox-contained fault, an explicit abort, or
    /// budget exhaustion; the string carries the human-readable cause.
    Trapped(String),
    /// The wall-clock deadline fired and the run was abandoned.
    TimedOut,
}

/// The trap cause a termination carries, if any.
pub open spec fn cause_of(t: RunTermination) -> Option<String> {
    match t {
        RunTermination::Trapped(c) => Some(c),
        _ => None,
    }
}

/// The event the supervisor receives when a run terminates this way.
pub open spec fn event_of(t: RunTermination) -> RunEvent {
    match t {
        RunTermination::Completed => RunEvent::RunCompleted,
        RunTermination::Trapped(_) => RunEvent::RunTrapped,
        RunTermination::TimedOut => RunEvent::DeadlineFired,
    }
}

/// Map an observed termination to the supervisor event it raises.
pub fn event_for(t: &RunTermination) -> (e: RunEvent)
    ensures
        e == event_of(*t),
{
    match t {
        RunTermination::Completed => RunEvent::RunCompleted,
        RunTermination::Trapped(_) => RunEvent::RunTrapped,
        RunTermination::TimedOut => RunEvent::DeadlineFired,
    }
}

/// An observed termination drives the supervisor from `Running` into the
/// matching terminal state in one step; in particular the machine lands
/// in the timeout state exactly for a deadline-abandoned run.
pub proof fn lemma_termination_matches_supervisor(t: RunTermination)
    ensures
        is_terminal(step_spec(SupervisorState::Running, event_of(t)).0),
        (step_spec(SupervisorState::Running, event_of(t)).0 == SupervisorState::Completed) <==> (t
            is Completed),
        (step_spec(SupervisorState::Running, event_of(t)).0 == SupervisorState::Trapped) <==> (t
            is Trapped),
        (step_spec(SupervisorState::Running, event_of(t)).0 == SupervisorState::TimedOut) <==> (t
            is TimedOut),
{
}

/// The raw outcome of one sandboxed run.
pub struct ExecutionOutcome {
    /// The entry point returned normally.
    pub completed_normally: bool,
    /// The run ended in a contained trap.
    pub trapped: bool,
    /// Human-readable trap cause; present exactly when `trapped` holds.
    pub trap_cause: Option<String>,
    /// The run was abandoned at the deadline.
    pub timed_out: bool,
    /// Metering count, reported best-effort by the runtime.
    pub steps_consumed: Option<u64>,
}

impl ExecutionOutcome {
    /// Exactly one terminal flag is set, and a cause accompanies exactly
    /// the trapped case.
    pub open spec fn wf(self) -> bool {
        &&& {
            ||| (self.completed_normally && !self.trapped && !self.timed_out)
            ||| (!self.completed_normally && self.trapped && !self.timed_out)
            ||| (!self.completed_normally && !self.trapped && self.timed_out)
        }
        &&& (self.trapped <==> self.trap_cause is Some)
    }

    /// Record how a run terminated, together with the metering count.
    pub fn from_termination(t: RunTermination, steps_consumed: Option<u64>) -> (o:
        ExecutionOutcome)
        ensures
            o.wf(),
            o.completed_normally == (t is Completed),
            o.trapped == (t is Trapped),
            o.timed_out == (t is TimedOut),
            o.trap_cause == cause_of(t),
            o.steps_consumed == steps_consumed,
    {
        match t {
            RunTermination::Completed => ExecutionOutcome {
                completed_normally: true,
                trapped: false,
                trap_cause: None,
                timed_out: false,
                steps_consumed,
            },
            RunTermination::Trapped(cause) => ExecutionOutcome {
                completed_normally: false,
                trapped: true,
                trap_cause: Some(cause),
                timed_out: false,
                steps_consumed,
            },
            RunTermination::TimedOut => ExecutionOutcome {
                completed_normally: false,
                trapped: false,
                trap_cause: None,
                timed_out: true,
                steps_consumed,
            },
        }
    }
}

/// A well-formed outcome is in exactly one terminal state: the three
/// flags cover every run, and no two of them ever hold together.
pub proof fn lemma_terminal_flags_exclusive(o: ExecutionOutcome)
    requires
        o.wf(),
    ensures
        o.completed_normally || o.trapped || o.timed_out,
        o.completed_normally ==> !o.trapped && !o.timed_out,
        o.trapped ==> !o.completed_normally && !o.timed_out,
        o.timed_out ==> !o.completed_normally && !o.trapped,
{
}

/// Assemble the response contract from a raw outcome and the two capture
/// buffers. The exit code is zero exactly for a normal completion; both
/// streams are decoded permissively; the metering count is passed through
/// and its absence is not an error.
pub fn assemble_result(
    outcome: &ExecutionOutcome,
    stdout_bytes: &[u8],
    stderr_bytes: &[u8],
) -> (r: ExecuteCodeResult)
    requires
        outcome.wf(),
    ensures
        r.stdout@ == lossy_of(stdout_bytes@),
        all_ascii(stdout_bytes@) ==> r.stdout@ == ascii_chars_of(stdout_bytes@),
        r.stderr@ == lossy_of(stderr_bytes@),
        all_ascii(stderr_bytes@) ==> r.stderr@ == ascii_chars_of(stderr_bytes@),
        r.exit_code == (if outcome.completed_normally {
            0int
        } else {
            1int
        }),
        r.timed_out == outcome.timed_out,
        r.fuel_used == outcome.steps_consumed,
    {
    let stdout = decode_lossy(stdout_bytes);
    let stderr = decode_lossy(stderr_bytes);
    let exit_code: i32 = if outcome.completed_normally {
        0
    } else {
        1
    };
    ExecuteCodeResult {
        stdout,
        stderr,
        exit_code,
        timed_out: outcome.timed_out,
        fuel_used: outcome.steps_consumed,
    }
}

/// The completed result reported for a failed compilation: the
/// toolchain's diagnostic stream in the error stream, a non-zero exit
/// code, and no metering count, since nothing ran.
pub fn compilation_failure_result(diagnostic: String) -> (r: ExecuteCodeResult)
    ensures
        r.stdout@ == Seq::<char>::empty(),
        r.stderr@ == diagnostic@,
        r.exit_code == 1,
        r.timed_out == false,
        r.fuel_used is None,
{
    ExecuteCodeResult {
        stdout: String::new(),
        stderr: diagnostic,
        exit_code: 1,
        timed_out: false,
        fuel_used: None,
    }
}

} // verus!
