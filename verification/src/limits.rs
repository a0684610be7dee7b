//! Execution limits: the per-run resource budget.
//!
//! A request may override any of the three limits independently; an absent
//! field falls back to the corresponding default constant. The step budget
//! must be positive, since a zero budget could never admit any execution
//! work at all.

use vstd::prelude::*;

verus! {

/// Default step (fuel) budget for one run.
pub const DEFAULT_MAX_FUEL: u64 = 10_000_000;

/// Default ceiling on the sandbox's linear memory, in bytes.
pub const DEFAULT_MAX_MEMORY: u64 = 64 * 1024 * 1024;

/// Default wall-clock deadline for one run, in milliseconds.
pub const DEFAULT_TIMEOUT_MS: u64 = 5_000;

/// The resolved resource budget for a single sandboxed run.
#[derive(PartialEq, Eq, Structural, Clone, Copy, Debug)]
pub struct ExecutionLimits {
    /// CPU-equivalent metering budget; always positive.
    pub max_steps: u64,
    /// Ceiling on sandbox linear memory growth, in bytes.
    pub max_memory_bytes: u64,
    /// Wall-clock deadline, in milliseconds.
    pub timeout_ms: u64,
}

/// The limits a request resolves to: each override taken verbatim when
/// present, the default constant otherwise.
pub open spec fn resolved_limits(
    max_fuel: Option<u64>,
    max_memory: Option<u64>,
    timeout_ms: Option<u64>,
) -> ExecutionLimits {
    ExecutionLimits {
        max_steps: match max_fuel {
            Some(v) => v,
            None => DEFAULT_MAX_FUEL,
        },
        max_memory_bytes: match max_memory {
            Some(v) => v,
            None => DEFAULT_MAX_MEMORY,
        },
        timeout_ms: match timeout_ms {
            Some(v) => v,
            None => DEFAULT_TIMEOUT_MS,
        },
    }
}

/// The metering count reported for a run: the part of the budget that
/// was consumed, when the runtime reported what was left.
pub open spec fn consumed_of(budget: u64, fuel_left: Option<u64>) -> Option<u64> {
    match fuel_left {
        Some(left) => if left <= budget {
            Some((budget - left) as u64)
        } else {
            Some(0u64)
        },
        None => None,
    }
}

/// Turn the runtime's remaining-fuel report into a consumed-steps count.
///
/// A report of more fuel than the budget granted is clamped to zero
/// consumed; an absent report stays absent, which is not an error.
pub fn steps_consumed(budget: u64, fuel_left: Option<u64>) -> (r: Option<u64>)
    ensures
        r == consumed_of(budget, fuel_left),
{
    match fuel_left {
        Some(left) => if left <= budget {
            Some(budget - left)
        } else {
            Some(0)
        },
        None => None,
    }
}

impl ExecutionLimits {
    /// A limits value is well formed when its step budget is positive.
    pub open spec fn wf(self) -> bool {
        self.max_steps > 0
    }

    /// Resolve per-request overrides against the defaults.
    ///
    /// A zero step budget is the caller's responsibility to reject
    /// beforehand: the budget of a well-formed limits value is positive.
    pub fn resolve(
        max_fuel: Option<u64>,
        max_memory: Option<u64>,
        timeout_ms: Option<u64>,
    ) -> (r: ExecutionLimits)
        requires
            max_fuel != Some(0u64),
        ensures
            r == resolved_limits(max_fuel, max_memory, timeout_ms),
            r.wf(),
    {
        ExecutionLimits {
            max_steps: match max_fuel {
                Some(v) => v,
                None => DEFAULT_MAX_FUEL,
            },
            max_memory_bytes: match max_memory {
                Some(v) => v,
                None => DEFAULT_MAX_MEMORY,
            },
            timeout_ms: match timeout_ms {
                Some(v) => v,
                None => DEFAULT_TIMEOUT_MS,
            },
        }
    }
}

} // verus!
