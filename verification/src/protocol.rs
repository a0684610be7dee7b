//! The request/response data contract and method dispatch.
//!
//! The transport hands the library plain values: a method name, the
//! request parameters, and later the raw outcome of a run. These types
//! carry them; the dispatch function resolves the method name once into
//! a closed set of operations.

use vstd::prelude::*;
use vstd::string::StrSliceExecFns;

verus! {

/// JSON-RPC error code for an unknown method.
pub const CODE_METHOD_NOT_FOUND: i64 = -32601;

/// JSON-RPC error code for malformed or invalid parameters.
pub const CODE_INVALID_PARAMS: i64 = -32602;

/// JSON-RPC error code for an internal execution failure.
pub const CODE_INTERNAL_ERROR: i64 = -32603;

/// JSON-RPC error code for an empty code payload.
pub const CODE_EMPTY_CODE: i64 = -32002;

/// Parameters of one code-execution request.
pub struct ExecuteCodeParams {
    /// Identifier of the source dialect; exactly one value is supported.
    pub language: String,
    /// The raw source text.
    pub code: String,
    /// Optional override of the step (fuel) budget.
    pub max_fuel: Option<u64>,
    /// Optional override of the memory ceiling, in bytes.
    pub max_memory: Option<u64>,
    /// Optional override of the wall-clock deadline, in milliseconds.
    pub timeout_ms: Option<u64>,
}

/// The structured result of one code-execution request.
pub struct ExecuteCodeResult {
    /// Captured standard output, decoded permissively.
    pub stdout: String,
    /// Captured standard error, decoded permissively.
    pub stderr: String,
    /// Zero exactly for a normal completion.
    pub exit_code: i32,
    /// Whether the run was abandoned at the wall-clock deadline.
    pub timed_out: bool,
    /// Metering count, when the runtime reported one.
    pub fuel_used: Option<u64>,
}

/// The closed set of operations the service offers.
#[derive(PartialEq, Eq, Structural, Clone, Copy, Debug)]
pub enum RpcMethod {
    /// Compile and run a code payload inside the sandbox.
    ExecuteCode,
    /// Any method name the service does not know.
    Unknown,
}

/// Resolve a textual method name into the closed operation set.
pub fn parse_method(m: &str) -> (r: RpcMethod)
    ensures
        (r == RpcMethod::ExecuteCode) <==> m@ == "execute_code"@,
{
    proof {
        reveal_strlit("execute_code");
    }
    let n: usize = m.unicode_len();
    if n != 12 {
        return RpcMethod::Unknown;
    }
    let ok = m.get_char(0) == 'e' && m.get_char(1) == 'x' && m.get_char(2) == 'e' && m.get_char(3)
        == 'c' && m.get_char(4) == 'u' && m.get_char(5) == 't' && m.get_char(6) == 'e'
        && m.get_char(7) == '_' && m.get_char(8) == 'c' && m.get_char(9) == 'o' && m.get_char(10)
        == 'd' && m.get_char(11) == 'e';
    if ok {
        proof {
            assert(m@ =~= "execute_code"@);
        }
        RpcMethod::ExecuteCode
    } else {
        RpcMethod::Unknown
    }
}

} // verus!
