//! A resource-bounded code-execution pipeline.
//!
//! The library holds the decision logic of a sandboxed execution service:
//! request validation, resolution of execution limits, the supervisor state
//! machine that drives one run to a terminal state, capture buffers for the
//! sandboxed program's output, and the assembly of the structured result.
//! The surrounding process (transport, compiler subprocess, sandbox engine)
//! performs the outside work and feeds its outcomes back into these
//! functions.

pub mod compiler;
pub mod limits;
pub mod outcome;
pub mod pipeline;
pub mod protocol;
pub mod supervisor;
pub mod text;
pub mod writer;
