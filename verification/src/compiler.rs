//! Decisions of the compilation stage.
//!
//! The toolchain itself runs as a subprocess outside the library. What
//! is decided here: the fixed, minimal argument set handed to it, and
//! how its exit is classified — any non-zero exit yields a compilation
//! failure carrying the diagnostic stream, never a partial artifact.

use vstd::prelude::*;
use crate::text::{decode_lossy, lossy_of};

verus! {

/// The fixed argument set for one toolchain invocation: portable
/// bytecode target, size-optimized, abort-on-panic, then the source
/// file and the output file.
pub fn compiler_args(source_path: &str, output_path: &str) -> (args: Vec<String>)
    ensures
        args@.len() == 10,
        args@[0]@ == "--edition=2021"@,
        args@[1]@ == "-C"@,
        args@[2]@ == "opt-level=z"@,
        args@[3]@ == "-C"@,
        args@[4]@ == "panic=abort"@,
        args@[5]@ == "--target"@,
        args@[6]@ == "wasm32-wasi"@,
        args@[7]@ == source_path@,
        args@[8]@ == "-o"@,
        args@[9]@ == output_path@,
{
    let mut args: Vec<String> = Vec::new();
    args.push("--edition=2021".to_owned());
    args.push("-C".to_owned());
    args.push("opt-level=z".to_owned());
    args.push("-C".to_owned());
    args.push("panic=abort".to_owned());
    args.push("--target".to_owned());
    args.push("wasm32-wasi".to_owned());
    args.push(source_path.to_owned());
    args.push("-o".to_owned());
    args.push(output_path.to_owned());
    args
}

/// Classify the toolchain's exit: success yields no diagnostic, any
/// failure yields the diagnostic stream decoded permissively.
pub fn classify_toolchain_exit(success: bool, diagnostic_bytes: &[u8]) -> (r: Result<
    (),
    String,
>)
    ensures
        success <==> r is Ok,
        r matches Err(d) ==> d@ == lossy_of(diagnostic_bytes@),
{
    if success {
        Ok(())
    } else {
        Err(decode_lossy(diagnostic_bytes))
    }
}

} // verus!
