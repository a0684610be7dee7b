use lattica_tool_server::compiler::{classify_toolchain_exit, compiler_args};
use lattica_tool_server::limits::{
    steps_consumed, ExecutionLimits, DEFAULT_MAX_FUEL, DEFAULT_MAX_MEMORY, DEFAULT_TIMEOUT_MS,
};
use lattica_tool_server::outcome::{
    assemble_result, compilation_failure_result, ExecutionOutcome, RunTermination,
};
use lattica_tool_server::pipeline::{validate_request, RequestError};
use lattica_tool_server::protocol::{
    parse_method, ExecuteCodeParams, RpcMethod, CODE_EMPTY_CODE, CODE_INTERNAL_ERROR,
    CODE_INVALID_PARAMS, CODE_METHOD_NOT_FOUND,
};
use lattica_tool_server::writer::Writer;

fn params(language: &str, code: &str) -> ExecuteCodeParams {
    ExecuteCodeParams {
        language: language.to_string(),
        code: code.to_string(),
        max_fuel: None,
        max_memory: None,
        timeout_ms: None,
    }
}

#[test]
fn empty_code_is_rejected() {
    let r = validate_request(&params("rust", ""));
    assert_eq!(r, Err(RequestError::EmptyCode));
}

#[test]
fn whitespace_only_code_is_rejected() {
    let r = validate_request(&params("rust", " \t\r\n  \u{a0}\u{2003}"));
    assert_eq!(r, Err(RequestError::EmptyCode));
}

#[test]
fn empty_code_wins_over_bad_language() {
    let r = validate_request(&params("python", "   "));
    assert_eq!(r, Err(RequestError::EmptyCode));
}

#[test]
fn unsupported_language_is_rejected() {
    let r = validate_request(&params("python", "print(1)"));
    assert_eq!(r, Err(RequestError::UnsupportedLanguage));
    let r = validate_request(&params("rustc", "fn main(){}"));
    assert_eq!(r, Err(RequestError::UnsupportedLanguage));
    let r = validate_request(&params("", "fn main(){}"));
    assert_eq!(r, Err(RequestError::UnsupportedLanguage));
}

#[test]
fn language_match_ignores_ascii_case() {
    assert!(validate_request(&params("rust", "fn main(){}")).is_ok());
    assert!(validate_request(&params("Rust", "fn main(){}")).is_ok());
    assert!(validate_request(&params("RUST", "fn main(){}")).is_ok());
}

#[test]
fn zero_step_budget_is_rejected() {
    let mut p = params("rust", "fn main(){}");
    p.max_fuel = Some(0);
    assert_eq!(validate_request(&p), Err(RequestError::InvalidStepBudget));
}

#[test]
fn defaults_apply_when_no_override_is_given() {
    let l = validate_request(&params("rust", "fn main(){}")).unwrap();
    assert_eq!(l.max_steps, DEFAULT_MAX_FUEL);
    assert_eq!(l.max_steps, 10_000_000);
    assert_eq!(l.max_memory_bytes, DEFAULT_MAX_MEMORY);
    assert_eq!(l.max_memory_bytes, 64 * 1024 * 1024);
    assert_eq!(l.timeout_ms, DEFAULT_TIMEOUT_MS);
    assert_eq!(l.timeout_ms, 5_000);
}

#[test]
fn overrides_pass_through_verbatim() {
    let mut p = params("rust", "fn main(){}");
    p.max_fuel = Some(123);
    p.max_memory = Some(1 << 20);
    p.timeout_ms = Some(250);
    let l = validate_request(&p).unwrap();
    assert_eq!(l.max_steps, 123);
    assert_eq!(l.max_memory_bytes, 1 << 20);
    assert_eq!(l.timeout_ms, 250);
}

#[test]
fn resolve_keeps_each_limit_independent() {
    let l = ExecutionLimits::resolve(Some(7), None, Some(99));
    assert_eq!(l.max_steps, 7);
    assert_eq!(l.max_memory_bytes, DEFAULT_MAX_MEMORY);
    assert_eq!(l.timeout_ms, 99);
}

#[test]
fn fuel_accounting_from_remaining_fuel() {
    assert_eq!(steps_consumed(1_000, Some(400)), Some(600));
    assert_eq!(steps_consumed(1_000, Some(0)), Some(1_000));
    assert_eq!(steps_consumed(1_000, Some(2_000)), Some(0));
    assert_eq!(steps_consumed(1_000, None), None);
}

#[test]
fn method_dispatch() {
    assert_eq!(parse_method("execute_code"), RpcMethod::ExecuteCode);
    assert_eq!(parse_method("search_web"), RpcMethod::Unknown);
    assert_eq!(parse_method(""), RpcMethod::Unknown);
    assert_eq!(parse_method("execute_codes"), RpcMethod::Unknown);
    assert_eq!(parse_method("Execute_code"), RpcMethod::Unknown);
}

#[test]
fn error_codes_and_messages() {
    assert_eq!(RequestError::EmptyCode.code(), CODE_EMPTY_CODE);
    assert_eq!(RequestError::EmptyCode.code(), -32002);
    assert_eq!(RequestError::UnsupportedLanguage.code(), CODE_INVALID_PARAMS);
    assert_eq!(RequestError::InvalidStepBudget.code(), -32602);
    assert_eq!(RequestError::EmptyCode.message(), "Empty code payload");
    assert_eq!(RequestError::UnsupportedLanguage.message(), "Unsupported language");
    assert_eq!(CODE_METHOD_NOT_FOUND, -32601);
    assert_eq!(CODE_INTERNAL_ERROR, -32603);
}

#[test]
fn writer_records_bytes_in_order() {
    let mut w = Writer::new();
    assert_eq!(w.len(), 0);
    let n = w.write(b"hi");
    assert_eq!(n, 2);
    w.flush();
    let n = w.write(b" there\n");
    assert_eq!(n, 7);
    assert_eq!(w.as_bytes().as_slice(), b"hi there\n");
    assert_eq!(w.into_bytes(), b"hi there\n".to_vec());
}

#[test]
fn writers_of_two_runs_stay_independent() {
    let mut a = Writer::new();
    let mut b = Writer::new();
    a.write(b"first run");
    b.write(b"second");
    a.write(b"!");
    b.flush();
    assert_eq!(a.as_bytes().as_slice(), b"first run!");
    assert_eq!(b.as_bytes().as_slice(), b"second");
}

#[test]
fn normal_completion_yields_exit_zero_and_exact_stdout() {
    let o = ExecutionOutcome::from_termination(RunTermination::Completed, Some(42));
    let r = assemble_result(&o, b"hi\n", b"");
    assert_eq!(r.stdout, "hi\n");
    assert_eq!(r.stderr, "");
    assert_eq!(r.exit_code, 0);
    assert!(!r.timed_out);
    assert_eq!(r.fuel_used, Some(42));
}

#[test]
fn trap_yields_nonzero_exit_without_timeout() {
    let o = ExecutionOutcome::from_termination(
        RunTermination::Trapped("all fuel consumed".to_string()),
        Some(1_000),
    );
    assert!(o.trapped);
    assert!(!o.completed_normally);
    assert!(!o.timed_out);
    assert_eq!(o.trap_cause.as_deref(), Some("all fuel consumed"));
    let r = assemble_result(&o, b"partial", b"oops");
    assert_eq!(r.exit_code, 1);
    assert!(!r.timed_out);
    assert_eq!(r.stdout, "partial");
    assert_eq!(r.stderr, "oops");
}

#[test]
fn timeout_yields_nonzero_exit_and_timed_out() {
    let o = ExecutionOutcome::from_termination(RunTermination::TimedOut, None);
    assert!(o.timed_out);
    assert!(o.trap_cause.is_none());
    let r = assemble_result(&o, b"", b"");
    assert_eq!(r.exit_code, 1);
    assert!(r.timed_out);
    assert_eq!(r.fuel_used, None);
}

#[test]
fn missing_metering_count_is_not_an_error() {
    let o = ExecutionOutcome::from_termination(RunTermination::Completed, None);
    let r = assemble_result(&o, b"ok", b"");
    assert_eq!(r.exit_code, 0);
    assert_eq!(r.fuel_used, None);
}

#[test]
fn invalid_output_bytes_are_replaced_not_dropped() {
    let o = ExecutionOutcome::from_termination(RunTermination::Completed, None);
    let r = assemble_result(&o, &[0xff, b'a'], &[0xc3, 0x28]);
    assert_eq!(r.stdout, "\u{fffd}a");
    assert_eq!(r.stderr, "\u{fffd}(");
}

#[test]
fn compilation_failure_carries_diagnostic() {
    let r = compilation_failure_result("error[E0425]: not found".to_string());
    assert_eq!(r.stdout, "");
    assert_eq!(r.stderr, "error[E0425]: not found");
    assert_eq!(r.exit_code, 1);
    assert!(!r.timed_out);
    assert_eq!(r.fuel_used, None);
}

#[test]
fn toolchain_exit_classification() {
    assert_eq!(classify_toolchain_exit(true, b"ignored"), Ok(()));
    let e = classify_toolchain_exit(false, b"expected `;`").unwrap_err();
    assert_eq!(e, "expected `;`");
    let e = classify_toolchain_exit(false, &[0xff]).unwrap_err();
    assert_eq!(e, "\u{fffd}");
}

#[test]
fn toolchain_argument_set_is_fixed() {
    let args = compiler_args("/tmp/job/main.rs", "/tmp/job/out.wasm");
    let expected = vec![
        "--edition=2021",
        "-C",
        "opt-level=z",
        "-C",
        "panic=abort",
        "--target",
        "wasm32-wasi",
        "/tmp/job/main.rs",
        "-o",
        "/tmp/job/out.wasm",
    ];
    assert_eq!(args, expected);
}
