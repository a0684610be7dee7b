//! Request validation: the guards that run before any compilation.
//!
//! A blank code payload and an unsupported language are rejected here,
//! prior to any compilation attempt; a zero step budget can never admit
//! execution work and is rejected as an invalid parameter. A request
//! that passes resolves to its effective limits.

use vstd::prelude::*;
use crate::limits::{resolved_limits, ExecutionLimits};
use crate::protocol::{
    ExecuteCodeParams,
    CODE_EMPTY_CODE,
    CODE_INVALID_PARAMS,
};
use crate::text::{code_is_blank, is_blank, is_supported_language, language_supported};

verus! {

/// Why a request was rejected before compilation.
#[derive(PartialEq, Eq, Structural, Clone, Copy, Debug)]
pub enum RequestError {
    /// The code payload is empty or whitespace-only.
    EmptyCode,
    /// The declared language is not the supported dialect.
    UnsupportedLanguage,
    /// The supplied step budget is zero.
    InvalidStepBudget,
}

/// The JSON-RPC error code a rejection maps to.
pub open spec fn error_code_of(e: RequestError) -> int {
    match e {
        RequestError::EmptyCode => CODE_EMPTY_CODE as int,
        RequestError::UnsupportedLanguage => CODE_INVALID_PARAMS as int,
        RequestError::InvalidStepBudget => CODE_INVALID_PARAMS as int,
    }
}

impl RequestError {
    /// The JSON-RPC error code for this rejection.
    pub fn code(&self) -> (c: i64)
        ensures
            c == error_code_of(*self),
    {
        match self {
            RequestError::EmptyCode => CODE_EMPTY_CODE,
            RequestError::UnsupportedLanguage => CODE_INVALID_PARAMS,
            RequestError::InvalidStepBudget => CODE_INVALID_PARAMS,
        }
    }

    /// The human-readable message for this rejection.
    pub fn message(&self) -> (m: String)
        ensures
            *self == RequestError::EmptyCode ==> m@ == "Empty code payload"@,
            *self == RequestError::UnsupportedLanguage ==> m@ == "Unsupported language"@,
            *self == RequestError::InvalidStepBudget ==> m@ == "Step budget must be positive"@,
    {
        match self {
            RequestError::EmptyCode => "Empty code payload".to_owned(),
            RequestError::UnsupportedLanguage => "Unsupported language".to_owned(),
            RequestError::InvalidStepBudget => "Step budget must be positive".to_owned(),
        }
    }
}

/// Validate one request and resolve its limits.
///
/// The guards run in a fixed order, each prior to any compilation
/// attempt: a blank payload is rejected first, then an unsupported
/// language, then a zero step budget. A request that passes all three
/// resolves to its effective limits.
pub fn validate_request(params: &ExecuteCodeParams) -> (r: Result<ExecutionLimits, RequestError>)
    ensures
        is_blank(params.code@) ==> r == Err::<ExecutionLimits, RequestError>(
            RequestError::EmptyCode,
        ),
        !is_blank(params.code@) && !is_supported_language(params.language@) ==> r == Err::<
            ExecutionLimits,
            RequestError,
        >(RequestError::UnsupportedLanguage),
        !is_blank(params.code@) && is_supported_language(params.language@) && params.max_fuel
            == Some(0u64) ==> r == Err::<ExecutionLimits, RequestError>(
            RequestError::InvalidStepBudget,
        ),
        !is_blank(params.code@) && is_supported_language(params.language@) && params.max_fuel
            != Some(0u64) ==> r == Ok::<ExecutionLimits, RequestError>(
            resolved_limits(params.max_fuel, params.max_memory, params.timeout_ms),
        ),
        r matches Ok(l) ==> l.wf(),
{
    if code_is_blank(params.code.as_str()) {
        return Err(RequestError::EmptyCode);
    }
    if !language_supported(params.language.as_str()) {
        return Err(RequestError::UnsupportedLanguage);
    }
    if let Some(fuel) = params.max_fuel {
        if fuel == 0 {
            return Err(RequestError::InvalidStepBudget);
        }
    }
    Ok(ExecutionLimits::resolve(params.max_fuel, params.max_memory, params.timeout_ms))
}

} // verus!
