//! Bindings for the Raspberry Pi's `vcgencmd` utility: the argument vectors it
//! expects, the parsing of its single-line answers, and the decoding of the
//! throttling status word.
use vstd::prelude::*;

pub mod command;
pub mod parsers;
pub mod text;
pub mod throttle;

use std::num::{ParseFloatError, ParseIntError};
use subprocess::PopenError;

pub use crate::command::{command_line, resolve_command, resolve_src, ClockSrc, Cmd, MemSrc, Src, VoltSrc};
pub use crate::throttle::{interpret_bit_pattern, ThrottledStatus};

use crate::parsers::{frequency_text, int_outcome, mem_text, throttled_text};

verus! {

/// Declares subprocess's `PopenError`, the launch failure that a run reports,
/// so that `ExecutionError` can carry it unopened.
#[verifier::external_type_specification]
#[verifier::external_body]
pub struct ExPopenError(subprocess::PopenError);

/// Declares std's `ParseIntError`, the failure of `isize::from_str_radix`, so
/// that `ExecutionError` can carry it unopened.
#[verifier::external_type_specification]
#[verifier::external_body]
pub struct ExParseIntError(std::num::ParseIntError);

/// Declares std's `ParseFloatError`, the failure of a floating-point reading, so
/// that `ExecutionError` can carry it unopened.
#[verifier::external_type_specification]
#[verifier::external_body]
pub struct ExParseFloatError(std::num::ParseFloatError);

/// Why a reading could not be taken.
#[derive(Debug)]
pub enum ExecutionError {
    /// The tool could not be launched, or its run failed.
    Popen(PopenError),
    /// The answer has no `=` separating the label from the value.
    Format,
    /// The value is not an integer in the expected radix, or does not fit.
    ParseInt(ParseIntError),
    /// The value is not a decimal floating-point number.
    ParseFloat(ParseFloatError),
}

/// The frequency in Hz that a `measure_clock` run reported, given what the run
/// wrote to standard output or why it could not be made.
pub fn measure_clock(output: Result<String, PopenError>) -> (r: Result<isize, ExecutionError>)
    ensures
        match output {
            Err(e) => r == Err::<isize, ExecutionError>(ExecutionError::Popen(e)),
            Ok(text) => int_outcome(r, frequency_text(text@), 10),
        },
{
    match output {
        Err(e) => Err(ExecutionError::Popen(e)),
        Ok(text) => parsers::frequency(&text),
    }
}

/// The size in megabytes that a `get_mem` run reported, given what the run
/// wrote to standard output or why it could not be made.
pub fn get_mem(output: Result<String, PopenError>) -> (r: Result<isize, ExecutionError>)
    ensures
        match output {
            Err(e) => r == Err::<isize, ExecutionError>(ExecutionError::Popen(e)),
            Ok(text) => int_outcome(r, mem_text(text@), 10),
        },
{
    match output {
        Err(e) => Err(ExecutionError::Popen(e)),
        Ok(text) => parsers::mem(&text),
    }
}

/// The status word that a `get_throttled` run reported, given what the run
/// wrote to standard output or why it could not be made.
pub fn get_throttled(output: Result<String, PopenError>) -> (r: Result<isize, ExecutionError>)
    ensures
        match output {
            Err(e) => r == Err::<isize, ExecutionError>(ExecutionError::Popen(e)),
            Ok(text) => int_outcome(r, throttled_text(text@), 16),
        },
{
    match output {
        Err(e) => Err(ExecutionError::Popen(e)),
        Ok(text) => parsers::throttled(&text),
    }
}

} // verus!
