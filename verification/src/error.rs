//! Failures, and how an outcome is reported to the calling process.

use vstd::prelude::*;

verus! {

/// The exit status of a run that printed a result.
pub const EXIT_SUCCESS: u8 = 0;

/// The exit status of a run that was asked to divide by zero. It is kept apart
/// from the status that a command line which cannot be parsed ends with, so that
/// a script can tell the two failures apart.
pub const EXIT_DIVISION_BY_ZERO: u8 = 3;

/// Why a command yields no result.
#[derive(Clone, Copy, Debug, PartialEq, Eq, Structural)]
pub enum CalcError {
    /// The divisor of a division is a zero.
    DivisionByZero,
}

impl CalcError {
    /// The exit status that reports this failure.
    pub open spec fn exit_code_spec(self) -> u8 {
        match self {
            CalcError::DivisionByZero => EXIT_DIVISION_BY_ZERO,
        }
    }

    /// The line that tells a person of this failure.
    pub open spec fn message_spec(self) -> Seq<char> {
        match self {
            CalcError::DivisionByZero => "Division by zero"@,
        }
    }

    /// The exit status that reports this failure.
    #[verifier::when_used_as_spec(exit_code_spec)]
    pub fn exit_code(self) -> (r: u8)
        ensures
            r == self.exit_code_spec(),
            r != EXIT_SUCCESS,
    {
        match self {
            CalcError::DivisionByZero => EXIT_DIVISION_BY_ZERO,
        }
    }

    /// The line that tells a person of this failure, for the error stream.
    pub fn message(self) -> (r: &'static str)
        ensures
            r@ == self.message_spec(),
    {
        match self {
            CalcError::DivisionByZero => "Division by zero",
        }
    }
}

/// The exit status of a run that ended in `outcome`.
pub open spec fn exit_status_spec(outcome: Result<(), CalcError>) -> u8 {
    match outcome {
        Ok(_) => EXIT_SUCCESS,
        Err(e) => e.exit_code_spec(),
    }
}

/// The exit status of a run that ended in `outcome`: zero exactly when the run
/// printed a result.
#[verifier::when_used_as_spec(exit_status_spec)]
pub fn exit_status(outcome: Result<(), CalcError>) -> (r: u8)
    ensures
        r == exit_status_spec(outcome),
        r == EXIT_SUCCESS <==> outcome is Ok,
{
    match outcome {
        Ok(_) => EXIT_SUCCESS,
        Err(e) => e.exit_code(),
    }
}

} // verus!
