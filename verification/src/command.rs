//! Commands, and the check that decides whether one can be carried out.

use crate::error::CalcError;
use crate::operand::{Operand, SIGN_MASK};
use vstd::prelude::*;

verus! {

/// One request to the calculator: an operation with its two operands, `a` on the
/// left and `b` on the right.
#[derive(Clone, Copy, Debug)]
pub enum Command {
    /// `a + b`
    Add { a: Operand, b: Operand },
    /// `a - b`
    Sub { a: Operand, b: Operand },
    /// `a * b`
    Mul { a: Operand, b: Operand },
    /// `a / b`
    Div { a: Operand, b: Operand },
}

/// What is owed for a division by `b`: a quotient, unless `b` is a zero.
pub open spec fn divisor_verdict(b: Operand) -> Result<(), CalcError> {
    if b.is_zero_spec() {
        Err(CalcError::DivisionByZero)
    } else {
        Ok(())
    }
}

/// Decides whether a division by `b` is carried out. It is turned down exactly
/// when `b` is a zero, of either sign; the dividend has no say.
pub fn check_divisor(b: Operand) -> (r: Result<(), CalcError>)
    ensures
        r == divisor_verdict(b),
{
    if b.is_zero() {
        Err(CalcError::DivisionByZero)
    } else {
        Ok(())
    }
}

impl Command {
    /// What is owed for the command: a result, unless it is a division by a zero.
    pub open spec fn verdict(self) -> Result<(), CalcError> {
        match self {
            Command::Div { b, .. } => divisor_verdict(b),
            _ => Ok(()),
        }
    }

    /// Decides whether the command is carried out. Additions, subtractions and
    /// multiplications always are; a division is unless its divisor is a zero.
    pub fn check(&self) -> (r: Result<(), CalcError>)
        ensures
            r == self.verdict(),
    {
        match self {
            Command::Div { b, .. } => check_divisor(*b),
            _ => Ok(()),
        }
    }

    /// Only a division can fail: every other command is owed a result.
    pub proof fn lemma_only_division_fails(self)
        requires
            !(self is Div),
        ensures
            self.verdict() is Ok,
    {
    }

    /// A division by positive or by negative zero fails with
    /// `CalcError::DivisionByZero`, whatever the dividend and its sign.
    pub proof fn lemma_division_by_zero_fails(a: Operand, b: Operand)
        requires
            b@ == 0 || b@ == SIGN_MASK,
        ensures
            (Command::Div { a, b }).verdict() == Err::<(), CalcError>(CalcError::DivisionByZero),
    {
        b.lemma_zero_encodings();
    }

    /// A division by anything but the two zeros is owed a quotient: by a
    /// subnormal, an infinity or a value that is no number too.
    pub proof fn lemma_division_by_nonzero_succeeds(a: Operand, b: Operand)
        requires
            b@ != 0,
            b@ != SIGN_MASK,
        ensures
            (Command::Div { a, b }).verdict() is Ok,
    {
        b.lemma_zero_encodings();
    }
}

} // verus!
