//! The decision core of a small command-line calculator.
//!
//! The calculator takes one operation and two double-precision operands. This
//! library holds everything about it that is settled without doing floating-point
//! arithmetic: how an operand is encoded, when a division has to be turned down,
//! and how an outcome is reported to the calling process.

pub mod command;
pub mod error;
pub mod operand;

pub use command::{check_divisor, Command};
pub use error::{exit_status, CalcError, EXIT_DIVISION_BY_ZERO, EXIT_SUCCESS};
pub use operand::{Operand, MAGNITUDE_MASK, SIGN_MASK};
