//! The faults that the checked formulas report.

use vstd::prelude::*;

verus! {

/// A fault of a checked formula.
#[derive(Debug, Clone, Copy, PartialEq, Eq, Structural)]
pub enum MathError {
    /// A denominator was zero.
    DivisionByZero,
    /// An input was outside the domain of the formula.
    InvalidInput,
    /// A result did not fit the numeric type.
    Overflow,
}

impl MathError {
    /// The stable human-readable description of the fault.
    pub fn message(&self) -> (r: &'static str)
        ensures
            r@ == match self {
                MathError::DivisionByZero => "division by zero"@,
                MathError::InvalidInput => "invalid input provided"@,
                MathError::Overflow => "calculation overflow"@,
            },
    {
        match self {
            MathError::DivisionByZero => "division by zero",
            MathError::InvalidInput => "invalid input provided",
            MathError::Overflow => "calculation overflow",
        }
    }
}

} // verus!
