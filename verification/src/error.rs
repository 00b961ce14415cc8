//! The ways in which an operation of this library refuses its input.

use vstd::prelude::*;

verus! {

/// Why an operation refused its input.
#[derive(Clone, Copy, Debug, PartialEq, Eq, Structural)]
pub enum Error {
    /// A denominator is empty or zero, or two interpolation points coincide.
    DivisionByZero,
    /// Two inputs that must be equally long are not, or a vector is not as
    /// long as the key was made for.
    LengthMismatch,
    /// A polynomial has more coefficients than the reference string has
    /// elements.
    DegreeExceeded,
}

impl Error {
    /// A sentence that says what was wrong.
    pub fn message(&self) -> (r: &'static str)
        ensures
            r@ == (match *self {
                Error::DivisionByZero => "Cannot divide by zero polynomial"@,
                Error::LengthMismatch => "Number of points and values do not match"@,
                Error::DegreeExceeded => "Polynomial degree exceeds the reference string"@,
            }),
    {
        match self {
            Error::DivisionByZero => "Cannot divide by zero polynomial",
            Error::LengthMismatch => "Number of points and values do not match",
            Error::DegreeExceeded => "Polynomial degree exceeds the reference string",
        }
    }
}

} // verus!
