//! The ways a calculator operation can fail.
use vstd::prelude::*;
use vstd::string::StringExecFns;

verus! {

/// Error returned by a calculator operation; a failed operation leaves the
/// history untouched.
#[derive(Debug)]
pub enum CalculatorError {
    /// The divisor compared equal to zero.
    DivisionByZero,
    /// An operation name that the calculator does not know.
    InvalidOperation(String),
    /// The operand of a square root compared less than zero.
    NegativeSquareRoot,
}

/// The human-readable text of an error.
pub open spec fn message_of(e: CalculatorError) -> Seq<char> {
    match e {
        CalculatorError::DivisionByZero => "Division by zero"@,
        CalculatorError::InvalidOperation(op) => "Invalid operation: "@ + op@,
        CalculatorError::NegativeSquareRoot => "Cannot take square root of negative number"@,
    }
}

impl CalculatorError {
    /// The human-readable text of this error, as shown to a user.
    pub fn message(&self) -> (r: String)
        ensures
            r@ == message_of(*self),
    {
        match self {
            CalculatorError::DivisionByZero => String::from_str("Division by zero"),
            CalculatorError::InvalidOperation(op) => {
                let mut s = String::from_str("Invalid operation: ");
                s.append(op.as_str());
                s
            },
            CalculatorError::NegativeSquareRoot => String::from_str(
                "Cannot take square root of negative number",
            ),
        }
    }
}

} // verus!
