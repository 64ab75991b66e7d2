//! A calculator that keeps an append-only history of its successful operations.
//!
//! Numbers cross the library boundary as IEEE-754 binary64 bit patterns
//! (`f64::to_bits`); the library decides the guarded cases on those bits and
//! keeps the audit trail, while the floating-point unit of the caller does the
//! arithmetic itself.
pub mod calculator;
pub mod clock;
pub mod error;
pub mod number;

pub use calculator::{CalculationResult, Calculator};
pub use clock::Timestamp;
pub use error::CalculatorError;
