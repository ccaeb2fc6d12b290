//! Single-digit decimal arithmetic: the ten digits and the four column
//! operations on them, each giving a result digit and an optional second digit
//! (carry, borrow or remainder) for the neighbouring column.

use vstd::prelude::*;

pub mod digits;
pub mod laws;

verus! {

/// The ways in which an arithmetic operation can fail.
#[derive(Clone, Copy, Debug, PartialEq, Eq, Structural)]
pub enum MathErrors {
    /// The divisor was the zero digit.
    DivisionByZero,
}

} // verus!
