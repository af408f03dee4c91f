//! Executable factorials on `i64`.

use vstd::prelude::*;
use crate::model::{factorial_of, MAX_INPUT};
use crate::laws::{lemma_factorial_fits, lemma_factorial_positive};

verus! {

/// Why [`checked_factorial`] returned no value.
#[derive(Clone, Copy, Debug, PartialEq, Eq, Structural)]
pub enum FactorialError {
    /// The argument is below zero, where the factorial is not defined.
    NegativeInput,
    /// The argument is above [`MAX_INPUT`]: its factorial exceeds `i64::MAX`.
    Overflow,
}

/// Returns `value!` for an argument between zero and [`MAX_INPUT`].
///
/// Arguments outside that range are excluded by the precondition; callers that
/// cannot rule them out use [`checked_factorial`].
pub fn factorial(value: i64) -> (result: i64)
    requires
        0 <= value <= MAX_INPUT,
    ensures
        result == factorial_of(value as nat),
        result > 0,
    decreases value,
{
    if value == 0 {
        1
    } else {
        let before: i64 = factorial(value - 1);
        proof {
            lemma_factorial_fits(value as nat);
            lemma_factorial_positive(value as nat);
        }
        value * before
    }
}

/// Returns `value!` where it exists and fits in an `i64`, and says why where it does not.
pub fn checked_factorial(value: i64) -> (result: Result<i64, FactorialError>)
    ensures
        0 <= value <= MAX_INPUT <==> result is Ok,
        result matches Ok(product) ==> product == factorial_of(value as nat),
        value < 0 <==> result == Err::<i64, FactorialError>(FactorialError::NegativeInput),
        value > MAX_INPUT <==> result == Err::<i64, FactorialError>(FactorialError::Overflow),
        value > MAX_INPUT ==> factorial_of(value as nat) > i64::MAX,
{
    if value < 0 {
        Err(FactorialError::NegativeInput)
    } else if value > MAX_INPUT {
        proof {
            lemma_factorial_fits(value as nat);
        }
        Err(FactorialError::Overflow)
    } else {
        Ok(factorial(value))
    }
}

} // verus!
