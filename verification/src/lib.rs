//! Exact factorials of 64-bit signed integers.
//!
//! The mathematical function is [`model::factorial_of`], defined on the
//! natural numbers. [`eval::factorial`] computes it for every argument whose
//! factorial fits in an `i64`; [`eval::checked_factorial`] accepts any `i64`
//! and reports a negative argument or an overflowing result as an error.
//! The facts that callers can rely on are proved in [`laws`].

pub mod model;
pub mod laws;
pub mod eval;

pub use eval::{checked_factorial, factorial, FactorialError};
pub use model::MAX_INPUT;
