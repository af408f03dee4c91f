//! The mathematical factorial and the range of arguments that an `i64` can serve.

use vstd::prelude::*;

verus! {

/// The largest argument whose factorial fits in an `i64`.
///
/// `20! = 2_432_902_008_176_640_000` is below `i64::MAX`, `21!` is above it;
/// [`crate::laws::lemma_factorial_fits`] proves that this bound is exact.
pub const MAX_INPUT: i64 = 20;

/// `n!`: the product of all positive integers up to `n`, with `0! = 1`.
pub open spec fn factorial_of(n: nat) -> nat
    decreases n,
{
    if n == 0 {
        1
    } else {
        n * factorial_of((n - 1) as nat)
    }
}

} // verus!
