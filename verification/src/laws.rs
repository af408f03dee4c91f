//! Facts about the mathematical factorial.

use vstd::prelude::*;
use crate::model::{factorial_of, MAX_INPUT};

verus! {

/// The factorial of zero is one, and every later factorial is its argument
/// times the factorial before it.
pub proof fn lemma_factorial_recurrence(n: nat)
    ensures
        factorial_of(0) == 1,
        n > 0 ==> factorial_of(n) == n * factorial_of((n - 1) as nat),
{
}

/// Every factorial is positive.
pub proof fn lemma_factorial_positive(n: nat)
    ensures
        factorial_of(n) > 0,
    decreases n,
{
    if n > 0 {
        let before = factorial_of((n - 1) as nat);
        lemma_factorial_positive((n - 1) as nat);
        assert(n * before > 0) by (nonlinear_arith)
            requires
                n > 0,
                before > 0,
        ;
    }
}

/// From one on, each factorial is strictly greater than the one before it.
/// (At zero the two are equal: `0! = 1! = 1`.)
pub proof fn lemma_factorial_strictly_increasing(n: nat)
    requires
        n >= 1,
    ensures
        factorial_of(n + 1) > factorial_of(n),
{
    let here = factorial_of(n);
    lemma_factorial_positive(n);
    assert(factorial_of(n + 1) == (n + 1) * here);
    assert((n + 1) * here > here) by (nonlinear_arith)
        requires
            n >= 1,
            here > 0,
    ;
}

/// The factorial never decreases as its argument grows.
pub proof fn lemma_factorial_monotonic(i: nat, j: nat)
    requires
        i <= j,
    ensures
        factorial_of(i) <= factorial_of(j),
    decreases j - i,
{
    if i < j {
        let before = factorial_of((j - 1) as nat);
        lemma_factorial_monotonic(i, (j - 1) as nat);
        lemma_factorial_positive((j - 1) as nat);
        assert(j * before >= before) by (nonlinear_arith)
            requires
                j >= 1,
                before > 0,
        ;
    }
}

/// Between distinct arguments from one on, the factorial is strictly increasing.
pub proof fn lemma_factorial_strictly_monotonic(i: nat, j: nat)
    requires
        1 <= i < j,
    ensures
        factorial_of(i) < factorial_of(j),
{
    lemma_factorial_strictly_increasing(i);
    lemma_factorial_monotonic(i + 1, j);
}

/// The two factorials on either side of the `i64` boundary.
pub proof fn lemma_factorial_at_boundary()
    ensures
        factorial_of(20) == 2_432_902_008_176_640_000,
        factorial_of(21) == 51_090_942_171_709_440_000,
{
    reveal_with_fuel(factorial_of, 22);
}

/// A factorial fits in an `i64` exactly when its argument is at most [`MAX_INPUT`].
pub proof fn lemma_factorial_fits(n: nat)
    ensures
        factorial_of(n) <= i64::MAX <==> n <= MAX_INPUT,
{
    lemma_factorial_at_boundary();
    if n <= 20 {
        lemma_factorial_monotonic(n, 20);
    } else {
        lemma_factorial_monotonic(21, n);
    }
}

} // verus!
