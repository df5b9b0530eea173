//! Integer helpers of the calculator.

use vstd::prelude::*;

verus! {

/// The product `1 * 2 * ... * n`, with the empty product `1` for `n == 0`.
pub open spec fn factorial_of(n: nat) -> nat
    decreases n,
{
    if n == 0 {
        1
    } else {
        n * factorial_of((n - 1) as nat)
    }
}

/// The largest argument whose factorial fits in a `u64`.
pub const MAX_FACTORIAL_ARG: u64 = 20;

/// `factorial_of` never decreases: a larger argument gives a product at least as large.
pub proof fn lemma_factorial_monotonic(i: nat, j: nat)
    requires
        i <= j,
    ensures
        1 <= factorial_of(i) <= factorial_of(j),
    decreases j,
{
    if j == 0 {
    } else if i == j {
        if i > 0 {
            lemma_factorial_monotonic((i - 1) as nat, (i - 1) as nat);
            assert(factorial_of(i) >= factorial_of((i - 1) as nat)) by (nonlinear_arith)
                requires
                    factorial_of(i) == i * factorial_of((i - 1) as nat),
                    i >= 1,
                    factorial_of((i - 1) as nat) >= 1,
            ;
        }
    } else {
        lemma_factorial_monotonic(i, (j - 1) as nat);
        assert(factorial_of(j) >= factorial_of((j - 1) as nat)) by (nonlinear_arith)
            requires
                factorial_of(j) == j * factorial_of((j - 1) as nat),
                j >= 1,
                factorial_of((j - 1) as nat) >= 1,
        ;
    }
}

/// The factorial of twenty, the last one below `2^64`.
pub proof fn lemma_factorial_of_twenty()
    ensures
        factorial_of(20) == 2432902008176640000,
        factorial_of(20) <= u64::MAX,
{
    reveal_with_fuel(factorial_of, 21);
}

/// Every argument up to `MAX_FACTORIAL_ARG` has a factorial that fits in a `u64`.
pub proof fn lemma_factorial_fits(n: nat)
    requires
        n <= MAX_FACTORIAL_ARG,
    ensures
        factorial_of(n) <= u64::MAX,
{
    lemma_factorial_of_twenty();
    lemma_factorial_monotonic(n, 20);
}

/// Computes `n!`.
///
/// The argument is limited to `MAX_FACTORIAL_ARG`, beyond which the product
/// no longer fits in the result type.
pub fn factorial(n: u64) -> (result: u64)
    requires
        n <= MAX_FACTORIAL_ARG,
    ensures
        result == factorial_of(n as nat),
    decreases n,
{
    if n == 0 {
        1
    } else {
        let rest: u64 = factorial(n - 1);
        proof {
            lemma_factorial_fits(n as nat);
        }
        n * rest
    }
}

} // verus!
