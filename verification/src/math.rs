//! The mathematical factorial and its reduction to 64 bits.

use vstd::arithmetic::div_mod::{lemma_mul_mod_noop_right, lemma_small_mod};
use vstd::prelude::*;
use vstd::wrapping::u64_specs;

verus! {

/// The largest argument whose factorial fits in 64 bits.
pub const MAX_EXACT: u64 = 20;

/// The product `1 * 2 * ... * n`, which is 1 for `n == 0`.
pub open spec fn factorial_of(n: nat) -> nat
    decreases n,
{
    if n == 0 {
        1
    } else {
        n * factorial_of((n - 1) as nat)
    }
}

/// The number of values that 64 bits can hold.
pub open spec fn word_modulus() -> nat {
    0x1_0000_0000_0000_0000
}

/// The factorial of `n` as 64-bit arithmetic gives it: the low 64 bits of
/// the mathematical value.
pub open spec fn wrapped_factorial(n: u64) -> u64 {
    (factorial_of(n as nat) % word_modulus()) as u64
}

/// A larger argument never has a smaller factorial.
pub proof fn lemma_factorial_monotonic(i: nat, j: nat)
    requires
        i <= j,
    ensures
        factorial_of(i) <= factorial_of(j),
    decreases j,
{
    if i < j {
        let below = factorial_of((j - 1) as nat);
        lemma_factorial_monotonic(i, (j - 1) as nat);
        assert(j * below >= below) by (nonlinear_arith)
            requires
                j >= 1,
                below >= 0,
        ;
    }
}

/// The two factorials on either side of the 64-bit limit.
pub proof fn lemma_factorial_at_limit()
    ensures
        factorial_of(20) == 2_432_902_008_176_640_000,
        factorial_of(21) == 51_090_942_171_709_440_000,
{
    reveal_with_fuel(factorial_of, 22);
}

/// A factorial fits in 64 bits exactly when its argument is at most
/// `MAX_EXACT`.
pub proof fn lemma_fits_in_word(n: nat)
    ensures
        factorial_of(n) < word_modulus() <==> n <= MAX_EXACT,
{
    lemma_factorial_at_limit();
    if n <= 20 {
        lemma_factorial_monotonic(n, 20);
    } else {
        lemma_factorial_monotonic(21, n);
    }
}

/// Reduction to 64 bits leaves a factorial unchanged exactly when its
/// argument is at most `MAX_EXACT`.
pub proof fn lemma_wrapped_is_exact(n: u64)
    ensures
        wrapped_factorial(n) == factorial_of(n as nat) <==> n <= MAX_EXACT,
{
    lemma_fits_in_word(n as nat);
    if n <= MAX_EXACT {
        lemma_small_mod(factorial_of(n as nat), word_modulus());
    }
}

/// The reduced factorial of `n > 0` is the wrapping product of `n` and the
/// reduced factorial of `n - 1`.
pub proof fn lemma_wrapped_step(n: u64)
    requires
        n > 0,
    ensures
        wrapped_factorial(n) == u64_specs::wrapping_mul(n, wrapped_factorial((n - 1) as u64)),
{
    let below = factorial_of((n - 1) as nat) as int;
    lemma_mul_mod_noop_right(n as int, below, word_modulus() as int);
}

} // verus!
