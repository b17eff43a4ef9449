//! The factorial by plain recursion: what a worker runs to completion on its
//! own before it hands the value over.

use vstd::prelude::*;

use crate::math::{
    factorial_of, lemma_wrapped_is_exact, lemma_wrapped_step, wrapped_factorial, MAX_EXACT,
};

verus! {

/// Returns the factorial of `n` in 64-bit arithmetic.
///
/// Up to `MAX_EXACT` the result is the mathematical factorial. Above it the
/// products wrap, and the result is the low 64 bits of the mathematical
/// value.
pub fn factorial(n: u64) -> (value: u64)
    ensures
        value == wrapped_factorial(n),
        value == factorial_of(n as nat) <==> n <= MAX_EXACT,
    decreases n,
{
    proof {
        lemma_wrapped_is_exact(n);
    }
    if n == 0 {
        1
    } else {
        let below = factorial(n - 1);
        proof {
            lemma_wrapped_step(n);
        }
        n.wrapping_mul(below)
    }
}

} // verus!
