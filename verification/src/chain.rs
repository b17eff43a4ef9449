//! The factorial as a chain of dependent levels.
//!
//! The level for `n` either returns at once or issues the nested computation
//! for `n - 1`, stays suspended until that one has completed, and then turns
//! the nested value into its own. The two decisions of a level are `enter`
//! and `resume`. A caller that suspends for real, such as an asynchronous
//! task, makes them around its own waiting; `run` makes them on the calling
//! context, where waiting is an ordinary call.

use vstd::prelude::*;

use crate::laws::lemma_paths_agree;
use crate::math::{factorial_of, lemma_wrapped_is_exact, word_modulus, wrapped_factorial, MAX_EXACT};

verus! {

/// What a level of the chain does when it is entered.
#[derive(Clone, Copy, Debug, PartialEq, Eq, Structural)]
pub enum Step {
    /// The level returns this value at once, without suspending.
    Return(u64),
    /// The level issues the nested computation on this argument and is
    /// suspended until that computation has completed.
    Await(u64),
}

/// The step that the level for `n` takes: only the level for 0 returns at
/// once, and its value is 1; every other level waits for the level just
/// below it.
pub open spec fn step_of(n: u64) -> Step {
    if n == 0 {
        Step::Return(1)
    } else {
        Step::Await((n - 1) as u64)
    }
}

/// The value with which the level for `n` returns once its nested
/// computation has returned `nested`: their product, reduced to 64 bits.
pub open spec fn resumed_value(n: u64, nested: u64) -> u64 {
    ((n as nat * nested as nat) % word_modulus()) as u64
}

/// The value that the chain for `n` returns: the innermost level resolves
/// first, and every level above it resumes with the value of the one below.
pub open spec fn chain_value(n: u64) -> u64
    decreases n,
{
    match step_of(n) {
        Step::Return(value) => value,
        Step::Await(nested) => resumed_value(n, chain_value(nested)),
    }
}

/// Decides what the level for `n` does when it is entered.
pub fn enter(n: u64) -> (step: Step)
    ensures
        step == step_of(n),
{
    if n == 0 {
        Step::Return(1)
    } else {
        Step::Await(n - 1)
    }
}

/// Computes the value with which the level for `n` returns, given the value
/// `nested` that its nested computation returned.
pub fn resume(n: u64, nested: u64) -> (value: u64)
    ensures
        value == resumed_value(n, nested),
        n * nested <= u64::MAX ==> value == n * nested,
{
    n.wrapping_mul(nested)
}

/// Runs the chain for `n` to completion on the calling context and returns
/// its value.
pub fn run(n: u64) -> (value: u64)
    ensures
        value == chain_value(n),
        value == wrapped_factorial(n),
        value == factorial_of(n as nat) <==> n <= MAX_EXACT,
    decreases n,
{
    proof {
        lemma_paths_agree(n);
        lemma_wrapped_is_exact(n);
    }
    match enter(n) {
        Step::Return(value) => value,
        Step::Await(nested) => {
            let below = run(nested);
            resume(n, below)
        },
    }
}

} // verus!
