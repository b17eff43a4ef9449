//! What holds of the two ways to a factorial, and of the hand-off, taken
//! together.

use vstd::prelude::*;

use crate::chain::chain_value;
use crate::handoff::{settled, Failure};
use crate::math::{
    factorial_of, lemma_wrapped_is_exact, lemma_wrapped_step, wrapped_factorial, MAX_EXACT,
};

verus! {

/// The chain and the plain recursion return the same value on every
/// argument, and so does a completed hand-off of what the plain recursion
/// computed.
pub proof fn lemma_paths_agree(n: u64)
    ensures
        chain_value(n) == wrapped_factorial(n),
        settled(Some(wrapped_factorial(n)), true) == Ok::<u64, Failure>(chain_value(n)),
    decreases n,
{
    if n > 0 {
        lemma_paths_agree((n - 1) as u64);
        lemma_wrapped_step(n);
    }
}

/// While the factorial fits in 64 bits, both ways return it exactly, and a
/// completed hand-off of it delivers it exactly.
pub proof fn lemma_exact_within_limit(n: u64)
    requires
        n <= MAX_EXACT,
    ensures
        wrapped_factorial(n) == factorial_of(n as nat),
        chain_value(n) == factorial_of(n as nat),
        settled(Some(wrapped_factorial(n)), true) == Ok::<u64, Failure>(
            factorial_of(n as nat) as u64,
        ),
{
    lemma_wrapped_is_exact(n);
    lemma_paths_agree(n);
}

/// A result depends on the argument alone: two runs on one argument, each
/// by either way, return one value.
pub proof fn lemma_runs_repeat(n: u64, first: u64, second: u64)
    requires
        first == wrapped_factorial(n) || first == chain_value(n),
        second == wrapped_factorial(n) || second == chain_value(n),
    ensures
        first == second,
{
    lemma_paths_agree(n);
}

/// A hand-off ends with a value exactly when that one value was received
/// and the worker ended normally: the initiator never concludes with a value
/// that was not delivered, nor without one.
pub proof fn lemma_settled_value_was_received(received: Option<u64>, joined: bool, value: u64)
    ensures
        settled(received, joined) == Ok::<u64, Failure>(value) <==> received == Some(value)
            && joined,
{
}

} // verus!
