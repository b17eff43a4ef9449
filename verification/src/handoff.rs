//! The hand-off of one value from a worker to the context that started it.
//!
//! The initiator waits twice: for the value that the worker sends, and for
//! the worker to end. `settle` decides what the initiator may conclude from
//! what the two waits gave.

use vstd::prelude::*;

verus! {

/// Why a hand-off did not complete.
#[derive(Clone, Copy, Debug, PartialEq, Eq, Structural)]
pub enum Failure {
    /// The worker ended without having sent a value.
    Disconnected,
    /// A value was received, but the worker ended abnormally.
    JoinFailed,
}

/// The outcome of a hand-off in which `received` came out of the wait for
/// the value (`None` when the sending end was dropped with nothing sent) and
/// `joined` tells whether the worker ended normally. A missing value is
/// reported first, since the initiator meets it first.
pub open spec fn settled(received: Option<u64>, joined: bool) -> Result<u64, Failure> {
    match received {
        None => Err(Failure::Disconnected),
        Some(value) => if joined {
            Ok(value)
        } else {
            Err(Failure::JoinFailed)
        },
    }
}

/// Decides the outcome of a hand-off: the one value that was received, if
/// the worker also ended normally, and otherwise the reason for the failure.
pub fn settle(received: Option<u64>, joined: bool) -> (outcome: Result<u64, Failure>)
    ensures
        outcome == settled(received, joined),
        outcome is Ok <==> received is Some && joined,
{
    match received {
        None => Err(Failure::Disconnected),
        Some(value) => {
            if joined {
                Ok(value)
            } else {
                Err(Failure::JoinFailed)
            }
        },
    }
}

} // verus!
