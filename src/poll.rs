//! The retry-with-timeout policy: uniformly spaced polls with a fixed budget.
//! Every "not ready" answer is followed by one pause, the last one included,
//! so a wait that runs out lasts the whole budget.
use vstd::prelude::*;

verus! {

/// Pause after each poll answered "not ready", in milliseconds.
pub const POLL_INTERVAL_MS: u32 = 20;

/// Polls made before giving up: 30 seconds at one poll per interval.
pub const MAX_POLLS: u32 = 1500;

/// The count of polls answered "not ready" once one more such answer comes in
/// after `attempts` of them; it stops at the budget.
pub open spec fn after_unready(attempts: nat) -> nat {
    if attempts < MAX_POLLS {
        attempts + 1
    } else {
        attempts
    }
}

/// Records one more "not ready" answer.
pub fn next_attempt(attempts: u32) -> (r: u32)
    ensures
        r as nat == after_unready(attempts as nat),
{
    if attempts < MAX_POLLS {
        attempts + 1
    } else {
        attempts
    }
}

/// Whether another poll may follow `attempts` polls answered "not ready".
pub fn may_poll_again(attempts: u32) -> (r: bool)
    ensures
        r == (attempts < MAX_POLLS),
{
    attempts < MAX_POLLS
}

} // verus!
