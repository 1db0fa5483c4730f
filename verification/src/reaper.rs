//! The decisions of the background sweep.
//!
//! The sweep runs on a fixed interval on a thread of its own. Whoever runs it
//! checks the stop signal, tries to take the store's lock, hands both
//! observations to [`next_action`] and carries out what it answers.

use vstd::prelude::*;

verus! {

/// Milliseconds between two sweeps. The interval does not scale with a
/// store's time-to-live.
pub const SWEEP_INTERVAL_MILLIS: u64 = 1000;

/// What an attempt to take the store's lock came to.
#[derive(Clone, Copy, Debug, PartialEq, Eq, Structural)]
pub enum LockOutcome {
    /// The lock is held by the sweep.
    Acquired,
    /// Somebody else holds the lock and it was not to be had promptly.
    Contended,
    /// A holder of the lock terminated abnormally while holding it.
    Poisoned,
}

/// What the sweep does in one interval.
#[derive(Clone, Copy, Debug, PartialEq, Eq, Structural)]
pub enum ReaperAction {
    /// Drop every expired entry.
    Sweep,
    /// Do nothing and try again after the next interval.
    Skip,
    /// Discard the whole map: its contents can no longer be relied on.
    Reset,
    /// End the background activity.
    Stop,
}

/// Decides one interval of the sweep. A stop request always wins; otherwise
/// the lock's state decides between sweeping, skipping and resetting.
pub fn next_action(stop_requested: bool, lock: LockOutcome) -> (action: ReaperAction)
    ensures
        action == ReaperAction::Stop <==> stop_requested,
        action == ReaperAction::Sweep <==> !stop_requested && lock == LockOutcome::Acquired,
        action == ReaperAction::Skip <==> !stop_requested && lock == LockOutcome::Contended,
        action == ReaperAction::Reset <==> !stop_requested && lock == LockOutcome::Poisoned,
{
    if stop_requested {
        ReaperAction::Stop
    } else {
        match lock {
            LockOutcome::Acquired => ReaperAction::Sweep,
            LockOutcome::Contended => ReaperAction::Skip,
            LockOutcome::Poisoned => ReaperAction::Reset,
        }
    }
}

} // verus!
