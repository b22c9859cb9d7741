//! Waiting for a callback's value with cancellation and a time limit.
//!
//! The adapter waits in slices of `interval_ms` (on a condition variable, a
//! timer, ...) and after each slice reports what it saw; [`CancellableWait`]
//! decides whether to wait on or to finish, and with what.

use vstd::prelude::*;
use crate::types::{PermissionError, PermissionResult, PermissionStatus};

verus! {

/// What to do after a slice of waiting.
#[derive(Debug, PartialEq, Eq)]
pub enum WaitAction {
    /// Wait another slice.
    Continue,
    /// Stop with this outcome.
    Finish(PermissionResult),
}

/// A wait in slices, up to a time limit.
#[derive(Clone, Copy, Debug, PartialEq, Eq, Structural)]
pub struct CancellableWait {
    pub elapsed_ms: u64,
    pub interval_ms: u64,
    pub limit_ms: u64,
}

/// The decision after a slice: a cancellation ends the wait with
/// `Cancelled`; a value that arrived ends it with that value; otherwise the
/// slice counts toward the limit, and reaching the limit ends the wait with
/// an unknown status.
pub open spec fn wait_decision(
    w: CancellableWait,
    cancelled: bool,
    arrived: Option<PermissionStatus>,
) -> (CancellableWait, WaitAction) {
    if cancelled {
        (w, WaitAction::Finish(Err(PermissionError::Cancelled)))
    } else if arrived is Some {
        (w, WaitAction::Finish(Ok(arrived->Some_0)))
    } else {
        let elapsed = if w.elapsed_ms + w.interval_ms > u64::MAX {
            u64::MAX
        } else {
            (w.elapsed_ms + w.interval_ms) as u64
        };
        let next = CancellableWait { elapsed_ms: elapsed, ..w };
        if elapsed >= w.limit_ms {
            (next, WaitAction::Finish(Ok(PermissionStatus::Unknown)))
        } else {
            (next, WaitAction::Continue)
        }
    }
}

impl CancellableWait {
    /// A wait that has not started, in slices of `interval_ms` up to `limit_ms`.
    pub fn new(interval_ms: u64, limit_ms: u64) -> (r: CancellableWait)
        ensures
            r == (CancellableWait { elapsed_ms: 0, interval_ms, limit_ms }),
    {
        CancellableWait { elapsed_ms: 0, interval_ms, limit_ms }
    }

    /// Decides what follows a slice of waiting in which the caller saw
    /// `cancelled` and `arrived`.
    pub fn step(&mut self, cancelled: bool, arrived: Option<PermissionStatus>) -> (r: WaitAction)
        ensures
            (*final(self), r) == wait_decision(*old(self), cancelled, arrived),
    {
        if cancelled {
            WaitAction::Finish(Err(PermissionError::Cancelled))
        } else {
            match arrived {
                Some(s) => WaitAction::Finish(Ok(s)),
                None => {
                    self.elapsed_ms = self.elapsed_ms.saturating_add(self.interval_ms);
                    if self.elapsed_ms >= self.limit_ms {
                        WaitAction::Finish(Ok(PermissionStatus::Unknown))
                    } else {
                        WaitAction::Continue
                    }
                },
            }
        }
    }
}

/// A wait with a positive slice never goes on forever: each slice without a
/// value moves it `interval_ms` closer to its limit, and at the limit it stops.
pub proof fn law_wait_is_bounded(w: CancellableWait)
    requires
        w.interval_ms > 0,
    ensures
        wait_decision(w, false, None).1 is Continue ==> wait_decision(w, false, None).0.elapsed_ms
            == w.elapsed_ms + w.interval_ms && wait_decision(w, false, None).0.elapsed_ms
            < w.limit_ms,
        w.elapsed_ms >= w.limit_ms ==> wait_decision(w, false, None).1 is Finish,
{
}

} // verus!
