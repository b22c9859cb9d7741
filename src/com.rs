//! Scoped COM apartment initialization for the Windows adapters.
//!
//! Windows Runtime calls need COM initialized on the calling thread. A
//! [`ComGuard`] records one successful initialization, so that exactly the
//! initializations that succeeded are undone. This library makes no COM call
//! itself: the Windows adapter calls the initializer and hands its result
//! code to [`ComGuard::from_init_result`], then runs its work with
//! [`with_com_guard`]. [`ComGuard::new`] and [`with_com`] make no call and
//! record a guard that owes nothing.

use vstd::prelude::*;

verus! {

/// `S_OK`: COM was initialized on this thread by this call.
pub const S_OK: i32 = 0;

/// `S_FALSE`: COM was already initialized on this thread.
pub const S_FALSE: i32 = 1;

/// A failed initialization, with its result code.
#[derive(Clone, Copy, Debug, PartialEq, Eq, Structural)]
pub struct ComError {
    pub code: i32,
}

/// Whether a call must be balanced by an uninitialization.
#[derive(Debug)]
pub struct ComGuard {
    initialized: bool,
}

impl ComGuard {
    /// Whether dropping this guard owes the thread one uninitialization.
    pub closed spec fn owes_uninitialize(&self) -> bool {
        self.initialized
    }

    /// The guard for an initialization that returned `hr`: both `S_OK` and
    /// `S_FALSE` succeed and must be balanced; any other code is an error.
    pub fn from_init_result(hr: i32) -> (r: Result<ComGuard, ComError>)
        ensures
            (hr == S_OK || hr == S_FALSE) ==> (r matches Ok(g) && g.owes_uninitialize()),
            !(hr == S_OK || hr == S_FALSE) ==> r == Err::<ComGuard, ComError>(ComError { code: hr }),
    {
        if hr == S_OK || hr == S_FALSE {
            Ok(ComGuard { initialized: true })
        } else {
            Err(ComError { code: hr })
        }
    }

    /// A guard for which no initialization was made: nothing is owed.
    pub fn new() -> (r: Result<ComGuard, ComError>)
        ensures
            r matches Ok(g) && !g.owes_uninitialize(),
    {
        Ok(ComGuard { initialized: false })
    }

    /// Whether an uninitialization is owed for this guard.
    pub fn needs_uninitialize(&self) -> (r: bool)
        ensures
            r == self.owes_uninitialize(),
    {
        self.initialized
    }
}

/// Runs `f` under a guard made by [`ComGuard::new`], which makes no COM call
/// and cannot fail, so `f`'s value always comes back.
pub fn with_com<F: FnOnce() -> R, R>(f: F) -> (r: Result<R, ComError>)
    requires
        f.requires(()),
    ensures
        r matches Ok(v) && f.ensures((), v),
{
    let guard = ComGuard::new();
    match guard {
        Ok(_g) => Ok(f()),
        Err(e) => Err(e),
    }
}

/// Runs `f` under the guard that an initialization produced: a failed
/// initialization is reported as it is, and `f` runs only after a success.
pub fn with_com_guard<F: FnOnce() -> R, R>(init: Result<ComGuard, ComError>, f: F) -> (r: Result<R, ComError>)
    requires
        init is Ok ==> f.requires(()),
    ensures
        init matches Err(e) ==> r == Err::<R, ComError>(e),
        init is Ok ==> (r matches Ok(v) && f.ensures((), v)),
{
    match init {
        Ok(_guard) => Ok(f()),
        Err(e) => Err(e),
    }
}

} // verus!
