//! The permission manager: a shared, lock-guarded status cache in front of a
//! platform adapter.
//!
//! Every clone of a manager reads and writes the same cache. Because other
//! clones may change that cache at any moment, what a single call does to it
//! is stated on [`StatusCache`], whose operations each call performs under the
//! lock: a lookup under a read lock, a record or a clear under a write lock.

use std::sync::Arc;
use tokio::sync::oneshot::Receiver;
use vstd::prelude::*;
use vstd::rwlock::{RwLock, RwLockPredicate};
use crate::cache::{resolves_request, StatusCache};
use crate::channel::result_channel;
use crate::traits::{reportable, PermissionHandler};
use crate::types::{PermissionResult, PermissionStatus, PermissionType};

verus! {

/// Relies on Arc::clone: the clone shares the allocation, so it holds the same value.
#[verifier::external_body]
fn share<T>(a: &Arc<T>) -> (r: Arc<T>)
    ensures
        r == *a,
{
    Arc::clone(a)
}

/// What the lock guarantees of the cache it guards: a well-formed table in
/// which every status is one that `adapter` may report for its kind.
pub struct CacheInvariant<H> {
    pub adapter: H,
}

impl<H: PermissionHandler> RwLockPredicate<StatusCache> for CacheInvariant<H> {
    open spec fn inv(self, v: StatusCache) -> bool {
        &&& v.wf()
        &&& forall|k: PermissionType| #[trigger]
            v@.contains_key(k) ==> reportable(self.adapter, k, v@[k])
    }
}

/// Thread-safe permission manager with a status cache shared by all its clones.
pub struct PermissionManager<H: PermissionHandler> {
    cache: Arc<RwLock<StatusCache, CacheInvariant<H>>>,
    handler: Arc<H>,
}

impl<H: PermissionHandler> PermissionManager<H> {
    /// The lock guards the cache on behalf of this manager's own adapter.
    #[verifier::type_invariant]
    closed spec fn guards_for_adapter(&self) -> bool {
        self.cache.pred().adapter == *self.handler
    }

    /// Whether `self` and `other` are handles on one manager: one cache and one adapter.
    pub closed spec fn same_manager(&self, other: &PermissionManager<H>) -> bool {
        self.cache == other.cache && self.handler == other.handler
    }

    /// The platform adapter behind this manager.
    pub closed spec fn adapter(&self) -> H {
        *self.handler
    }

    /// A manager with an empty cache in front of `handler`.
    pub fn new(handler: H) -> (r: PermissionManager<H>)
        ensures
            r.adapter() == handler,
    {
        let ghost adapter = handler;
        let lock = RwLock::new(StatusCache::new(), Ghost(CacheInvariant { adapter }));
        PermissionManager { cache: Arc::new(lock), handler: Arc::new(handler) }
    }

    /// The cached status of `typ`, read under the read lock.
    fn cached(&self, typ: PermissionType) -> (r: Option<PermissionStatus>)
        ensures
            r matches Some(s) ==> reportable(self.adapter(), typ, s),
    {
        proof {
            use_type_invariant(self);
        }
        let guard = self.cache.acquire_read();
        let hit = guard.borrow().lookup(typ);
        guard.release_read();
        hit
    }

    /// Records `outcome` for `typ` under the write lock (a success is cached,
    /// a failure is not).
    fn record(&self, typ: PermissionType, outcome: &PermissionResult)
        requires
            *outcome matches Ok(s) ==> reportable(self.adapter(), typ, s),
    {
        proof {
            use_type_invariant(self);
        }
        let (mut cache, guard) = self.cache.acquire_write();
        cache.record(typ, outcome);
        guard.release_write(cache);
    }

    /// The status of `typ`, never showing a consent dialog: the cached status
    /// when there is one, and no adapter call then; otherwise the adapter's
    /// check, cached when it succeeds. Every error is the adapter's own,
    /// passed on unchanged: the cache only ever holds statuses.
    pub fn check_permission(&self, typ: PermissionType) -> (r: PermissionResult)
        ensures
            r is Err ==> self.adapter().check_outcome(typ, r),
            r matches Ok(s) ==> reportable(self.adapter(), typ, s),
    {
        match self.cached(typ) {
            Some(status) => Ok(status),
            None => {
                let outcome = self.handler.check_permission(typ);
                self.record(typ, &outcome);
                outcome
            },
        }
    }

    /// Starts a request of `typ`: hands the producing half of a fresh result
    /// channel to the adapter and returns the receiving half, to be awaited
    /// and then passed to [`PermissionManager::finish_request`].
    pub fn start_request(&self, typ: PermissionType) -> (r: Receiver<PermissionResult>) {
        proof {
            use_type_invariant(self);
        }
        let (tx, rx) = result_channel();
        self.handler.request_permission(typ, tx);
        rx
    }

    /// Resolves a request of `typ` from what its channel delivered (`None`
    /// when the producer went away without sending) and caches a success.
    /// What was delivered must come from this manager's adapter.
    pub fn finish_request(
        &self,
        typ: PermissionType,
        delivered: Option<PermissionResult>,
    ) -> (r: PermissionResult)
        requires
            delivered matches Some(v) ==> self.adapter().request_outcome(typ, v),
        ensures
            resolves_request(delivered, r),
    {
        proof {
            use_type_invariant(self);
        }
        let (mut cache, guard) = self.cache.acquire_write();
        let r = cache.settle_request(typ, delivered);
        guard.release_write(cache);
        r
    }

    /// Checks `typ` afresh with the adapter, bypassing the cache, and
    /// overwrites the cached status when the check succeeds.
    pub fn refresh_cache(&self, typ: PermissionType) {
        let outcome = self.handler.check_permission(typ);
        self.record(typ, &outcome);
    }

    /// Empties the cache, under one write lock.
    pub fn clear_cache(&self) {
        proof {
            use_type_invariant(self);
        }
        let (mut cache, guard) = self.cache.acquire_write();
        cache.clear();
        guard.release_write(cache);
    }
}

impl<H: PermissionHandler> Clone for PermissionManager<H> {
    /// Another handle on the same manager.
    fn clone(&self) -> (r: Self)
        ensures
            r.same_manager(self),
            r.adapter() == self.adapter(),
    {
        proof {
            use_type_invariant(self);
        }
        PermissionManager { cache: share(&self.cache), handler: share(&self.handler) }
    }
}

} // verus!
