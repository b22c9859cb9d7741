//! The status cache: the most recently observed status of each permission kind.

use std::collections::HashMap;
use vstd::prelude::*;
use vstd::string::StringExecFns;
use crate::types::{
    kind_index, lemma_kind_index_bijective, lemma_kind_index_injective, PermissionError,
    PermissionStatus, PermissionType, KIND_COUNT,
};

verus! {

broadcast use vstd::std_specs::hash::group_hash_axioms;

/// A map from each cached kind's index (`PermissionType::index`) to its status.
pub struct StatusCache {
    map: HashMap<usize, PermissionStatus>,
}

/// The cache after a check or request of `kind` that ended in `outcome`:
/// a success is written (insert or overwrite), a failure leaves the cache as it was.
pub open spec fn after_outcome(
    cache: Map<PermissionType, PermissionStatus>,
    kind: PermissionType,
    outcome: Result<PermissionStatus, PermissionError>,
) -> Map<PermissionType, PermissionStatus> {
    match outcome {
        Ok(s) => cache.insert(kind, s),
        Err(_) => cache,
    }
}

/// How a request resolves, given what its channel delivered: the delivered
/// outcome as it is, or, when the producer went away without sending
/// (`None`), a system error saying that the channel closed.
pub open spec fn resolves_request(
    delivered: Option<Result<PermissionStatus, PermissionError>>,
    r: Result<PermissionStatus, PermissionError>,
) -> bool {
    match delivered {
        Some(v) => r == v,
        None => r matches Err(PermissionError::SystemError(m)) && m@ == "Permission channel closed"@,
    }
}

/// What a lookup of `kind` answers on a cache whose contents are `cache`.
pub open spec fn cached_status(
    cache: Map<PermissionType, PermissionStatus>,
    kind: PermissionType,
) -> Option<PermissionStatus> {
    if cache.contains_key(kind) {
        Some(cache[kind])
    } else {
        None
    }
}

impl View for StatusCache {
    type V = Map<PermissionType, PermissionStatus>;

    open spec fn view(&self) -> Map<PermissionType, PermissionStatus> {
        Map::new(
            |k: PermissionType| self.slot(k) is Some,
            |k: PermissionType| self.slot(k)->Some_0,
        )
    }
}

impl StatusCache {
    /// Only kind indices are keys.
    pub closed spec fn wf(&self) -> bool {
        forall|i: usize| #[trigger] self.map@.contains_key(i) ==> i < KIND_COUNT
    }

    /// What the map holds for `k`.
    pub closed spec fn slot(&self, k: PermissionType) -> Option<PermissionStatus> {
        if self.map@.contains_key(kind_index(k) as usize) {
            Some(self.map@[kind_index(k) as usize])
        } else {
            None
        }
    }

    /// An empty cache.
    pub fn new() -> (r: StatusCache)
        ensures
            r.wf(),
            r@ == Map::<PermissionType, PermissionStatus>::empty(),
    {
        let r = StatusCache { map: HashMap::new() };
        assert(r@ =~= Map::<PermissionType, PermissionStatus>::empty());
        r
    }

    /// The cached status of `kind`, if any.
    pub fn lookup(&self, kind: PermissionType) -> (r: Option<PermissionStatus>)
        requires
            self.wf(),
        ensures
            r == cached_status(self@, kind),
    {
        match self.map.get(&kind.index()) {
            Some(s) => Some(*s),
            None => None,
        }
    }

    /// Writes `status` as the most recent observation of `kind`.
    pub fn store(&mut self, kind: PermissionType, status: PermissionStatus)
        requires
            old(self).wf(),
        ensures
            final(self).wf(),
            final(self)@ == old(self)@.insert(kind, status),
    {
        let i = kind.index();
        self.map.insert(i, status);
        proof {
            assert forall|k: PermissionType| #[trigger] self.slot(k) == (if k == kind {
                Some(status)
            } else {
                old(self).slot(k)
            }) by {
                lemma_kind_index_injective(k, kind);
                lemma_kind_index_bijective(k);
            }
            assert(self@ =~= old(self)@.insert(kind, status));
        }
    }

    /// Records the outcome of a check or request of `kind`: a success is
    /// cached, a failure is not.
    pub fn record(&mut self, kind: PermissionType, outcome: &Result<PermissionStatus, PermissionError>)
        requires
            old(self).wf(),
        ensures
            final(self).wf(),
            final(self)@ == after_outcome(old(self)@, kind, *outcome),
    {
        match outcome {
            Ok(s) => self.store(kind, *s),
            Err(_) => {},
        }
    }

    /// Resolves a request of `kind` from what its channel delivered, and
    /// caches the status when the request succeeded.
    pub fn settle_request(
        &mut self,
        kind: PermissionType,
        delivered: Option<Result<PermissionStatus, PermissionError>>,
    ) -> (r: Result<PermissionStatus, PermissionError>)
        requires
            old(self).wf(),
        ensures
            final(self).wf(),
            resolves_request(delivered, r),
            final(self)@ == after_outcome(old(self)@, kind, r),
    {
        let r = match delivered {
            Some(v) => v,
            None => Err(PermissionError::SystemError(String::from_str("Permission channel closed"))),
        };
        self.record(kind, &r);
        r
    }

    /// Removes every entry.
    pub fn clear(&mut self)
        requires
            old(self).wf(),
        ensures
            final(self).wf(),
            final(self)@ == Map::<PermissionType, PermissionStatus>::empty(),
    {
        self.map.clear();
        assert(self@ =~= Map::<PermissionType, PermissionStatus>::empty());
    }
}

/// After a successful check or request of `kind` with status `s` is recorded
/// in a cache, a lookup of `kind` answers `s`, so the next check returns `s`
/// from the cache without consulting the platform adapter.
pub proof fn law_success_is_cached(
    before: StatusCache,
    after: StatusCache,
    kind: PermissionType,
    s: PermissionStatus,
)
    requires
        after@ == after_outcome(before@, kind, Ok(s)),
    ensures
        cached_status(after@, kind) == Some(s),
{
}

/// After a cache is cleared, a lookup of any kind answers nothing, so the
/// next check of every kind consults the platform adapter again.
pub proof fn law_clear_forgets_every_kind(after: StatusCache)
    requires
        after@ == Map::<PermissionType, PermissionStatus>::empty(),
    ensures
        forall|kind: PermissionType| #[trigger] cached_status(after@, kind) is None,
{
}

/// A request whose channel delivered an error resolves to that error and
/// leaves the cache as it was: an uncached kind stays uncached, so the next
/// check consults the platform adapter.
pub proof fn law_failed_request_is_not_cached(
    cache: Map<PermissionType, PermissionStatus>,
    kind: PermissionType,
    e: PermissionError,
    r: Result<PermissionStatus, PermissionError>,
)
    requires
        resolves_request(Some(Err(e)), r),
    ensures
        r == Err::<PermissionStatus, PermissionError>(e),
        after_outcome(cache, kind, r) == cache,
        cached_status(after_outcome(cache, kind, r), kind) == cached_status(cache, kind),
{
}

/// A request whose producer went away without sending resolves to a system
/// error, which is not cached.
pub proof fn law_dropped_producer_is_a_system_error(
    cache: Map<PermissionType, PermissionStatus>,
    kind: PermissionType,
    r: Result<PermissionStatus, PermissionError>,
)
    requires
        resolves_request(None, r),
    ensures
        r matches Err(PermissionError::SystemError(_)),
        after_outcome(cache, kind, r) == cache,
{
}

} // verus!
