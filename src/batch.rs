//! Results of a batch of concurrent requests, keyed by permission kind.

use std::collections::HashMap;
use vstd::prelude::*;
use crate::types::{
    kind_index, lemma_kind_index_bijective, lemma_kind_index_injective, PermissionResult,
    PermissionType,
};

verus! {

broadcast use vstd::std_specs::hash::group_hash_axioms;

/// One joined request of a batch: its kind and outcome, or `None` when the
/// task running it could not be joined (it was cancelled or panicked).
pub type JoinedRequest = Option<(PermissionType, PermissionResult)>;

/// The mapping that a batch returns: every joined request in order, a later
/// outcome for a kind replacing an earlier one; unjoined requests are left out.
pub open spec fn batch_map(joined: Seq<JoinedRequest>) -> Map<PermissionType, PermissionResult>
    decreases joined.len(),
{
    if joined.len() == 0 {
        Map::empty()
    } else {
        let before = batch_map(joined.drop_last());
        match joined.last() {
            Some(e) => before.insert(e.0, e.1),
            None => before,
        }
    }
}

/// The outcome of each requested kind that completed.
pub struct BatchResults {
    map: HashMap<usize, PermissionResult>,
    order: Vec<PermissionType>,
}

impl View for BatchResults {
    type V = Map<PermissionType, PermissionResult>;

    closed spec fn view(&self) -> Map<PermissionType, PermissionResult> {
        Map::new(
            |k: PermissionType| self.map@.contains_key(kind_index(k) as usize),
            |k: PermissionType| self.map@[kind_index(k) as usize],
        )
    }
}

impl BatchResults {
    /// `order` lists each kind with an outcome once.
    pub closed spec fn wf(&self) -> bool {
        &&& self.order@.no_duplicates()
        &&& forall|k: PermissionType| #[trigger]
            self.order@.contains(k) == (self.map@.contains_key(kind_index(k) as usize))
    }

    /// No results.
    pub fn new() -> (r: BatchResults)
        ensures
            r.wf(),
            r@ == Map::<PermissionType, PermissionResult>::empty(),
    {
        let r = BatchResults { map: HashMap::new(), order: Vec::new() };
        assert forall|k: PermissionType| !r@.contains_key(k) by {
            lemma_kind_index_bijective(k);
        }
        assert forall|k: PermissionType| #[trigger]
            r.order@.contains(k) == (r.map@.contains_key(kind_index(k) as usize)) by {
            lemma_kind_index_bijective(k);
        }
        assert(r@ =~= Map::<PermissionType, PermissionResult>::empty());
        r
    }

    /// Sets the outcome of `kind`, replacing an earlier one.
    pub fn insert(&mut self, kind: PermissionType, result: PermissionResult)
        requires
            old(self).wf(),
        ensures
            final(self).wf(),
            final(self)@ == old(self)@.insert(kind, result),
    {
        let i = kind.index();
        let fresh = !self.map.contains_key(&i);
        self.map.insert(i, result);
        if fresh {
            self.order.push(kind);
        }
        proof {
            lemma_kind_index_bijective(kind);
            assert forall|k: PermissionType| #[trigger]
                self.order@.contains(k) == (self.map@.contains_key(kind_index(k) as usize)) by {
                lemma_kind_index_injective(k, kind);
                lemma_kind_index_bijective(k);
                if fresh && k != kind {
                    assert(self.order@.contains(k) == old(self).order@.contains(k)) by {
                        if self.order@.contains(k) {
                            let j = choose|j: int|
                                0 <= j < self.order@.len() && self.order@[j] == k;
                            assert(j < old(self).order@.len());
                            assert(old(self).order@[j] == k);
                        }
                        if old(self).order@.contains(k) {
                            let j = choose|j: int|
                                0 <= j < old(self).order@.len() && old(self).order@[j] == k;
                            assert(self.order@[j] == k);
                        }
                    }
                }
                if fresh && k == kind {
                    assert(self.order@[self.order@.len() - 1] == kind);
                }
            }
            if fresh {
                assert(!old(self).order@.contains(kind));
                assert forall|a: int, b: int|
                    0 <= a < self.order@.len() && 0 <= b < self.order@.len() && a != b implies
                    self.order@[a] != self.order@[b] by {
                    let n = old(self).order@.len() as int;
                    if a == n {
                        assert(old(self).order@.contains(self.order@[b]));
                    } else if b == n {
                        assert(old(self).order@.contains(self.order@[a]));
                    }
                }
            }
            assert forall|k: PermissionType| #[trigger]
                self@.contains_key(k) == old(self)@.insert(kind, result).contains_key(k) by {
                lemma_kind_index_injective(k, kind);
                lemma_kind_index_bijective(k);
            }
            assert forall|k: PermissionType| self@.contains_key(k) implies #[trigger]
                self@[k] == old(self)@.insert(kind, result)[k] by {
                lemma_kind_index_injective(k, kind);
                lemma_kind_index_bijective(k);
            }
            assert(self@ =~= old(self)@.insert(kind, result));
        }
    }

    /// The outcome of `kind`, if its request completed.
    pub fn get(&self, kind: PermissionType) -> (r: Option<&PermissionResult>)
        requires
            self.wf(),
        ensures
            r is Some == self@.contains_key(kind),
            r matches Some(v) ==> *v == self@[kind],
    {
        self.map.get(&kind.index())
    }

    /// The kinds that have an outcome, each once, in the order they first arrived.
    pub fn kinds(&self) -> (r: Vec<PermissionType>)
        requires
            self.wf(),
        ensures
            r@.no_duplicates(),
            r@.to_set() == self@.dom(),
            r@.len() == self@.len(),
    {
        proof {
            self.lemma_order_is_domain();
        }
        self.order.clone()
    }

    /// Number of kinds with an outcome.
    pub fn len(&self) -> (r: usize)
        requires
            self.wf(),
        ensures
            r == self@.len(),
    {
        proof {
            self.lemma_order_is_domain();
        }
        self.order.len()
    }

    proof fn lemma_order_is_domain(&self)
        requires
            self.wf(),
        ensures
            self.order@.to_set() == self@.dom(),
            self.order@.len() == self@.len(),
    {
        assert(self.order@.to_set() =~= self@.dom());
        self.order@.unique_seq_to_set();
    }
}

/// Gathers the joined requests of a batch into one outcome per kind.
pub fn collect_batch(joined: Vec<JoinedRequest>) -> (r: BatchResults)
    ensures
        r.wf(),
        r@ == batch_map(joined@),
{
    let ghost all = joined@;
    let mut rest = joined;
    let mut results = BatchResults::new();
    let mut done: usize = 0;
    let total: usize = rest.len();
    while rest.len() > 0
        invariant
            results.wf(),
            done <= all.len(),
            total == all.len(),
            done + rest@.len() == all.len(),
            rest@ == all.subrange(done as int, all.len() as int),
            results@ == batch_map(all.subrange(0, done as int)),
        decreases rest.len(),
    {
        let item = rest.remove(0);
        proof {
            let next = all.subrange(0, done + 1);
            assert(next.drop_last() =~= all.subrange(0, done as int));
            assert(next.last() == item);
        }
        match item {
            Some(e) => {
                let (kind, result) = e;
                results.insert(kind, result);
            },
            None => {},
        }
        done = done + 1;
    }
    assert(all.subrange(0, all.len() as int) =~= all);
    results
}

/// When every request of a batch was joined and the kinds are distinct, the
/// mapping has exactly one entry per requested kind, holding that request's
/// outcome, whatever order the requests completed in.
pub proof fn law_batch_complete(joined: Seq<JoinedRequest>)
    requires
        forall|i: int| 0 <= i < joined.len() ==> #[trigger] joined[i] is Some,
        forall|i: int, j: int|
            0 <= i < joined.len() && 0 <= j < joined.len() && i != j ==> (#[trigger] joined[i])->Some_0.0
                != (#[trigger] joined[j])->Some_0.0,
    ensures
        batch_map(joined).dom().finite(),
        batch_map(joined).len() == joined.len(),
        forall|i: int|
            0 <= i < joined.len() ==> batch_map(joined).contains_key((#[trigger] joined[i])->Some_0.0)
                && batch_map(joined)[joined[i]->Some_0.0] == joined[i]->Some_0.1,
        forall|k: PermissionType|
            #[trigger] batch_map(joined).contains_key(k) ==> exists|i: int|
                0 <= i < joined.len() && (#[trigger] joined[i])->Some_0.0 == k,
    decreases joined.len(),
{
    if joined.len() > 0 {
        let init = joined.drop_last();
        law_batch_complete(init);
        let last = joined.last()->Some_0;
        let n = joined.len() - 1;
        assert(joined[n] is Some);
        assert(!batch_map(init).contains_key(last.0)) by {
            if batch_map(init).contains_key(last.0) {
                let i = choose|i: int| 0 <= i < init.len() && (#[trigger] init[i])->Some_0.0 == last.0;
                assert(joined[i]->Some_0.0 == joined[n]->Some_0.0);
            }
        }
        assert(batch_map(joined) == batch_map(init).insert(last.0, last.1));
        assert(batch_map(joined).dom() == batch_map(init).dom().insert(last.0));
        assert forall|i: int|
            0 <= i < joined.len() implies batch_map(joined).contains_key((#[trigger] joined[i])->Some_0.0)
                && batch_map(joined)[joined[i]->Some_0.0] == joined[i]->Some_0.1 by {
            if i < n {
                assert(init[i] == joined[i]);
                assert(joined[i]->Some_0.0 != joined[n]->Some_0.0);
            }
        }
        assert forall|k: PermissionType| #[trigger]
            batch_map(joined).contains_key(k) implies exists|i: int|
                0 <= i < joined.len() && (#[trigger] joined[i])->Some_0.0 == k by {
            if k != last.0 {
                let i = choose|i: int| 0 <= i < init.len() && (#[trigger] init[i])->Some_0.0 == k;
                assert(joined[i] == init[i]);
            } else {
                assert(joined[n]->Some_0.0 == k);
            }
        }
    }
}

} // verus!
