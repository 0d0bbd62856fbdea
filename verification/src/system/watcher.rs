//! The watcher: an incrementally maintained cache of the entities currently
//! matching one aspect. It is updated only by lifecycle calls, never by
//! rescans, and its set is modelled as a map from dense index to binding.

use vstd::map::*;
use vstd::prelude::*;

use crate::aspect::Aspect;
use crate::component::ComponentManager;
use crate::entity::{EntityData, EntityIter, IndexedEntity};
use crate::services::ServiceManager;
use crate::system::System;

verus! {

/// Tracks, for one aspect, the entities currently satisfying it. The set is
/// consistent with the aspect as of the last lifecycle call delivered; it is
/// not re-validated on reads.
pub struct Watcher {
    pub aspect: Aspect,
    pub interested: Vec<IndexedEntity>,
}

impl Watcher {
    /// The watched bindings, in insertion order.
    pub open(crate) spec fn items(self) -> Seq<IndexedEntity> {
        self.interested@
    }

    /// Whether some watched entity occupies the dense index `j`.
    pub open spec fn watches(self, j: usize) -> bool {
        exists|k: int|
            0 <= k < self.items().len() && (#[trigger] self.items()[k]).spec_index() == j
    }

    spec fn index_pos(self, j: usize) -> int {
        choose|k: int|
            0 <= k < self.items().len() && (#[trigger] self.items()[k]).spec_index() == j
    }

    /// The watcher's invariant: no two watched bindings share an index.
    pub open spec fn wf(self) -> bool {
        forall|k1: int, k2: int|
            0 <= k1 < k2 < self.items().len() ==> (#[trigger] self.items()[k1]).spec_index() != (
            #[trigger] self.items()[k2]).spec_index()
    }

    /// The watched set: exactly the entities currently cached as matching the
    /// aspect, keyed by their dense index.
    pub closed spec fn watched(self) -> Map<usize, IndexedEntity> {
        Map::new(|j: usize| self.watches(j), |j: usize| self.items()[self.index_pos(j)])
    }

    /// A fresh watcher for the given aspect, watching nothing.
    pub fn new(aspect: Aspect) -> (r: Watcher)
        ensures
            r.wf(),
            r.aspect == aspect,
            r.watched() == Map::<usize, IndexedEntity>::empty(),
    {
        let r = Watcher { aspect, interested: Vec::new() };
        proof {
            assert_maps_equal!(r.watched(), Map::<usize, IndexedEntity>::empty(), j => {});
        }
        r
    }

    fn find(&self, j: usize) -> (r: Option<usize>)
        ensures
            match r {
                Some(k) => k < self.items().len() && self.items()[k as int].spec_index() == j,
                None => !self.watches(j),
            },
    {
        let mut k: usize = 0;
        while k < self.interested.len()
            invariant
                k <= self.items().len(),
                forall|i: int| 0 <= i < k ==> (#[trigger] self.items()[i]).spec_index() != j,
            decreases self.items().len() - k,
        {
            if self.interested[k].index() == j {
                return Some(k);
            }
            k += 1;
        }
        None
    }

    /// A snapshot sequence over the watched set, in insertion order. The
    /// order is unspecified by contract and stable only within a tick.
    pub fn iter(&self) -> (r: EntityIter)
        ensures
            r.spec_pos() == 0,
            r.spec_items() == self.items(),
    {
        let mut acc: Vec<IndexedEntity> = Vec::new();
        let mut k: usize = 0;
        while k < self.interested.len()
            invariant
                k <= self.items().len(),
                acc@ == self.items().take(k as int),
            decreases self.items().len() - k,
        {
            acc.push(self.interested[k].__clone());
            proof {
                assert(acc@ =~= self.items().take(k + 1 as int));
            }
            k += 1;
        }
        proof {
            assert(acc@ =~= self.items());
        }
        EntityIter::from_vec(acc)
    }

    /// Reports a fresh entity to the watcher: if the aspect accepts it, it
    /// enters the watched set and the inner system's `activated` hook runs,
    /// exactly once; otherwise nothing happens.
    pub fn activated<C: ComponentManager, M: ServiceManager, T: System<
        Components = C,
        Services = M,
    >>(&mut self, entity: EntityData, components: &C, services: &mut M, inner: &mut T)
        ensures
            final(self).aspect == old(self).aspect,
            old(self).wf() ==> final(self).wf() && ({
                let j = entity.spec_entity().spec_index();
                if old(self).aspect.spec_matches(components, j) {
                    final(self).watched() == old(self).watched().insert(j, entity.spec_entity())
                } else {
                    final(self).watched() == old(self).watched()
                }
            }),
    {
        if self.aspect.check(entity, components) {
            let j = entity.index();
            let ghost w0 = *self;
            match self.find(j) {
                Some(k) => {
                    self.interested.set(k, entity.0);
                    proof {
                        if w0.wf() {
                            lemma_overwrite(w0, *self, k as int, entity.spec_entity());
                        }
                    }
                },
                None => {
                    self.interested.push(entity.0);
                    proof {
                        if w0.wf() {
                            lemma_push(w0, *self, entity.spec_entity());
                        }
                    }
                },
            }
            inner.activated(entity, components, services);
        }
    }

    /// Re-evaluates a live entity after its components changed. By whether it
    /// was watched and whether it now matches: watched and matching forwards
    /// `reactivated`; watched and failing leaves the set with one
    /// `deactivated`; unwatched and matching enters the set with one
    /// `activated`; unwatched and failing does nothing.
    pub fn reactivated<C: ComponentManager, M: ServiceManager, T: System<
        Components = C,
        Services = M,
    >>(&mut self, entity: EntityData, components: &C, services: &mut M, inner: &mut T)
        ensures
            final(self).aspect == old(self).aspect,
            old(self).wf() ==> final(self).wf() && ({
                let j = entity.spec_entity().spec_index();
                if old(self).aspect.spec_matches(components, j) {
                    if old(self).watches(j) {
                        final(self).watched() == old(self).watched()
                    } else {
                        final(self).watched() == old(self).watched().insert(
                            j,
                            entity.spec_entity(),
                        )
                    }
                } else {
                    final(self).watched() == old(self).watched().remove(j)
                }
            }),
    {
        let j = entity.index();
        let ghost w0 = *self;
        let found = self.find(j);
        let matches = self.aspect.check(entity, components);
        match (found, matches) {
            (Some(_), true) => {
                inner.reactivated(entity, components, services);
            },
            (Some(k), false) => {
                let _ = self.interested.swap_remove(k);
                proof {
                    if w0.wf() {
                        lemma_swap_remove(w0, *self, k as int);
                    }
                }
                inner.deactivated(entity, components, services);
            },
            (None, true) => {
                self.interested.push(entity.0);
                proof {
                    if w0.wf() {
                        lemma_push(w0, *self, entity.spec_entity());
                    }
                }
                inner.activated(entity, components, services);
            },
            (None, false) => {
                proof {
                    lemma_remove_absent(w0, j);
                }
            },
        }
    }

    /// Reports the removal of an entity: if it was watched it leaves the set
    /// and the inner system's `deactivated` hook runs, exactly once;
    /// otherwise nothing happens.
    pub fn deactivated<C: ComponentManager, M: ServiceManager, T: System<
        Components = C,
        Services = M,
    >>(&mut self, entity: EntityData, components: &C, services: &mut M, inner: &mut T)
        ensures
            final(self).aspect == old(self).aspect,
            old(self).wf() ==> final(self).wf() && final(self).watched() == old(
                self,
            ).watched().remove(entity.spec_entity().spec_index()),
    {
        let j = entity.index();
        let ghost w0 = *self;
        match self.find(j) {
            Some(k) => {
                let _ = self.interested.swap_remove(k);
                proof {
                    if w0.wf() {
                        lemma_swap_remove(w0, *self, k as int);
                    }
                }
                inner.deactivated(entity, components, services);
            },
            None => {
                proof {
                    lemma_remove_absent(w0, j);
                }
            },
        }
    }
}

/// A watcher's `watches` predicate and its watched map's domain agree.
pub proof fn lemma_watches_is_contains(w: Watcher, j: usize)
    ensures
        w.watches(j) == w.watched().contains_key(j),
{
}

/// Each watched index determines its position: with distinct indices, any two
/// positions carrying the same index coincide.
proof fn lemma_unique_pos(w: Watcher, k: int, j: usize)
    requires
        w.wf(),
        0 <= k < w.items().len(),
        w.items()[k].spec_index() == j,
    ensures
        w.watches(j),
        w.index_pos(j) == k,
        w.watched().contains_key(j),
        w.watched()[j] == w.items()[k],
{
    assert(w.watches(j));
    let p = w.index_pos(j);
    assert(0 <= p < w.items().len() && w.items()[p].spec_index() == j);
    if p < k {
        assert(w.items()[p].spec_index() != w.items()[k].spec_index());
    } else if k < p {
        assert(w.items()[k].spec_index() != w.items()[p].spec_index());
    }
}

proof fn lemma_push(w0: Watcher, w1: Watcher, ie: IndexedEntity)
    requires
        w0.wf(),
        !w0.watches(ie.spec_index()),
        w1.items() == w0.items().push(ie),
    ensures
        w1.wf(),
        w1.watched() == w0.watched().insert(ie.spec_index(), ie),
{
    let j0 = ie.spec_index();
    let n = w0.items().len() as int;
    assert forall|k1: int, k2: int|
        0 <= k1 < k2 < w1.items().len() implies (#[trigger] w1.items()[k1]).spec_index() != (
    #[trigger] w1.items()[k2]).spec_index() by {
        if k2 == n {
            if w1.items()[k1].spec_index() == j0 {
                assert(w0.items()[k1].spec_index() == j0);
                assert(w0.watches(j0));
            }
        }
    }
    assert_maps_equal!(w1.watched(), w0.watched().insert(j0, ie), j => {
        if j == j0 {
            lemma_unique_pos(w1, n, j0);
        } else {
            if w0.watches(j) {
                let p = w0.index_pos(j);
                assert(0 <= p < n && w0.items()[p].spec_index() == j);
                lemma_unique_pos(w0, p, j);
                lemma_unique_pos(w1, p, j);
            } else if w1.watches(j) {
                let p = w1.index_pos(j);
                assert(0 <= p < w1.items().len() && w1.items()[p].spec_index() == j);
                assert(p != n);
                assert(w0.items()[p].spec_index() == j);
                assert(w0.watches(j));
            }
        }
    });
}

proof fn lemma_overwrite(w0: Watcher, w1: Watcher, k: int, ie: IndexedEntity)
    requires
        w0.wf(),
        0 <= k < w0.items().len(),
        w0.items()[k].spec_index() == ie.spec_index(),
        w1.items() == w0.items().update(k, ie),
    ensures
        w1.wf(),
        w1.watched() == w0.watched().insert(ie.spec_index(), ie),
{
    let j0 = ie.spec_index();
    assert forall|k1: int, k2: int|
        0 <= k1 < k2 < w1.items().len() implies (#[trigger] w1.items()[k1]).spec_index() != (
    #[trigger] w1.items()[k2]).spec_index() by {
        assert(w0.items()[k1].spec_index() != w0.items()[k2].spec_index());
        if k1 == k {
            assert(w1.items()[k2] == w0.items()[k2]);
        } else if k2 == k {
            assert(w1.items()[k1] == w0.items()[k1]);
        }
    }
    assert_maps_equal!(w1.watched(), w0.watched().insert(j0, ie), j => {
        if j == j0 {
            lemma_unique_pos(w1, k, j0);
        } else {
            if w0.watches(j) {
                let p = w0.index_pos(j);
                assert(0 <= p < w0.items().len() && w0.items()[p].spec_index() == j);
                assert(p != k);
                lemma_unique_pos(w0, p, j);
                lemma_unique_pos(w1, p, j);
            } else if w1.watches(j) {
                let p = w1.index_pos(j);
                assert(0 <= p < w1.items().len() && w1.items()[p].spec_index() == j);
                assert(p != k);
                assert(w0.items()[p].spec_index() == j);
                assert(w0.watches(j));
            }
        }
    });
}

proof fn lemma_swap_remove(w0: Watcher, w1: Watcher, k: int)
    requires
        w0.wf(),
        0 <= k < w0.items().len(),
        w1.items() == w0.items().update(k, w0.items().last()).drop_last(),
    ensures
        w1.wf(),
        w1.watched() == w0.watched().remove(w0.items()[k].spec_index()),
{
    let j0 = w0.items()[k].spec_index();
    let n = w0.items().len() as int;
    assert(w1.items().len() == n - 1);
    assert forall|i: int| 0 <= i < n - 1 implies w1.items()[i] == if i == k {
        w0.items()[n - 1]
    } else {
        w0.items()[i]
    } by {}
    assert forall|k1: int, k2: int|
        0 <= k1 < k2 < w1.items().len() implies (#[trigger] w1.items()[k1]).spec_index() != (
    #[trigger] w1.items()[k2]).spec_index() by {
        if k1 == k {
            assert(w1.items()[k1] == w0.items()[n - 1]);
            assert(w0.items()[k2].spec_index() != w0.items()[n - 1].spec_index());
        } else if k2 == k {
            assert(w1.items()[k2] == w0.items()[n - 1]);
            assert(w0.items()[k1].spec_index() != w0.items()[n - 1].spec_index());
        }
    }
    assert_maps_equal!(w1.watched(), w0.watched().remove(j0), j => {
        if j == j0 {
            if w1.watches(j0) {
                let p = w1.index_pos(j0);
                assert(0 <= p < w1.items().len() && w1.items()[p].spec_index() == j0);
                if p == k {
                    assert(w0.items()[n - 1].spec_index() == j0);
                    assert(k < n - 1 ==> w0.items()[k].spec_index() != w0.items()[n - 1].spec_index());
                    assert(k == n - 1 ==> p < k);
                    assert(false);
                } else {
                    assert(w0.items()[p].spec_index() == j0);
                    assert(p != k);
                    assert(w0.items()[p].spec_index() != w0.items()[k].spec_index());
                    assert(false);
                }
            }
        } else {
            if w0.watches(j) {
                let p = w0.index_pos(j);
                lemma_unique_pos(w0, p, j);
                assert(p != k);
                if p == n - 1 {
                    assert(k < n - 1);
                    assert(w1.items()[k] == w0.items()[n - 1]);
                    lemma_unique_pos(w1, k, j);
                } else {
                    assert(w1.items()[p] == w0.items()[p]);
                    lemma_unique_pos(w1, p, j);
                }
            } else if w1.watches(j) {
                let p = w1.index_pos(j);
                assert(0 <= p < w1.items().len() && w1.items()[p].spec_index() == j);
                if p == k {
                    assert(w0.items()[n - 1].spec_index() == j);
                    assert(w0.watches(j));
                } else {
                    assert(w0.items()[p].spec_index() == j);
                    assert(w0.watches(j));
                }
                assert(false);
            }
        }
    });
}

proof fn lemma_remove_absent(w: Watcher, j: usize)
    requires
        !w.watches(j),
    ensures
        w.watched() == w.watched().remove(j),
{
    assert_maps_equal!(w.watched(), w.watched().remove(j), q => {});
}

} // verus!
