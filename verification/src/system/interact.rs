//! The interactive system: a plain system paired with two independent
//! watchers, for pairwise processing between two filtered entity sets. Both
//! watchers are updated on every lifecycle call, the second before the first,
//! so order-dependent self-interactions stay deterministic.

use vstd::prelude::*;

use crate::aspect::Aspect;
use crate::entity::{EntityData, EntityIter, IndexedEntity};
use crate::system::watcher::{lemma_watches_is_contains, Watcher};
use crate::system::{Process, System};
use crate::world::DataHelper;

verus! {

/// Provides the two aspects an interactive system filters by.
pub trait InteractSystemFilter: System {
    spec fn spec_filter_a() -> Aspect;

    spec fn spec_filter_b() -> Aspect;

    fn create_filter_a() -> (r: Aspect)
        ensures
            r == Self::spec_filter_a(),
    ;

    fn create_filter_b() -> (r: Aspect)
        ensures
            r == Self::spec_filter_b(),
    ;
}

/// The processing step of an interactive system: receives both watched sets
/// as sequence snapshots.
pub trait InteractProcess: InteractSystemFilter {
    fn process(
        &mut self,
        entities_a: EntityIter,
        entities_b: EntityIter,
        data: &mut DataHelper<Self::Components, Self::Services>,
    )
        requires
            old(data).wf(),
        ensures
            final(data).wf(),
    ;
}

/// Wraps a plain system with two watchers, one per aspect; the processing
/// pass hands the inner system both watched sets.
pub struct InteractSystem<T: InteractProcess> {
    pub inner: T,
    pub watcher_a: Watcher,
    pub watcher_b: Watcher,
}

impl<T: InteractProcess> InteractSystem<T> {
    /// Both watchers' invariants, each filtering by its own aspect.
    pub closed spec fn wf(self) -> bool {
        &&& self.watcher_a.wf()
        &&& self.watcher_a.aspect == T::spec_filter_a()
        &&& self.watcher_b.wf()
        &&& self.watcher_b.aspect == T::spec_filter_b()
    }

    /// The first watched set, keyed by dense index.
    pub closed spec fn watched_a(self) -> Map<usize, IndexedEntity> {
        self.watcher_a.watched()
    }

    /// The second watched set, keyed by dense index.
    pub closed spec fn watched_b(self) -> Map<usize, IndexedEntity> {
        self.watcher_b.watched()
    }
}

impl<T: InteractProcess> System for InteractSystem<T> {
    type Components = T::Components;

    type Services = T::Services;

    fn build_system() -> (r: Self)
        ensures
            r.wf(),
            r.watched_a() == Map::<usize, IndexedEntity>::empty(),
            r.watched_b() == Map::<usize, IndexedEntity>::empty(),
    {
        InteractSystem {
            inner: T::build_system(),
            watcher_a: Watcher::new(T::create_filter_a()),
            watcher_b: Watcher::new(T::create_filter_b()),
        }
    }

    fn activated(
        &mut self,
        entity: EntityData,
        components: &T::Components,
        services: &mut T::Services,
    )
        ensures
            old(self).wf() ==> final(self).wf() && ({
                let j = entity.spec_entity().spec_index();
                &&& if T::spec_filter_a().spec_matches(components, j) {
                    final(self).watched_a() == old(self).watched_a().insert(
                        j,
                        entity.spec_entity(),
                    )
                } else {
                    final(self).watched_a() == old(self).watched_a()
                }
                &&& if T::spec_filter_b().spec_matches(components, j) {
                    final(self).watched_b() == old(self).watched_b().insert(
                        j,
                        entity.spec_entity(),
                    )
                } else {
                    final(self).watched_b() == old(self).watched_b()
                }
            }),
    {
        self.watcher_b.activated(entity, components, services, &mut self.inner);
        self.watcher_a.activated(entity, components, services, &mut self.inner);
    }

    fn reactivated(
        &mut self,
        entity: EntityData,
        components: &T::Components,
        services: &mut T::Services,
    )
        ensures
            old(self).wf() ==> final(self).wf() && ({
                let j = entity.spec_entity().spec_index();
                &&& if T::spec_filter_a().spec_matches(components, j) {
                    if old(self).watched_a().contains_key(j) {
                        final(self).watched_a() == old(self).watched_a()
                    } else {
                        final(self).watched_a() == old(self).watched_a().insert(
                            j,
                            entity.spec_entity(),
                        )
                    }
                } else {
                    final(self).watched_a() == old(self).watched_a().remove(j)
                }
                &&& if T::spec_filter_b().spec_matches(components, j) {
                    if old(self).watched_b().contains_key(j) {
                        final(self).watched_b() == old(self).watched_b()
                    } else {
                        final(self).watched_b() == old(self).watched_b().insert(
                            j,
                            entity.spec_entity(),
                        )
                    }
                } else {
                    final(self).watched_b() == old(self).watched_b().remove(j)
                }
            }),
    {
        proof {
            if old(self).wf() {
                lemma_watches_is_contains(self.watcher_a, entity.spec_entity().spec_index());
                lemma_watches_is_contains(self.watcher_b, entity.spec_entity().spec_index());
            }
        }
        self.watcher_b.reactivated(entity, components, services, &mut self.inner);
        self.watcher_a.reactivated(entity, components, services, &mut self.inner);
    }

    fn deactivated(
        &mut self,
        entity: EntityData,
        components: &T::Components,
        services: &mut T::Services,
    )
        ensures
            old(self).wf() ==> final(self).wf() && final(self).watched_a() == old(
                self,
            ).watched_a().remove(entity.spec_entity().spec_index()) && final(self).watched_b()
                == old(self).watched_b().remove(entity.spec_entity().spec_index()),
    {
        self.watcher_b.deactivated(entity, components, services, &mut self.inner);
        self.watcher_a.deactivated(entity, components, services, &mut self.inner);
    }
}

impl<T: InteractProcess> Process for InteractSystem<T> {
    fn process(&mut self, data: &mut DataHelper<T::Components, T::Services>) {
        let iter_a = self.watcher_a.iter();
        let iter_b = self.watcher_b.iter();
        self.inner.process(iter_a, iter_b, data);
    }
}

} // verus!
