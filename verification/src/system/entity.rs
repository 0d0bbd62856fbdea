//! The entity-filtered system: a plain system paired with one watcher, so its
//! processing step sees exactly the entities matching its aspect.

use vstd::prelude::*;

use crate::aspect::Aspect;
use crate::entity::{EntityData, EntityIter, IndexedEntity};
use crate::system::watcher::{lemma_watches_is_contains, Watcher};
use crate::system::{Process, System};
use crate::world::DataHelper;

verus! {

/// Provides the aspect an entity system filters by.
pub trait FilteredEntitySystem: System {
    spec fn spec_aspect() -> Aspect;

    fn create_aspect() -> (r: Aspect)
        ensures
            r == Self::spec_aspect(),
    ;
}

/// The processing step of an entity system: receives the currently watched
/// entities as a sequence snapshot.
pub trait EntityProcess: FilteredEntitySystem {
    fn process(
        &mut self,
        entities: EntityIter,
        data: &mut DataHelper<Self::Components, Self::Services>,
    )
        requires
            old(data).wf(),
        ensures
            final(data).wf(),
    ;
}

/// Wraps a plain system with a watcher for its aspect: lifecycle calls keep
/// the watched set consistent with the aspect, and each processing pass hands
/// the inner system exactly that set.
pub struct EntitySystem<T: EntityProcess> {
    pub inner: T,
    pub(crate) watcher: Watcher,
}

impl<T: EntityProcess> EntitySystem<T> {
    /// The watcher's invariant, and that it filters by this system's aspect.
    pub closed spec fn wf(self) -> bool {
        self.watcher.wf() && self.watcher.aspect == T::spec_aspect()
    }

    /// The watched set: the entities cached as matching the aspect, keyed by
    /// dense index.
    pub closed spec fn watched(self) -> Map<usize, IndexedEntity> {
        self.watcher.watched()
    }

    /// A fresh entity system watching nothing.
    pub fn new() -> (r: EntitySystem<T>)
        ensures
            r.wf(),
            r.watched() == Map::<usize, IndexedEntity>::empty(),
    {
        EntitySystem { inner: T::build_system(), watcher: Watcher::new(T::create_aspect()) }
    }
}

impl<T: EntityProcess> System for EntitySystem<T> {
    type Components = T::Components;

    type Services = T::Services;

    fn build_system() -> (r: Self)
        ensures
            r.wf(),
            r.watched() == Map::<usize, IndexedEntity>::empty(),
    {
        EntitySystem::new()
    }

    fn activated(
        &mut self,
        entity: EntityData,
        components: &T::Components,
        services: &mut T::Services,
    )
        ensures
            old(self).wf() ==> final(self).wf() && ({
                let j = entity.spec_entity().spec_index();
                if T::spec_aspect().spec_matches(components, j) {
                    final(self).watched() == old(self).watched().insert(j, entity.spec_entity())
                } else {
                    final(self).watched() == old(self).watched()
                }
            }),
    {
        self.watcher.activated(entity, components, services, &mut self.inner);
    }

    fn reactivated(
        &mut self,
        entity: EntityData,
        components: &T::Components,
        services: &mut T::Services,
    )
        ensures
            old(self).wf() ==> final(self).wf() && ({
                let j = entity.spec_entity().spec_index();
                if T::spec_aspect().spec_matches(components, j) {
                    if old(self).watched().contains_key(j) {
                        final(self).watched() == old(self).watched()
                    } else {
                        final(self).watched() == old(self).watched().insert(
                            j,
                            entity.spec_entity(),
                        )
                    }
                } else {
                    final(self).watched() == old(self).watched().remove(j)
                }
            }),
    {
        proof {
            if old(self).wf() {
                lemma_watches_is_contains(self.watcher, entity.spec_entity().spec_index());
            }
        }
        self.watcher.reactivated(entity, components, services, &mut self.inner);
    }

    fn deactivated(
        &mut self,
        entity: EntityData,
        components: &T::Components,
        services: &mut T::Services,
    )
        ensures
            old(self).wf() ==> final(self).wf() && final(self).watched() == old(
                self,
            ).watched().remove(entity.spec_entity().spec_index()),
    {
        self.watcher.deactivated(entity, components, services, &mut self.inner);
    }
}

impl<T: EntityProcess> Process for EntitySystem<T> {
    fn process(&mut self, data: &mut DataHelper<T::Components, T::Services>) {
        let entities = self.watcher.iter();
        self.inner.process(entities, data);
    }
}

} // verus!
