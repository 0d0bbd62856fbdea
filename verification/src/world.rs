//! The world: the top-level container binding the component set, services,
//! and entity manager, and the tick orchestration over the system manager.

use vstd::prelude::*;

use crate::builder::{EntityBuilder, EntityModifier};
use crate::component::ComponentManager;
use crate::entity::{BuildData, Entity, EntityData, EntityIter, IndexedEntity, ModifyData};
use crate::manager::{spec_removed_ids, EntityEvent, EntityManager};
use crate::services::ServiceManager;
use crate::system::SystemManager;

verus! {

/// The data half of a world: the component set, the services, and the entity
/// manager. Systems receive it mutably during the processing pass.
pub struct DataHelper<C: ComponentManager, M: ServiceManager> {
    pub components: C,
    pub services: M,
    pub entities: EntityManager,
}

impl<C: ComponentManager, M: ServiceManager> DataHelper<C, M> {
    /// The entity manager's invariant holds.
    pub closed spec fn wf(self) -> bool {
        self.entities.wf()
    }

    /// The live entities, by id.
    pub closed spec fn live(self) -> Map<u64, IndexedEntity> {
        self.entities.live()
    }

    /// The pending lifecycle events.
    pub closed spec fn events(self) -> Seq<EntityEvent> {
        self.entities.events()
    }

    /// How many ids have been issued.
    pub closed spec fn issued(self) -> u64 {
        self.entities.issued()
    }

    /// Whether the entity is currently registered.
    pub open spec fn spec_is_valid(self, entity: Entity) -> bool {
        self.live().contains_key(entity.spec_id())
    }

    /// Machine limits on creating one more entity.
    pub closed spec fn can_create(self) -> bool {
        self.entities.can_create()
    }

    /// Runs `closure` over a live entity's data, handing it the components
    /// and services; yields `Some` of the closure's result, or `None` for an
    /// invalid entity, in which case the closure never runs.
    pub fn with_entity_data<R, F: FnOnce(EntityData, &mut C, &mut M) -> R>(
        &mut self,
        entity: Entity,
        closure: F,
    ) -> (r: Option<R>)
        requires
            old(self).wf(),
            forall|a: EntityData, b: &mut C, c: &mut M| call_requires(closure, (a, b, c)),
        ensures
            final(self).wf(),
            final(self).live() == old(self).live(),
            final(self).events() == old(self).events(),
            final(self).issued() == old(self).issued(),
            r is Some <==> old(self).spec_is_valid(entity),
            old(self).spec_is_valid(entity) ==> exists|d: EntityData, b: &mut C, c: &mut M, out: R|
                r == Some(out) && d.spec_entity() == old(self).live()[entity.spec_id()]
                    && #[trigger] call_ensures(closure, (d, b, c), out),
    {
        if self.entities.is_valid(entity) {
            let data = EntityData(*self.entities.indexed(entity));
            Some(closure(data, &mut self.components, &mut self.services))
        } else {
            None
        }
    }

    /// Creates an entity and lets the builder closure attach its components;
    /// the build event is queued for the next flush.
    pub fn create_entity<F: FnOnce(BuildData, &mut C, &mut M)>(&mut self, builder: F) -> (e:
        Entity)
        requires
            old(self).wf(),
            old(self).can_create(),
            forall|a: BuildData, b: &mut C, c: &mut M| call_requires(builder, (a, b, c)),
        ensures
            final(self).wf(),
            e.spec_id() == old(self).issued() + 1,
            final(self).issued() == old(self).issued() + 1,
            !old(self).spec_is_valid(e),
            final(self).spec_is_valid(e),
            final(self).live()[e.spec_id()].spec_entity() == e,
            final(self).live() == old(self).live().insert(
                e.spec_id(),
                final(self).live()[e.spec_id()],
            ),
            final(self).events() == old(self).events().push(EntityEvent::BuildEntity(e)),
            exists|bd: BuildData, b: &mut C, c: &mut M|
                bd.spec_entity() == final(self).live()[e.spec_id()]
                    && #[trigger] call_ensures(builder, (bd, b, c), ()),
    {
        let entity = self.entities.create();
        let data = BuildData(*self.entities.indexed(entity));
        builder(data, &mut self.components, &mut self.services);
        self.entities.push_build_event(entity);
        entity
    }

    /// Creates an entity through an `EntityBuilder` value instead of a
    /// closure.
    pub fn create_entity_with_builder<B: EntityBuilder<C, M>>(&mut self, builder: B) -> (e: Entity)
        requires
            old(self).wf(),
            old(self).can_create(),
        ensures
            final(self).wf(),
            e.spec_id() == old(self).issued() + 1,
            final(self).issued() == old(self).issued() + 1,
            !old(self).spec_is_valid(e),
            final(self).spec_is_valid(e),
            final(self).live()[e.spec_id()].spec_entity() == e,
            final(self).live() == old(self).live().insert(
                e.spec_id(),
                final(self).live()[e.spec_id()],
            ),
            final(self).events() == old(self).events().push(EntityEvent::BuildEntity(e)),
    {
        self.entities.create_entity(builder, &mut self.components, &mut self.services)
    }

    /// Queues the removal of a live entity; reports whether it was valid.
    pub fn remove_entity(&mut self, entity: Entity) -> (r: bool)
        requires
            old(self).wf(),
        ensures
            final(self).wf(),
            r == old(self).spec_is_valid(entity),
            final(self).live() == old(self).live(),
            final(self).issued() == old(self).issued(),
            r ==> final(self).events() == old(self).events().push(
                EntityEvent::RemoveEntity(entity),
            ),
            !r ==> final(self).events() == old(self).events(),
    {
        self.entities.remove_entity(entity)
    }

    /// A snapshot sequence over the live entities, in index order.
    pub fn entities(&self) -> (r: EntityIter)
        requires
            self.wf(),
        ensures
            r.spec_pos() == 0,
            forall|k: int|
                0 <= k < r.spec_items().len() ==> self.live().contains_key(
                    (#[trigger] r.spec_items()[k]).spec_entity().spec_id(),
                ) && self.live()[r.spec_items()[k].spec_entity().spec_id()] == r.spec_items()[k],
            forall|id: u64|
                #[trigger] self.live().contains_key(id) ==> exists|k: int|
                    0 <= k < r.spec_items().len() && r.spec_items()[k] == self.live()[id],
            forall|k1: int, k2: int|
                0 <= k1 < k2 < r.spec_items().len() ==> (#[trigger] r.spec_items()[k1]).spec_index()
                    < (#[trigger] r.spec_items()[k2]).spec_index(),
    {
        self.entities.iter()
    }
}

/// The world: owns the systems and the data they process, and drives the
/// tick.
pub struct World<S: SystemManager> {
    pub systems: S,
    pub data: DataHelper<S::Components, S::Services>,
}

impl<S: SystemManager> World<S> {
    /// The world's data invariant.
    pub open spec fn wf(self) -> bool {
        self.data.wf()
    }

    /// A fresh world around the given services: empty component set, no
    /// entities, no pending events.
    pub fn with_services(services: S::Services) -> (r: Self)
        ensures
            r.wf(),
            r.data.services == services,
            r.data.live() == Map::<u64, IndexedEntity>::empty(),
            r.data.events() == Seq::<EntityEvent>::empty(),
            r.data.issued() == 0,
            r.data.can_create(),
            forall|comp: u64, index: usize| !r.data.components.spec_has(comp, index),
    {
        World {
            systems: S::build_manager(),
            data: DataHelper {
                services,
                components: ComponentManager::build_manager(),
                entities: EntityManager::new(),
            },
        }
    }

    /// A fresh world with defaulted services.
    pub fn new() -> (r: Self) where S::Services: Default
        ensures
            r.wf(),
            r.data.live() == Map::<u64, IndexedEntity>::empty(),
            r.data.events() == Seq::<EntityEvent>::empty(),
            r.data.issued() == 0,
            r.data.can_create(),
            forall|comp: u64, index: usize| !r.data.components.spec_has(comp, index),
    {
        World::with_services(Default::default())
    }

    /// A snapshot sequence over the live entities, in index order.
    pub fn entities(&self) -> (r: EntityIter)
        requires
            self.wf(),
        ensures
            r.spec_pos() == 0,
            forall|k: int|
                0 <= k < r.spec_items().len() ==> self.data.live().contains_key(
                    (#[trigger] r.spec_items()[k]).spec_entity().spec_id(),
                ) && self.data.live()[r.spec_items()[k].spec_entity().spec_id()]
                    == r.spec_items()[k],
            forall|id: u64|
                #[trigger] self.data.live().contains_key(id) ==> exists|k: int|
                    0 <= k < r.spec_items().len() && r.spec_items()[k] == self.data.live()[id],
            forall|k1: int, k2: int|
                0 <= k1 < k2 < r.spec_items().len() ==> (#[trigger] r.spec_items()[k1]).spec_index()
                    < (#[trigger] r.spec_items()[k2]).spec_index(),
    {
        self.data.entities()
    }

    /// Runs the modifier over a live entity's components, then reports the
    /// change to every system at once (synchronously, not queued) so watchers
    /// re-evaluate their interest.
    pub fn modify_entity<F: FnOnce(ModifyData, &mut S::Components, &mut S::Services)>(
        &mut self,
        entity: Entity,
        modifier: F,
    )
        requires
            old(self).wf(),
            old(self).data.spec_is_valid(entity),
            forall|a: ModifyData, b: &mut S::Components, c: &mut S::Services|
                call_requires(modifier, (a, b, c)),
        ensures
            final(self).wf(),
            final(self).data.live() == old(self).data.live(),
            final(self).data.events() == old(self).data.events(),
            final(self).data.issued() == old(self).data.issued(),
            exists|md: ModifyData, b: &mut S::Components, c: &mut S::Services|
                md.spec_entity() == old(self).data.live()[entity.spec_id()]
                    && #[trigger] call_ensures(modifier, (md, b, c), ()),
    {
        let ie = *self.data.entities.indexed(entity);
        modifier(ModifyData(ie), &mut self.data.components, &mut self.data.services);
        self.systems.reactivated(
            EntityData(ie),
            &self.data.components,
            &mut self.data.services,
        );
    }

    /// Runs an `EntityModifier` value over a live entity, then reports the
    /// change to every system at once.
    pub fn modify_entity_with_modifer<EM: EntityModifier<S::Components, S::Services>>(
        &mut self,
        entity: Entity,
        modifier: EM,
    )
        requires
            old(self).wf(),
            old(self).data.spec_is_valid(entity),
        ensures
            final(self).wf(),
            final(self).data.live() == old(self).data.live(),
            final(self).data.events() == old(self).data.events(),
            final(self).data.issued() == old(self).data.issued(),
    {
        let ie = *self.data.entities.indexed(entity);
        modifier.modify(ModifyData(ie), &mut self.data.components, &mut self.data.services);
        self.systems.reactivated(
            EntityData(ie),
            &self.data.components,
            &mut self.data.services,
        );
    }

    /// Delivers every queued build/remove event to the systems, in order;
    /// entities with a queued removal stop being live.
    pub fn flush_queue(&mut self)
        requires
            old(self).wf(),
        ensures
            final(self).wf(),
            final(self).data.events().len() == 0,
            final(self).data.live() == old(self).data.live().remove_keys(
                spec_removed_ids(old(self).data.events()),
            ),
            final(self).data.issued() == old(self).data.issued(),
    {
        self.data.entities.flush_queue(
            &mut self.data.components,
            &mut self.data.services,
            &mut self.systems,
        );
    }

    /// Flushes, then forces a `reactivated` for every live entity: used after
    /// bulk external mutation that bypassed `modify_entity`.
    pub fn refresh(&mut self)
        requires
            old(self).wf(),
        ensures
            final(self).wf(),
            final(self).data.events().len() == 0,
            final(self).data.live() == old(self).data.live().remove_keys(
                spec_removed_ids(old(self).data.events()),
            ),
            final(self).data.issued() == old(self).data.issued(),
    {
        self.flush_queue();
        let snapshot = self.data.entities.live_snapshot();
        let mut k: usize = 0;
        while k < snapshot.len()
            invariant
                self.wf(),
                self.data.events().len() == 0,
                self.data.live() == old(self).data.live().remove_keys(
                    spec_removed_ids(old(self).data.events()),
                ),
                self.data.issued() == old(self).data.issued(),
                k <= snapshot@.len(),
            decreases snapshot@.len() - k,
        {
            let data = EntityData(snapshot[k].__clone());
            self.systems.reactivated(data, &self.data.components, &mut self.data.services);
            k += 1;
        }
    }

    /// One tick: flush queued lifecycle events, run the processing pass over
    /// every active system, then flush again to absorb structural changes the
    /// systems made.
    pub fn update(&mut self)
        requires
            old(self).wf(),
        ensures
            final(self).wf(),
            final(self).data.events().len() == 0,
    {
        self.flush_queue();
        self.systems.update(&mut self.data);
        self.flush_queue();
    }

    /// Mass-deletes all entities and their data: flushes, delivers one final
    /// `deactivated` per live entity, then clears the entity manager and
    /// every component storage. The world object itself stays usable.
    pub fn wipe(&mut self)
        requires
            old(self).wf(),
        ensures
            final(self).wf(),
            final(self).data.live() == Map::<u64, IndexedEntity>::empty(),
            final(self).data.events().len() == 0,
            forall|comp: u64, index: usize| !final(self).data.components.spec_has(comp, index),
    {
        self.flush_queue();
        let snapshot = self.data.entities.live_snapshot();
        let mut k: usize = 0;
        while k < snapshot.len()
            invariant
                self.wf(),
                self.data.events().len() == 0,
                k <= snapshot@.len(),
            decreases snapshot@.len() - k,
        {
            let data = EntityData(snapshot[k].__clone());
            self.systems.deactivated(data, &self.data.components, &mut self.data.services);
            k += 1;
        }
        self.data.entities.clear();
        self.data.components.__wipe_all();
    }
}

} // verus!
