//! The entity manager: issues permanent ids, binds them to recycled dense
//! indices (always the smallest free one), and queues lifecycle events that a
//! flush later delivers to the systems.

use std::collections::HashMap;
use vstd::assert_sets_equal;
use vstd::pervasive::VecAdditionalExecFns;
use vstd::prelude::*;

use crate::builder::EntityBuilder;
use crate::component::ComponentManager;
use crate::entity::{BuildData, Entity, EntityData, EntityIter, IndexedEntity};
use crate::pool::{pool_clear, pool_in_use, pool_max, pool_maximum, pool_new, pool_new_id,
    pool_return_id};
use crate::services::ServiceManager;
use crate::system::SystemManager;

verus! {

broadcast use vstd::std_specs::hash::group_hash_axioms;

/// A queued lifecycle event: an entity finished building, or an entity was
/// asked to be removed. Events are delivered, in order, by `flush_queue`.
#[derive(Copy, Clone, Debug, PartialEq, Eq, Structural)]
pub enum EntityEvent {
    BuildEntity(Entity),
    RemoveEntity(Entity),
}

impl EntityEvent {
    /// The entity the event concerns.
    pub open spec fn spec_entity(self) -> Entity {
        match self {
            EntityEvent::BuildEntity(e) => e,
            EntityEvent::RemoveEntity(e) => e,
        }
    }
}

/// Owns entity identity issuance, index allocation and recycling, and the
/// deferred lifecycle event queue.
pub struct EntityManager {
    indices: index_pool::IndexPool,
    indexed_entities: Vec<Option<IndexedEntity>>,
    entities: HashMap<u64, IndexedEntity>,
    event_queue: Vec<EntityEvent>,
    next_id: u64,
}

impl EntityManager {
    /// The live entities: each id currently registered, with its binding.
    pub closed spec fn live(self) -> Map<u64, IndexedEntity> {
        self.entities@
    }

    /// The pending lifecycle events, oldest first.
    pub closed spec fn events(self) -> Seq<EntityEvent> {
        self.event_queue@
    }

    /// How many ids have been issued; the next entity gets `issued() + 1`.
    pub closed spec fn issued(self) -> u64 {
        self.next_id
    }

    /// Whether the entity is registered (not removed from the manager).
    pub open spec fn spec_is_valid(self, entity: Entity) -> bool {
        self.live().contains_key(entity.spec_id())
    }

    /// Whether some live entity currently occupies the dense index `j`.
    pub open spec fn index_in_use(self, j: usize) -> bool {
        exists|id: u64|
            #[trigger] self.live().contains_key(id) && self.live()[id].spec_index() == j
    }

    /// Machine limits on issuing one more entity: an unused id is left, and
    /// the dense index space has room.
    pub closed spec fn can_create(self) -> bool {
        self.next_id < u64::MAX && self.indexed_entities@.len() < usize::MAX - 1
    }

    spec fn used_slots(self) -> Set<usize> {
        Set::new(
            |j: usize| j < self.indexed_entities@.len() && self.indexed_entities@[j as int] is Some,
        )
    }

    /// The manager's invariant: ids map to bindings and back, bindings occupy
    /// exactly the allocated pool indices, ids never exceed the issue counter,
    /// and every queued event names a live entity.
    pub closed spec fn wf(self) -> bool {
        &&& forall|id: u64|
            #[trigger] self.entities@.contains_key(id) ==> {
                let ie = self.entities@[id];
                &&& ie.spec_entity().spec_id() == id
                &&& 1 <= id && id <= self.next_id
                &&& ie.spec_index() < self.indexed_entities@.len()
                &&& self.indexed_entities@[ie.spec_index() as int] == Some(ie)
            }
        &&& forall|j: int|
            0 <= j < self.indexed_entities@.len() && (#[trigger] self.indexed_entities@[j])
                is Some ==> {
                let ie = self.indexed_entities@[j]->Some_0;
                &&& ie.spec_index() == j
                &&& self.entities@.contains_key(ie.spec_entity().spec_id())
                &&& self.entities@[ie.spec_entity().spec_id()] == ie
            }
        &&& pool_in_use(self.indices) == self.used_slots()
        &&& pool_maximum(self.indices) <= self.indexed_entities@.len()
        &&& forall|i: int|
            0 <= i < self.event_queue@.len() ==> self.entities@.contains_key(
                (#[trigger] self.event_queue@[i]).spec_entity().spec_id(),
            )
    }

    /// An empty manager: no entities, no pending events, no id issued yet.
    pub fn new() -> (r: Self)
        ensures
            r.wf(),
            r.live() == Map::<u64, IndexedEntity>::empty(),
            r.events() == Seq::<EntityEvent>::empty(),
            r.issued() == 0,
            r.can_create(),
    {
        let r = EntityManager {
            indices: pool_new(),
            indexed_entities: Vec::new(),
            entities: HashMap::new(),
            event_queue: Vec::new(),
            next_id: 0,
        };
        proof {
            assert(pool_in_use(r.indices) =~= r.used_slots());
            assert(r.events() =~= Seq::<EntityEvent>::empty());
        }
        r
    }

    /// Creates a new entity: a fresh id (one past the last issued) bound to
    /// the smallest dense index not in use by any live entity. The entity is
    /// registered immediately; no lifecycle event is queued.
    pub fn create(&mut self) -> (e: Entity)
        requires
            old(self).wf(),
            old(self).can_create(),
        ensures
            final(self).wf(),
            e.spec_id() == old(self).issued() + 1,
            final(self).issued() == old(self).issued() + 1,
            !old(self).spec_is_valid(e),
            final(self).spec_is_valid(e),
            final(self).live()[e.spec_id()].spec_entity() == e,
            final(self).live() == old(self).live().insert(
                e.spec_id(),
                final(self).live()[e.spec_id()],
            ),
            !old(self).index_in_use(final(self).live()[e.spec_id()].spec_index()),
            forall|j: usize|
                j < final(self).live()[e.spec_id()].spec_index() ==> old(self).index_in_use(j),
            final(self).events() == old(self).events(),
    {
        proof {
            if self.entities@.contains_key((self.next_id + 1) as u64) {
                assert(false);
            }
        }
        self.next_id = self.next_id + 1;
        let entity = Entity { id: self.next_id };
        let index = pool_new_id(&mut self.indices);
        let ie = IndexedEntity { index, entity };
        proof {
            assert(!old(self).used_slots().contains(index));
            if index > self.indexed_entities@.len() {
                assert(self.indexed_entities@.len() < index);
                assert(old(self).used_slots().contains(self.indexed_entities@.len() as usize));
                assert(false);
            }
        }
        if index < self.indexed_entities.len() {
            self.indexed_entities.set(index, Some(ie));
        } else {
            self.indexed_entities.push(Some(ie));
        }
        self.entities.insert(entity.id, ie);
        proof {
            assert(pool_in_use(self.indices) =~= self.used_slots());
            assert(self.entities@ =~= old(self).entities@.insert(entity.id, ie));
            assert forall|j: usize| j < index implies old(self).index_in_use(j) by {
                assert(old(self).used_slots().contains(j));
                let jie = old(self).indexed_entities@[j as int]->Some_0;
                assert(old(self).entities@.contains_key(jie.spec_entity().spec_id())
                    && old(self).live()[jie.spec_entity().spec_id()].spec_index() == j);
            }
            assert(!old(self).index_in_use(index));
        }
        entity
    }

    /// Registers the intent to remove a live entity: queues a removal event
    /// and reports whether the entity was valid. The entity stays live (and
    /// its components readable) until the event is flushed.
    pub fn remove_entity(&mut self, entity: Entity) -> (r: bool)
        requires
            old(self).wf(),
        ensures
            final(self).wf(),
            r == old(self).spec_is_valid(entity),
            final(self).live() == old(self).live(),
            final(self).issued() == old(self).issued(),
            r ==> final(self).events() == old(self).events().push(
                EntityEvent::RemoveEntity(entity),
            ),
            !r ==> final(self).events() == old(self).events(),
    {
        if self.entities.contains_key(&entity.id) {
            self.event_queue.push(EntityEvent::RemoveEntity(entity));
            true
        } else {
            false
        }
    }

    /// Whether the entity is currently registered.
    pub fn is_valid(&self, entity: Entity) -> (r: bool)
        requires
            self.wf(),
        ensures
            r == self.spec_is_valid(entity),
    {
        self.entities.contains_key(&entity.id)
    }

    /// The binding of a live entity: it carries exactly the asked-for entity.
    /// Asking for an invalid entity's binding is a contract violation.
    pub fn indexed(&self, entity: Entity) -> (r: &IndexedEntity)
        requires
            self.wf(),
            self.spec_is_valid(entity),
        ensures
            *r == self.live()[entity.spec_id()],
            r.spec_entity() == entity,
    {
        self.entities.get(&entity.id).unwrap()
    }

    /// The high-water mark of index allocation: every live entity's index is
    /// below it, and unless it is zero, the index just under it is in use.
    pub fn count(&self) -> (r: usize)
        requires
            self.wf(),
        ensures
            forall|id: u64|
                #[trigger] self.live().contains_key(id) ==> self.live()[id].spec_index() < r,
            r != 0 ==> self.index_in_use((r - 1) as usize),
    {
        let r = pool_max(&self.indices);
        proof {
            assert forall|id: u64| #[trigger] self.live().contains_key(id) implies self.live()[id].spec_index()
                < r by {
                let j = self.live()[id].spec_index();
                assert(self.used_slots().contains(j));
            }
            if r != 0 {
                let j = (r - 1) as usize;
                assert(self.used_slots().contains(j));
                let jie = self.indexed_entities@[j as int]->Some_0;
                assert(self.live().contains_key(jie.spec_entity().spec_id())
                    && self.live()[jie.spec_entity().spec_id()].spec_index() == j);
            }
        }
        r
    }

    /// Appends a build event for a live entity: used by the world-level
    /// entity creation paths after the builder has run.
    pub(crate) fn push_build_event(&mut self, entity: Entity)
        requires
            old(self).wf(),
            old(self).spec_is_valid(entity),
        ensures
            final(self).wf(),
            final(self).live() == old(self).live(),
            final(self).issued() == old(self).issued(),
            final(self).events() == old(self).events().push(EntityEvent::BuildEntity(entity)),
    {
        self.event_queue.push(EntityEvent::BuildEntity(entity));
    }

    pub(crate) fn live_snapshot(&self) -> (r: Vec<IndexedEntity>)
        requires
            self.wf(),
        ensures
            forall|k: int|
                0 <= k < r@.len() ==> self.live().contains_key(
                    (#[trigger] r@[k]).spec_entity().spec_id(),
                ) && self.live()[r@[k].spec_entity().spec_id()] == r@[k],
            forall|id: u64|
                #[trigger] self.live().contains_key(id) ==> exists|k: int|
                    0 <= k < r@.len() && r@[k] == self.live()[id],
            forall|k1: int, k2: int|
                0 <= k1 < k2 < r@.len() ==> (#[trigger] r@[k1]).spec_index() < (
                #[trigger] r@[k2]).spec_index(),
    {
        let mut acc: Vec<IndexedEntity> = Vec::new();
        let mut j: usize = 0;
        while j < self.indexed_entities.len()
            invariant
                self.wf(),
                j <= self.indexed_entities@.len(),
                forall|k: int|
                    0 <= k < acc@.len() ==> self.live().contains_key(
                        (#[trigger] acc@[k]).spec_entity().spec_id(),
                    ) && self.live()[acc@[k].spec_entity().spec_id()] == acc@[k],
                forall|k: int| 0 <= k < acc@.len() ==> (#[trigger] acc@[k]).spec_index() < j,
                forall|i: int|
                    0 <= i < j && (#[trigger] self.indexed_entities@[i]) is Some ==> exists|k: int|
                        0 <= k < acc@.len() && acc@[k] == self.indexed_entities@[i]->Some_0,
                forall|k1: int, k2: int|
                    0 <= k1 < k2 < acc@.len() ==> (#[trigger] acc@[k1]).spec_index() < (
                    #[trigger] acc@[k2]).spec_index(),
            decreases self.indexed_entities@.len() - j,
        {
            match &self.indexed_entities[j] {
                Some(ie) => {
                    let ghost acc0 = acc@;
                    acc.push(ie.__clone());
                    proof {
                        assert forall|i: int|
                            0 <= i < j + 1 && (#[trigger] self.indexed_entities@[i])
                                is Some implies exists|k: int|
                            0 <= k < acc@.len() && acc@[k] == self.indexed_entities@[i]->Some_0 by {
                            if i == j as int {
                                assert(acc@[acc0.len() as int]
                                    == self.indexed_entities@[i]->Some_0);
                            } else {
                                let k = choose|k: int|
                                    0 <= k < acc0.len() && acc0[k]
                                        == self.indexed_entities@[i]->Some_0;
                                assert(acc@[k] == self.indexed_entities@[i]->Some_0);
                            }
                        }
                    }
                },
                None => {},
            }
            j += 1;
        }
        proof {
            assert forall|id: u64| #[trigger] self.live().contains_key(id) implies exists|k: int|
                0 <= k < acc@.len() && acc@[k] == self.live()[id] by {
                let ie = self.live()[id];
                assert(self.indexed_entities@[ie.spec_index() as int] == Some(ie));
            }
        }
        acc
    }

    /// A snapshot sequence over the live entities, in index order.
    pub fn iter(&self) -> (r: EntityIter)
        requires
            self.wf(),
        ensures
            r.spec_pos() == 0,
            forall|k: int|
                0 <= k < r.spec_items().len() ==> self.live().contains_key(
                    (#[trigger] r.spec_items()[k]).spec_entity().spec_id(),
                ) && self.live()[r.spec_items()[k].spec_entity().spec_id()] == r.spec_items()[k],
            forall|id: u64|
                #[trigger] self.live().contains_key(id) ==> exists|k: int|
                    0 <= k < r.spec_items().len() && r.spec_items()[k] == self.live()[id],
            forall|k1: int, k2: int|
                0 <= k1 < k2 < r.spec_items().len() ==> (#[trigger] r.spec_items()[k1]).spec_index()
                    < (#[trigger] r.spec_items()[k2]).spec_index(),
    {
        EntityIter::from_vec(self.live_snapshot())
    }

    fn erase(&mut self, ie: IndexedEntity)
        requires
            old(self).wf(),
            old(self).events().len() == 0,
            old(self).live().contains_key(ie.spec_entity().spec_id()),
            old(self).live()[ie.spec_entity().spec_id()] == ie,
        ensures
            final(self).wf(),
            final(self).events().len() == 0,
            final(self).issued() == old(self).issued(),
            final(self).live() == old(self).live().remove(ie.spec_entity().spec_id()),
    {
        let _ = self.entities.remove(&ie.entity.id);
        let _ = pool_return_id(&mut self.indices, ie.index);
        self.indexed_entities.set(ie.index, None);
        proof {
            assert(pool_in_use(self.indices) =~= self.used_slots());
        }
    }

    /// Drains the event queue in order: for each build event the system
    /// manager's `activated` runs; for each removal event its `deactivated`
    /// runs and the entity's bookkeeping is then erased, returning its index
    /// to the free pool. An event whose entity is no longer live (a removal
    /// queued twice) is skipped. The queue being processed is swapped out
    /// first, and the systems have no path back to this manager, so the flush
    /// sees a fixed event list.
    pub fn flush_queue<C: ComponentManager, M: ServiceManager, S: SystemManager<
        Components = C,
        Services = M,
    >>(&mut self, components: &mut C, services: &mut M, systems: &mut S)
        requires
            old(self).wf(),
        ensures
            final(self).wf(),
            final(self).events().len() == 0,
            final(self).live() == old(self).live().remove_keys(
                spec_removed_ids(old(self).events()),
            ),
            final(self).issued() == old(self).issued(),
    {
        let mut queue: Vec<EntityEvent> = Vec::new();
        std::mem::swap(&mut self.event_queue, &mut queue);
        proof {
            assert(self.events() =~= Seq::<EntityEvent>::empty());
            assert(self.live() =~= old(self).live().remove_keys(
                spec_removed_ids(queue@.take(0)),
            ));
        }
        let mut k: usize = 0;
        while k < queue.len()
            invariant
                self.wf(),
                self.events().len() == 0,
                self.live() == old(self).live().remove_keys(
                    spec_removed_ids(queue@.take(k as int)),
                ),
                self.issued() == old(self).issued(),
                k <= queue@.len(),
                forall|id: u64|
                    #[trigger] self.live().contains_key(id) ==> old(self).live().contains_key(id)
                        && old(self).live()[id] == self.live()[id],
            decreases queue@.len() - k,
        {
            let ev = queue[k];
            proof {
                lemma_removed_ids_step(queue@, k as int);
            }
            match ev {
                EntityEvent::BuildEntity(entity) => {
                    let found = match self.entities.get(&entity.id) {
                        Some(ie) => Some(*ie),
                        None => None,
                    };
                    match found {
                        Some(ie) => {
                            systems.activated(EntityData(ie), components, services);
                        },
                        None => {},
                    }
                },
                EntityEvent::RemoveEntity(entity) => {
                    let found = match self.entities.get(&entity.id) {
                        Some(ie) => Some(*ie),
                        None => None,
                    };
                    match found {
                        Some(ie) => {
                            let ghost live0 = self.live();
                            systems.deactivated(EntityData(ie), components, services);
                            self.erase(ie);
                            proof {
                                assert(entity.spec_id() == ie.spec_entity().spec_id());
                                assert(self.live() =~= old(self).live().remove_keys(
                                    spec_removed_ids(queue@.take(k + 1 as int)),
                                ));
                            }
                        },
                        None => {
                            proof {
                                assert(self.live() =~= old(self).live().remove_keys(
                                    spec_removed_ids(queue@.take(k + 1 as int)),
                                ));
                            }
                        },
                    }
                },
            }
            proof {
                assert(self.live() =~= old(self).live().remove_keys(
                    spec_removed_ids(queue@.take(k + 1 as int)),
                ));
            }
            k += 1;
        }
        proof {
            assert(queue@.take(queue@.len() as int) =~= queue@);
        }
    }

    /// Creates an entity, lets the builder attach its components, and queues
    /// the build event that will announce it to the systems at the next
    /// flush. Components inserted by the builder are visible to storage reads
    /// at once; the entity becomes visible to watchers only when flushed.
    pub fn create_entity<C: ComponentManager, M: ServiceManager, B: EntityBuilder<C, M>>(
        &mut self,
        builder: B,
        components: &mut C,
        services: &mut M,
    ) -> (e: Entity)
        requires
            old(self).wf(),
            old(self).can_create(),
        ensures
            final(self).wf(),
            e.spec_id() == old(self).issued() + 1,
            final(self).issued() == old(self).issued() + 1,
            !old(self).spec_is_valid(e),
            final(self).spec_is_valid(e),
            final(self).live()[e.spec_id()].spec_entity() == e,
            final(self).live() == old(self).live().insert(
                e.spec_id(),
                final(self).live()[e.spec_id()],
            ),
            !old(self).index_in_use(final(self).live()[e.spec_id()].spec_index()),
            forall|j: usize|
                j < final(self).live()[e.spec_id()].spec_index() ==> old(self).index_in_use(j),
            final(self).events() == old(self).events().push(EntityEvent::BuildEntity(e)),
    {
        let entity = self.create();
        let data = BuildData(*self.indexed(entity));
        builder.build(data, components, services);
        self.event_queue.push(EntityEvent::BuildEntity(entity));
        entity
    }

    /// Physically erases a live entity's bookkeeping and returns its index to
    /// the free pool. Meant for full resets; the entity must not have events
    /// pending, since those could no longer be delivered.
    pub fn remove(&mut self, entity: Entity)
        requires
            old(self).wf(),
            forall|i: int|
                0 <= i < old(self).events().len() ==> (#[trigger] old(self).events()[i]).spec_entity()
                    != entity,
        ensures
            final(self).wf(),
            final(self).live() == old(self).live().remove(entity.spec_id()),
            final(self).events() == old(self).events(),
            final(self).issued() == old(self).issued(),
    {
        let removed = self.entities.remove(&entity.id);
        match removed {
            Some(ie) => {
                proof {
                    assert(old(self).entities@.contains_key(entity.spec_id()));
                }
                let index = ie.index();
                let _ = pool_return_id(&mut self.indices, index);
                self.indexed_entities.set(index, None);
                proof {
                    assert(pool_in_use(self.indices) =~= self.used_slots());
                    assert forall|i: int|
                        0 <= i < self.event_queue@.len() implies self.entities@.contains_key(
                        (#[trigger] self.event_queue@[i]).spec_entity().spec_id(),
                    ) by {
                        let eid = self.event_queue@[i].spec_entity().spec_id();
                        assert(old(self).entities@.contains_key(eid));
                        if eid == entity.spec_id() {
                            assert(old(self).entities@[eid].spec_entity().spec_id() == eid);
                            assert(old(self).events()[i].spec_entity() != entity);
                        }
                    }
                }
            },
            None => {
                proof {
                    assert(self.entities@ =~= old(self).entities@.remove(entity.spec_id()));
                }
            },
        }
    }

    /// Unregisters every entity and returns every index to the pool. Ids are
    /// not reset: entities created afterwards still get fresh ids. Any
    /// pending events must have been flushed first.
    pub fn clear(&mut self)
        requires
            old(self).wf(),
            old(self).events().len() == 0,
        ensures
            final(self).wf(),
            final(self).live() == Map::<u64, IndexedEntity>::empty(),
            final(self).events().len() == 0,
            final(self).issued() == old(self).issued(),
    {
        self.entities.clear();
        self.indexed_entities.clear();
        pool_clear(&mut self.indices);
        proof {
            assert(pool_in_use(self.indices) =~= self.used_slots());
        }
    }
}

/// The ids named by the removal events of an event list: the entities a flush
/// of that list erases.
pub open spec fn spec_removed_ids(events: Seq<EntityEvent>) -> Set<u64> {
    Set::new(
        |id: u64|
            exists|i: int|
                0 <= i < events.len() && ((#[trigger] events[i]) matches
                EntityEvent::RemoveEntity(e) && e.spec_id() == id),
    )
}

proof fn lemma_removed_ids_step(events: Seq<EntityEvent>, k: int)
    requires
        0 <= k < events.len(),
    ensures
        spec_removed_ids(events.take(k + 1)) == (match events[k] {
            EntityEvent::RemoveEntity(e) => spec_removed_ids(events.take(k)).insert(e.spec_id()),
            EntityEvent::BuildEntity(_) => spec_removed_ids(events.take(k)),
        }),
{
    let a = events.take(k + 1);
    let b = events.take(k);
    match events[k] {
        EntityEvent::RemoveEntity(e) => {
            assert_sets_equal!(
                spec_removed_ids(a) == spec_removed_ids(b).insert(e.spec_id()),
                id => {
                    if spec_removed_ids(a).contains(id) {
                        let i = choose|i: int|
                            0 <= i < a.len() && ((#[trigger] a[i]) matches
                                EntityEvent::RemoveEntity(q) && q.spec_id() == id);
                        if i < k {
                            assert(b[i] == a[i]);
                            assert(spec_removed_ids(b).contains(id));
                        } else {
                            assert(a[k] == events[k]);
                        }
                    }
                    if spec_removed_ids(b).contains(id) {
                        let i = choose|i: int|
                            0 <= i < b.len() && ((#[trigger] b[i]) matches
                                EntityEvent::RemoveEntity(q) && q.spec_id() == id);
                        assert(a[i] == b[i]);
                        assert(spec_removed_ids(a).contains(id));
                    }
                    if id == e.spec_id() {
                        assert((a[k] matches EntityEvent::RemoveEntity(q) && q.spec_id() == id));
                        assert(spec_removed_ids(a).contains(id));
                    }
                }
            );
        },
        EntityEvent::BuildEntity(_) => {
            assert_sets_equal!(
                spec_removed_ids(a) == spec_removed_ids(b),
                id => {
                    if spec_removed_ids(a).contains(id) {
                        let i = choose|i: int|
                            0 <= i < a.len() && ((#[trigger] a[i]) matches
                                EntityEvent::RemoveEntity(q) && q.spec_id() == id);
                        assert(i != k);
                        assert(b[i] == a[i]);
                        assert(spec_removed_ids(b).contains(id));
                    }
                    if spec_removed_ids(b).contains(id) {
                        let i = choose|i: int|
                            0 <= i < b.len() && ((#[trigger] b[i]) matches
                                EntityEvent::RemoveEntity(q) && q.spec_id() == id);
                        assert(a[i] == b[i]);
                        assert(spec_removed_ids(a).contains(id));
                    }
                }
            );
        },
    }
}

/// Index reuse: `create` hands out the smallest index not in use, so while a
/// freed index stays free, any newly created entity gets an index no larger
/// than it — freed indices are reused before fresh ones are allocated. The
/// manager `after` is the manager `before` after one `create` of `e`, per the
/// ensures of `create`.
pub proof fn lemma_index_reuse(before: EntityManager, after: EntityManager, e: Entity, j: usize)
    requires
        !before.index_in_use(j),
        after.spec_is_valid(e),
        forall|q: usize|
            q < after.live()[e.spec_id()].spec_index() ==> before.index_in_use(q),
    ensures
        after.live()[e.spec_id()].spec_index() <= j,
{
    if after.live()[e.spec_id()].spec_index() > j {
        assert(before.index_in_use(j));
    }
}

/// No two simultaneously live entities share a dense index: distinct live ids
/// always carry distinct indices.
pub proof fn lemma_live_indices_distinct(m: EntityManager, id1: u64, id2: u64)
    requires
        m.wf(),
        m.live().contains_key(id1),
        m.live().contains_key(id2),
        id1 != id2,
    ensures
        m.live()[id1].spec_index() != m.live()[id2].spec_index(),
{
    let ie1 = m.live()[id1];
    let ie2 = m.live()[id2];
    if ie1.spec_index() == ie2.spec_index() {
        assert(ie1.spec_entity().spec_id() == id1);
        assert(ie2.spec_entity().spec_id() == id2);
        assert(false);
    }
}

} // verus!
