//! Entity identity: permanent 64-bit ids, and their binding to the recycled
//! dense indices that key every component storage.

use vstd::prelude::*;

use crate::aspect::Aspect;
use crate::component::ComponentManager;

verus! {

/// Permanent identity of an entity. Ids are issued in increasing order and
/// never reused; the id 0 is reserved for the nil entity.
pub type Id = u64;

/// An opaque entity handle. Carries no data besides its identity.
#[derive(Copy, Clone, Debug, PartialEq, Eq, Structural, Hash)]
pub struct Entity {
    pub(crate) id: Id,
}

impl Entity {
    /// The id carried by this handle.
    pub open(crate) spec fn spec_id(self) -> Id {
        self.id
    }

    /// The nil entity: id 0, which no live entity ever carries.
    pub fn nil() -> (e: Entity)
        ensures
            e.spec_id() == 0,
    {
        Entity { id: 0 }
    }

    pub fn id(self) -> (r: Id)
        ensures
            r == self.spec_id(),
    {
        self.id
    }
}

impl Default for Entity {
    /// The default entity is the nil entity.
    fn default() -> (e: Entity)
        ensures
            e.spec_id() == 0,
    {
        Entity { id: 0 }
    }
}

/// An entity together with the dense index it currently occupies. At most one
/// live `IndexedEntity` carries a given index at any time; indices return to a
/// free pool on removal and may later be bound to another entity.
#[derive(Copy, Clone, Debug, PartialEq, Eq, Structural, Hash)]
pub struct IndexedEntity {
    pub(crate) index: usize,
    pub(crate) entity: Entity,
}

impl IndexedEntity {
    /// The dense index, the key into every component storage.
    pub open(crate) spec fn spec_index(self) -> usize {
        self.index
    }

    /// The entity bound to that index.
    pub open(crate) spec fn spec_entity(self) -> Entity {
        self.entity
    }

    pub fn index(&self) -> (r: usize)
        ensures
            r == self.spec_index(),
    {
        self.index
    }

    pub fn entity(&self) -> (e: Entity)
        ensures
            e == self.spec_entity(),
    {
        self.entity
    }

    pub fn id(&self) -> (r: Id)
        ensures
            r == self.spec_entity().spec_id(),
    {
        self.entity.id
    }

    /// An explicit copy of the binding, for internal bookkeeping.
    pub fn __clone(&self) -> (r: Self)
        ensures
            r == *self,
    {
        IndexedEntity { index: self.index, entity: self.entity }
    }
}

/// Handle to an entity that is being built and is not yet visible to any
/// watcher. Components may be freely inserted through it.
#[derive(Copy, Clone, Debug, PartialEq, Eq, Structural)]
pub struct BuildData(pub(crate) IndexedEntity);

/// Handle to a live entity inside `modify_entity`. Components may be
/// inserted, replaced or removed through it.
#[derive(Copy, Clone, Debug, PartialEq, Eq, Structural)]
pub struct ModifyData(pub(crate) IndexedEntity);

/// Handle to a live entity as seen by a system during lifecycle calls and
/// processing. Existing components may be read and replaced through it, but
/// brand-new components may not be inserted.
#[derive(Copy, Clone, Debug, PartialEq, Eq, Structural)]
pub struct EntityData(pub(crate) IndexedEntity);

impl BuildData {
    pub open(crate) spec fn spec_entity(self) -> IndexedEntity {
        self.0
    }

    pub fn index(&self) -> (r: usize)
        ensures
            r == self.spec_entity().spec_index(),
    {
        self.0.index
    }
}

impl ModifyData {
    pub open(crate) spec fn spec_entity(self) -> IndexedEntity {
        self.0
    }

    pub fn index(&self) -> (r: usize)
        ensures
            r == self.spec_entity().spec_index(),
    {
        self.0.index
    }
}

impl EntityData {
    pub open(crate) spec fn spec_entity(self) -> IndexedEntity {
        self.0
    }

    pub fn index(&self) -> (r: usize)
        ensures
            r == self.spec_entity().spec_index(),
    {
        self.0.index
    }

    pub fn id(&self) -> (r: Id)
        ensures
            r == self.spec_entity().spec_entity().spec_id(),
    {
        self.0.entity.id
    }

    pub fn entity(&self) -> (e: Entity)
        ensures
            e == self.spec_entity().spec_entity(),
    {
        self.0.entity
    }
}

/// A restartable, finite sequence over a snapshot of entities. The order is
/// fixed when the iterator is made and is stable only within a single tick:
/// structural changes invalidate any iterator taken before them.
#[derive(Clone)]
pub struct EntityIter {
    pub(crate) items: Vec<IndexedEntity>,
    pub(crate) pos: usize,
}

impl EntityIter {
    /// The snapshot this iterator walks.
    pub open(crate) spec fn spec_items(self) -> Seq<IndexedEntity> {
        self.items@
    }

    /// How many entities have been handed out already.
    pub open(crate) spec fn spec_pos(self) -> int {
        self.pos as int
    }

    pub(crate) fn from_vec(items: Vec<IndexedEntity>) -> (r: EntityIter)
        ensures
            r.spec_items() == items@,
            r.spec_pos() == 0,
    {
        EntityIter { items, pos: 0 }
    }

    /// The entities this iterator has not yet handed out.
    pub open(crate) spec fn spec_remaining(self) -> Seq<IndexedEntity> {
        if self.spec_pos() <= self.spec_items().len() {
            self.spec_items().skip(self.spec_pos())
        } else {
            Seq::<IndexedEntity>::empty()
        }
    }

    /// Narrows the remaining entities to those satisfying `aspect` under
    /// `components`, keeping their order. The aspect is evaluated as the
    /// filtered sequence is made; aspects are pure, so within one tick this
    /// agrees with checking at each step.
    #[verifier::loop_isolation(false)]
    pub fn filter<C: ComponentManager>(self, aspect: Aspect, components: &C) -> (r:
        FilteredEntityIter)
        ensures
            r.spec_pos() == 0,
            r.spec_items() == self.spec_remaining().filter(
                |ie: IndexedEntity| aspect.spec_matches(components, ie.spec_index()),
            ),
    {
        let ghost pred = |ie: IndexedEntity| aspect.spec_matches(components, ie.spec_index());
        let start: usize = if self.pos <= self.items.len() {
            self.pos
        } else {
            self.items.len()
        };
        let mut acc: Vec<IndexedEntity> = Vec::new();
        let mut k: usize = start;
        proof {
            reveal(Seq::filter);
            assert(self.spec_items().subrange(start as int, start as int) =~= Seq::<
                IndexedEntity,
            >::empty());
        }
        while k < self.items.len()
            invariant
                start <= k <= self.items@.len(),
                acc@ == self.spec_items().subrange(start as int, k as int).filter(pred),
            decreases self.items@.len() - k,
        {
            let ghost sub0 = self.spec_items().subrange(start as int, k as int);
            let ghost sub1 = self.spec_items().subrange(start as int, k + 1 as int);
            let d = EntityData(self.items[k].__clone());
            if aspect.check(d, components) {
                acc.push(self.items[k].__clone());
            }
            proof {
                reveal(Seq::filter);
                assert(sub1.drop_last() =~= sub0);
                assert(sub1.last() == self.spec_items()[k as int]);
                assert(pred(sub1.last()) == aspect.spec_matches(
                    components,
                    self.spec_items()[k as int].spec_index(),
                ));
            }
            k += 1;
        }
        proof {
            assert(self.spec_items().subrange(start as int, self.spec_items().len() as int)
                =~= self.spec_remaining());
        }
        FilteredEntityIter { inner: EntityIter { items: acc, pos: 0 } }
    }

    /// The next entity of the snapshot, or `None` once exhausted.
    pub fn next(&mut self) -> (r: Option<EntityData>)
        ensures
            final(self).spec_items() == old(self).spec_items(),
            old(self).spec_pos() < old(self).spec_items().len() ==> {
                &&& final(self).spec_pos() == old(self).spec_pos() + 1
                &&& r matches Some(d) && d.spec_entity() == old(self).spec_items()[old(
                    self,
                ).spec_pos()]
            },
            old(self).spec_pos() >= old(self).spec_items().len() ==> {
                &&& final(self).spec_pos() == old(self).spec_pos()
                &&& r is None
            },
    {
        if self.pos < self.items.len() {
            let d = EntityData(self.items[self.pos].__clone());
            self.pos = self.pos + 1;
            Some(d)
        } else {
            None
        }
    }

}

/// A snapshot sequence narrowed by an aspect: what `EntityIter::filter`
/// yields, walking only the entities that satisfied the aspect when the
/// filter was made.
#[derive(Clone)]
pub struct FilteredEntityIter {
    pub(crate) inner: EntityIter,
}

impl FilteredEntityIter {
    /// The filtered snapshot this iterator walks.
    pub open(crate) spec fn spec_items(self) -> Seq<IndexedEntity> {
        self.inner.spec_items()
    }

    /// How many entities have been handed out already.
    pub open(crate) spec fn spec_pos(self) -> int {
        self.inner.spec_pos()
    }

    /// The next matching entity, or `None` once exhausted.
    pub fn next(&mut self) -> (r: Option<EntityData>)
        ensures
            final(self).spec_items() == old(self).spec_items(),
            old(self).spec_pos() < old(self).spec_items().len() ==> {
                &&& final(self).spec_pos() == old(self).spec_pos() + 1
                &&& r matches Some(d) && d.spec_entity() == old(self).spec_items()[old(
                    self,
                ).spec_pos()]
            },
            old(self).spec_pos() >= old(self).spec_items().len() ==> {
                &&& final(self).spec_pos() == old(self).spec_pos()
                &&& r is None
            },
    {
        self.inner.next()
    }
}

/// Common access for the handles a component list accepts.
/// `can_insert_components` distinguishes handles that may insert brand-new
/// components (`ModifyData`) from those that may only touch components the
/// entity already has (`EntityData`).
pub trait EditData: Sized {
    spec fn spec_edit_target(self) -> IndexedEntity;

    spec fn spec_can_insert() -> bool;

    fn entity(&self) -> (r: IndexedEntity)
        ensures
            r == self.spec_edit_target(),
    ;

    fn can_insert_components() -> (r: bool)
        ensures
            r == Self::spec_can_insert(),
    ;
}

impl EditData for ModifyData {
    open(crate) spec fn spec_edit_target(self) -> IndexedEntity {
        self.0
    }

    open spec fn spec_can_insert() -> bool {
        true
    }

    fn entity(&self) -> (r: IndexedEntity) {
        self.0
    }

    fn can_insert_components() -> (r: bool) {
        true
    }
}

impl EditData for EntityData {
    open(crate) spec fn spec_edit_target(self) -> IndexedEntity {
        self.0
    }

    open spec fn spec_can_insert() -> bool {
        false
    }

    fn entity(&self) -> (r: IndexedEntity) {
        self.0
    }

    fn can_insert_components() -> (r: bool) {
        false
    }
}

} // verus!
