//! Component lists and the component-manager capability: one typed list per
//! component, each choosing a dense ("hot") or sparse ("cold") strategy, and
//! an aggregate trait the schema implements over all of its lists.

use vstd::pervasive::cloned;
use vstd::prelude::*;

use crate::entity::{BuildData, EditData, IndexedEntity, ModifyData};
use crate::storage::{HashStorage, VecStorage};
use crate::traits::ComponentStorage;

verus! {

/// Marks types which are suitable for being components: any owned value type.
pub trait Component: 'static {

}

impl<T: 'static> Component for T {

}

/// The schema's aggregate of component lists. Implementations expose, per
/// component kind (named by a small integer of the schema's choosing), whether
/// a given entity index currently carries that component; aspects are
/// evaluated against that relation.
pub trait ComponentManager: Sized {
    /// Whether the component kind `comp` is present at entity index `index`.
    spec fn spec_has(&self, comp: u64, index: usize) -> bool;

    /// A freshly built manager holds no components at all.
    fn build_manager() -> (r: Self)
        ensures
            forall|comp: u64, index: usize| !r.spec_has(comp, index),
    ;

    /// Runtime query matching `spec_has`: the uniform access that aspect
    /// filters are built on.
    fn has_component(&self, comp: u64, index: usize) -> (r: bool)
        ensures
            r == self.spec_has(comp, index),
    ;

    /// Clears every component list atomically, for a full-world reset.
    fn __wipe_all(&mut self)
        ensures
            forall|comp: u64, index: usize| !final(self).spec_has(comp, index),
    ;
}

pub(crate) enum InnerComponentList<T: Component> {
    Hot(VecStorage<T>),
    Cold(HashStorage<T>),
}

/// One typed component list: a mapping from dense entity index to component
/// value, with a storage strategy chosen at schema-definition time.
pub struct ComponentList<T: Component> {
    pub(crate) inner: InnerComponentList<T>,
}

impl<T: Component> ComponentList<T> {
    /// The contents: which entity index holds which component value.
    pub closed spec fn contents(&self) -> Map<usize, T> {
        match self.inner {
            InnerComponentList::Hot(s) => s.contents(),
            InnerComponentList::Cold(s) => s.contents(),
        }
    }

    /// An empty dense (array-backed) list, for components most entities carry.
    pub fn hot() -> (r: Self)
        ensures
            r.contents() == Map::<usize, T>::empty(),
    {
        ComponentList { inner: InnerComponentList::Hot(ComponentStorage::__new()) }
    }

    /// An empty sparse (hash-backed) list, for components few entities carry.
    pub fn cold() -> (r: Self)
        ensures
            r.contents() == Map::<usize, T>::empty(),
    {
        ComponentList { inner: InnerComponentList::Cold(ComponentStorage::__new()) }
    }

    fn insert_at(&mut self, index: usize, component: T) -> (r: Option<T>)
        ensures
            final(self).contents() == old(self).contents().insert(index, component),
            match r {
                Some(v) => old(self).contents().contains_key(index) && v == old(
                    self,
                ).contents()[index],
                None => !old(self).contents().contains_key(index),
            },
    {
        match &mut self.inner {
            InnerComponentList::Hot(s) => s.replace(index, component),
            InnerComponentList::Cold(s) => s.replace(index, component),
        }
    }

    fn remove_at(&mut self, index: usize) -> (r: Option<T>)
        ensures
            final(self).contents() == old(self).contents().remove(index),
            match r {
                Some(v) => old(self).contents().contains_key(index) && v == old(
                    self,
                ).contents()[index],
                None => !old(self).contents().contains_key(index),
            },
    {
        match &mut self.inner {
            InnerComponentList::Hot(s) => s.take(index),
            InnerComponentList::Cold(s) => s.take(index),
        }
    }

    /// Attaches `component` to an entity under construction, handing back the
    /// value it replaces, if any.
    pub fn add(&mut self, entity: BuildData, component: T) -> (r: Option<T>)
        ensures
            final(self).contents() == old(self).contents().insert(
                entity.spec_entity().spec_index(),
                component,
            ),
            match r {
                Some(v) => old(self).contents().contains_key(entity.spec_entity().spec_index())
                    && v == old(self).contents()[entity.spec_entity().spec_index()],
                None => !old(self).contents().contains_key(entity.spec_entity().spec_index()),
            },
    {
        let index = entity.index();
        self.insert_at(index, component)
    }

    /// Detaches this component from a live entity under modification, handing
    /// back its value, if the entity carried one.
    pub fn remove(&mut self, entity: ModifyData) -> (r: Option<T>)
        ensures
            final(self).contents() == old(self).contents().remove(
                entity.spec_entity().spec_index(),
            ),
            match r {
                Some(v) => old(self).contents().contains_key(entity.spec_entity().spec_index())
                    && v == old(self).contents()[entity.spec_entity().spec_index()],
                None => !old(self).contents().contains_key(entity.spec_entity().spec_index()),
            },
    {
        let index = entity.index();
        self.remove_at(index)
    }

    /// Replaces this entity's component with `component`, handing back the old
    /// value. Inserting a brand-new component is a contract violation for
    /// handles that forbid insertion (`EntityData`), so such a call demands
    /// that the component is already present.
    pub fn set<E: EditData>(&mut self, entity: E, component: T) -> (r: Option<T>)
        requires
            E::spec_can_insert() || old(self).contents().contains_key(
                entity.spec_edit_target().spec_index(),
            ),
        ensures
            final(self).contents() == old(self).contents().insert(
                entity.spec_edit_target().spec_index(),
                component,
            ),
            match r {
                Some(v) => old(self).contents().contains_key(
                    entity.spec_edit_target().spec_index(),
                ) && v == old(self).contents()[entity.spec_edit_target().spec_index()],
                None => !old(self).contents().contains_key(entity.spec_edit_target().spec_index()),
            },
    {
        let index = entity.entity().index();
        self.insert_at(index, component)
    }

    /// A clone of this entity's component, if it carries one.
    pub fn get<E: EditData>(&self, entity: E) -> (r: Option<T>) where T: Clone
        ensures
            match r {
                Some(v) => self.contents().contains_key(entity.spec_edit_target().spec_index())
                    && cloned(self.contents()[entity.spec_edit_target().spec_index()], v),
                None => !self.contents().contains_key(entity.spec_edit_target().spec_index()),
            },
    {
        let index = entity.entity().index();
        let found = match &self.inner {
            InnerComponentList::Hot(s) => ComponentStorage::__get(s, index),
            InnerComponentList::Cold(s) => ComponentStorage::__get(s, index),
        };
        match found {
            Some(v) => Some(v.clone()),
            None => None,
        }
    }

    /// Whether this entity carries the component.
    pub fn has<E: EditData>(&self, entity: E) -> (r: bool)
        ensures
            r == self.contents().contains_key(entity.spec_edit_target().spec_index()),
    {
        let index = entity.entity().index();
        match &self.inner {
            InnerComponentList::Hot(s) => ComponentStorage::__contains(s, index),
            InnerComponentList::Cold(s) => ComponentStorage::__contains(s, index),
        }
    }

    /// Whether the entity at dense index `index` carries the component: the
    /// raw-index query that `ComponentManager::has_component` impls build on.
    pub fn has_index(&self, index: usize) -> (r: bool)
        ensures
            r == self.contents().contains_key(index),
    {
        match &self.inner {
            InnerComponentList::Hot(s) => ComponentStorage::__contains(s, index),
            InnerComponentList::Cold(s) => ComponentStorage::__contains(s, index),
        }
    }

    /// A borrow of this entity's component. Reading a component the entity
    /// does not carry is a contract violation.
    pub fn index<E: EditData>(&self, entity: E) -> (r: &T)
        requires
            self.contents().contains_key(entity.spec_edit_target().spec_index()),
        ensures
            *r == self.contents()[entity.spec_edit_target().spec_index()],
    {
        let index = entity.entity().index();
        let found = match &self.inner {
            InnerComponentList::Hot(s) => ComponentStorage::__get(s, index),
            InnerComponentList::Cold(s) => ComponentStorage::__get(s, index),
        };
        found.unwrap()
    }

    /// A mutable borrow of this entity's component, if it carries one.
    pub fn borrow<E: EditData>(&mut self, entity: E) -> (r: Option<&mut T>)
        ensures
            match r {
                Some(v) => {
                    &&& old(self).contents().contains_key(entity.spec_edit_target().spec_index())
                    &&& *v == old(self).contents()[entity.spec_edit_target().spec_index()]
                    &&& final(self).contents() =~= old(self).contents().insert(
                        entity.spec_edit_target().spec_index(),
                        *final(v),
                    )
                },
                None => {
                    &&& !old(self).contents().contains_key(entity.spec_edit_target().spec_index())
                    &&& final(self).contents() =~= old(self).contents()
                },
            },
    {
        let index = entity.entity().index();
        match &mut self.inner {
            InnerComponentList::Hot(s) => s.get_mut(index),
            InnerComponentList::Cold(s) => s.get_mut(index),
        }
    }

    /// Detaches this component from the given entity, during teardown.
    pub fn __clear(&mut self, entity: &IndexedEntity)
        ensures
            final(self).contents() == old(self).contents().remove(entity.spec_index()),
    {
        let index = entity.index();
        let _ = self.remove_at(index);
    }

    /// Empties the whole list, as part of a full-world reset.
    pub fn __wipe(&mut self)
        ensures
            final(self).contents() == Map::<usize, T>::empty(),
    {
        match &mut self.inner {
            InnerComponentList::Hot(s) => s.wipe(),
            InnerComponentList::Cold(s) => s.wipe(),
        }
    }
}

} // verus!
