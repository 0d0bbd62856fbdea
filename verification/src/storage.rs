//! The two storage strategies: dense, array-backed storage for components
//! present on most entities, and sparse, hash-backed storage for rare ones.
//! Both realise the `ComponentStorage` contract over the same map model.

use std::collections::HashMap;
use vstd::pervasive::VecAdditionalExecFns;
use vstd::prelude::*;

use crate::traits::ComponentStorage;

verus! {

broadcast use vstd::std_specs::hash::group_hash_axioms;

/// Dense storage: a growable array of slots, one per index. Suited to
/// components that most entities carry, since the index space stays compact.
pub struct VecStorage<T> {
    slots: Vec<Option<T>>,
}

impl<T> ComponentStorage for VecStorage<T> {
    type Component = T;

    closed spec fn contents(&self) -> Map<usize, T> {
        Map::new(
            |i: usize| i < self.slots@.len() && self.slots@[i as int] is Some,
            |i: usize| self.slots@[i as int]->Some_0,
        )
    }

    fn __new() -> (r: Self) {
        let r = VecStorage { slots: Vec::new() };
        proof {
            assert(r.contents() =~= Map::<usize, T>::empty());
        }
        r
    }

    fn __insert(&mut self, index: usize, component: T) {
        while self.slots.len() <= index
            invariant
                self.contents() == old(self).contents(),
            decreases index + 1 - self.slots@.len(),
        {
            let ghost prev = *self;
            self.slots.push(None);
            proof {
                assert(self.contents() =~= prev.contents());
            }
        }
        let ghost prev = *self;
        self.slots.set(index, Some(component));
        proof {
            assert(self.contents() =~= prev.contents().insert(index, component));
        }
    }

    fn __remove(&mut self, index: usize) {
        if index < self.slots.len() {
            let ghost prev = *self;
            self.slots.set(index, None);
            proof {
                assert(self.contents() =~= prev.contents().remove(index));
            }
        } else {
            proof {
                assert(self.contents() =~= self.contents().remove(index));
            }
        }
    }

    fn __contains(&self, index: usize) -> (r: bool) {
        index < self.slots.len() && self.slots[index].is_some()
    }

    fn __get(&self, index: usize) -> (r: Option<&T>) {
        if index < self.slots.len() {
            self.slots[index].as_ref()
        } else {
            None
        }
    }
}

impl<T> VecStorage<T> {
    /// Inserts `component` at `index` and hands back the value that held the
    /// slot before, if any.
    pub fn replace(&mut self, index: usize, component: T) -> (r: Option<T>)
        ensures
            final(self).contents() == old(self).contents().insert(index, component),
            match r {
                Some(v) => old(self).contents().contains_key(index) && v == old(
                    self,
                ).contents()[index],
                None => !old(self).contents().contains_key(index),
            },
    {
        while self.slots.len() <= index
            invariant
                self.contents() == old(self).contents(),
            decreases index + 1 - self.slots@.len(),
        {
            let ghost prev = *self;
            self.slots.push(None);
            proof {
                assert(self.contents() =~= prev.contents());
            }
        }
        let mut slot = Some(component);
        let ghost prev = *self;
        self.slots.set_and_swap(index, &mut slot);
        proof {
            assert(self.contents() =~= prev.contents().insert(
                index,
                self.slots@[index as int]->Some_0,
            ));
        }
        slot
    }

    /// Empties the storage.
    pub fn wipe(&mut self)
        ensures
            final(self).contents() == Map::<usize, T>::empty(),
    {
        self.slots.clear();
        proof {
            assert(self.contents() =~= Map::<usize, T>::empty());
        }
    }

    /// A mutable borrow of the value at `index`, if the slot is filled.
    pub fn get_mut(&mut self, index: usize) -> (r: Option<&mut T>)
        ensures
            match r {
                Some(v) => {
                    &&& old(self).contents().contains_key(index)
                    &&& *v == old(self).contents()[index]
                    &&& final(self).contents() =~= old(self).contents().insert(index, *final(v))
                },
                None => {
                    &&& !old(self).contents().contains_key(index)
                    &&& final(self).contents() =~= old(self).contents()
                },
            },
    {
        if index < self.slots.len() {
            self.slots[index].as_mut()
        } else {
            None
        }
    }

    /// Removes the value at `index`, handing it back if the slot was filled.
    pub fn take(&mut self, index: usize) -> (r: Option<T>)
        ensures
            final(self).contents() == old(self).contents().remove(index),
            match r {
                Some(v) => old(self).contents().contains_key(index) && v == old(
                    self,
                ).contents()[index],
                None => !old(self).contents().contains_key(index),
            },
    {
        if index < self.slots.len() {
            let mut slot = None;
            let ghost prev = *self;
            self.slots.set_and_swap(index, &mut slot);
            proof {
                assert(self.contents() =~= prev.contents().remove(index));
            }
            slot
        } else {
            proof {
                assert(self.contents() =~= self.contents().remove(index));
            }
            None
        }
    }
}

/// Sparse storage: a hash table keyed by index. Suited to components that few
/// entities carry, where a dense array would waste space.
pub struct HashStorage<T> {
    table: HashMap<usize, T>,
}

impl<T> ComponentStorage for HashStorage<T> {
    type Component = T;

    closed spec fn contents(&self) -> Map<usize, T> {
        self.table@
    }

    fn __new() -> (r: Self) {
        HashStorage { table: HashMap::new() }
    }

    fn __insert(&mut self, index: usize, component: T) {
        self.table.insert(index, component);
    }

    fn __remove(&mut self, index: usize) {
        self.table.remove(&index);
    }

    fn __contains(&self, index: usize) -> (r: bool) {
        self.table.contains_key(&index)
    }

    fn __get(&self, index: usize) -> (r: Option<&T>) {
        self.table.get(&index)
    }
}

impl<T> HashStorage<T> {
    /// Inserts `component` at `index` and hands back the value that held the
    /// slot before, if any.
    pub fn replace(&mut self, index: usize, component: T) -> (r: Option<T>)
        ensures
            final(self).contents() == old(self).contents().insert(index, component),
            match r {
                Some(v) => old(self).contents().contains_key(index) && v == old(
                    self,
                ).contents()[index],
                None => !old(self).contents().contains_key(index),
            },
    {
        self.table.insert(index, component)
    }

    /// Removes the value at `index`, handing it back if the slot was filled.
    pub fn take(&mut self, index: usize) -> (r: Option<T>)
        ensures
            final(self).contents() == old(self).contents().remove(index),
            match r {
                Some(v) => old(self).contents().contains_key(index) && v == old(
                    self,
                ).contents()[index],
                None => !old(self).contents().contains_key(index),
            },
    {
        self.table.remove(&index)
    }

    /// Empties the storage.
    pub fn wipe(&mut self)
        ensures
            final(self).contents() == Map::<usize, T>::empty(),
    {
        self.table.clear();
    }
}

impl<T> HashStorage<T> {
    /// A mutable borrow of the value at `index`, if the slot is filled.
    pub fn get_mut(&mut self, index: usize) -> (r: Option<&mut T>)
        ensures
            match r {
                Some(v) => {
                    &&& old(self).contents().contains_key(index)
                    &&& *v == old(self).contents()[index]
                    &&& final(self).contents() =~= old(self).contents().insert(index, *final(v))
                },
                None => {
                    &&& !old(self).contents().contains_key(index)
                    &&& final(self).contents() =~= old(self).contents()
                },
            },
    {
        match self.table.entry(index) {
            std::collections::hash_map::Entry::Occupied(slot) => Some(slot.into_mut()),
            std::collections::hash_map::Entry::Vacant(_) => None,
        }
    }
}

/// Marker storage: a sparse storage of unit values, recording only which
/// entities carry the marker.
pub struct MarkerStorage {
    table: HashMap<usize, ()>,
}

impl ComponentStorage for MarkerStorage {
    type Component = ();

    closed spec fn contents(&self) -> Map<usize, ()> {
        self.table@
    }

    fn __new() -> (r: Self) {
        MarkerStorage { table: HashMap::new() }
    }

    fn __insert(&mut self, index: usize, component: ()) {
        self.table.insert(index, component);
    }

    fn __remove(&mut self, index: usize) {
        self.table.remove(&index);
    }

    fn __contains(&self, index: usize) -> (r: bool) {
        self.table.contains_key(&index)
    }

    fn __get(&self, index: usize) -> (r: Option<&()>) {
        self.table.get(&index)
    }
}

} // verus!
