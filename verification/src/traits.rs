//! The capability traits of schema-level aggregates: a bag of component
//! storages, and a single storage mapping dense indices to component values.

use vstd::prelude::*;

verus! {

/// A user-defined aggregate owning one storage per component type.
pub trait Components: Sized {
    /// Every storage of a freshly built aggregate is empty.
    spec fn spec_empty(&self) -> bool;

    fn new() -> (r: Self)
        ensures
            r.spec_empty(),
    ;
}

/// A container mapping a dense entity index to at most one component value.
/// Its contents are modelled as a finite map from indices to values.
pub trait ComponentStorage: Sized {
    type Component;

    /// The contents: which index holds which component value.
    spec fn contents(&self) -> Map<usize, Self::Component>;

    fn __new() -> (r: Self)
        ensures
            r.contents() == Map::<usize, Self::Component>::empty(),
    ;

    fn __insert(&mut self, index: usize, component: Self::Component)
        ensures
            final(self).contents() == old(self).contents().insert(index, component),
    ;

    fn __remove(&mut self, index: usize)
        ensures
            final(self).contents() == old(self).contents().remove(index),
    ;

    fn __contains(&self, index: usize) -> (r: bool)
        ensures
            r == self.contents().contains_key(index),
    ;

    fn __get(&self, index: usize) -> (r: Option<&Self::Component>)
        ensures
            match r {
                Some(v) => self.contents().contains_key(index) && *v == self.contents()[index],
                None => !self.contents().contains_key(index),
            },
    ;
}

/// Storage round trip: per the storage contracts, inserting a value at an
/// index and then getting that index yields the value back; removing the
/// index afterwards makes a presence test report false; and a storage built
/// empty reports false for every index.
pub proof fn lemma_storage_round_trip<S: ComponentStorage>(
    empty: S,
    inserted: S,
    removed: S,
    index: usize,
    component: S::Component,
)
    requires
        empty.contents() == Map::<usize, S::Component>::empty(),
        inserted.contents() == empty.contents().insert(index, component),
        removed.contents() == inserted.contents().remove(index),
    ensures
        inserted.contents().contains_key(index),
        inserted.contents()[index] == component,
        !removed.contents().contains_key(index),
        forall|j: usize| !empty.contents().contains_key(j),
{
}

} // verus!
