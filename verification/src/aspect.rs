//! Aspects: immutable predicates selecting entities by which components they
//! carry. The built-in combinator is a conjunction of "has all of these" and
//! "has none of those" over the schema's component kinds.

use vstd::prelude::*;

use crate::component::ComponentManager;
use crate::entity::EntityData;

verus! {

/// A predicate over one entity's components, evaluated against a component
/// manager. `check` is pure: between lifecycle calls it answers the same for
/// the same entity and component set.
pub enum Aspect {
    /// Matches every entity.
    Every,
    /// Matches no entity.
    Nothing,
    /// Matches entities carrying every `required` component kind and no
    /// `forbidden` one.
    Filter { required: Vec<u64>, forbidden: Vec<u64> },
}

impl Aspect {
    /// What `check` decides: whether the entity at `index` satisfies this
    /// aspect under `components`.
    pub open spec fn spec_matches<C: ComponentManager>(&self, components: &C, index: usize) -> bool {
        match self {
            Aspect::Every => true,
            Aspect::Nothing => false,
            Aspect::Filter { required, forbidden } => {
                &&& forall|i: int|
                    0 <= i < required@.len() ==> components.spec_has(
                        #[trigger] required@[i],
                        index,
                    )
                &&& forall|i: int|
                    0 <= i < forbidden@.len() ==> !components.spec_has(
                        #[trigger] forbidden@[i],
                        index,
                    )
            },
        }
    }

    /// The aspect that accepts every entity.
    pub fn all() -> (r: Aspect)
        ensures
            r == Aspect::Every,
    {
        Aspect::Every
    }

    /// The aspect that accepts no entity.
    pub fn none() -> (r: Aspect)
        ensures
            r == Aspect::Nothing,
    {
        Aspect::Nothing
    }

    /// The built-in combinator: all of `required`, none of `forbidden`.
    pub fn new(required: Vec<u64>, forbidden: Vec<u64>) -> (r: Aspect)
        ensures
            r == (Aspect::Filter { required, forbidden }),
    {
        Aspect::Filter { required, forbidden }
    }

    /// Evaluates the aspect for one entity, checking the required kinds first
    /// in declaration order, then the forbidden ones, stopping at the first
    /// failure.
    #[verifier::loop_isolation(false)]
    pub fn check<C: ComponentManager>(&self, entity: EntityData, components: &C) -> (r: bool)
        ensures
            r == self.spec_matches(components, entity.spec_entity().spec_index()),
    {
        let index = entity.index();
        match self {
            Aspect::Every => true,
            Aspect::Nothing => false,
            Aspect::Filter { required, forbidden } => {
                let mut k: usize = 0;
                while k < required.len()
                    invariant
                        k <= required@.len(),
                        forall|i: int|
                            0 <= i < k ==> components.spec_has(#[trigger] required@[i], index),
                    decreases required@.len() - k,
                {
                    if !components.has_component(required[k], index) {
                        proof {
                            assert(!components.spec_has(required@[k as int], index));
                        }
                        return false;
                    }
                    k += 1;
                }
                let mut k: usize = 0;
                while k < forbidden.len()
                    invariant
                        k <= forbidden@.len(),
                        forall|i: int|
                            0 <= i < k ==> !components.spec_has(#[trigger] forbidden@[i], index),
                    decreases forbidden@.len() - k,
                {
                    if components.has_component(forbidden[k], index) {
                        proof {
                            assert(components.spec_has(forbidden@[k as int], index));
                        }
                        return false;
                    }
                    k += 1;
                }
                true
            },
        }
    }
}

/// Reactivation glue: a filter aspect rejects an entity as soon as one of its
/// required components is missing, so removing a required component from a
/// watched entity makes the next reactivation deactivate it; once every
/// required component is back (and no forbidden one present), the aspect
/// accepts it again and the next reactivation activates it.
pub proof fn lemma_missing_required_rejects<C: ComponentManager>(
    required: Vec<u64>,
    forbidden: Vec<u64>,
    components: &C,
    index: usize,
    k: int,
)
    requires
        0 <= k < required@.len(),
        !components.spec_has(required@[k], index),
    ensures
        !(Aspect::Filter { required, forbidden }).spec_matches(components, index),
{
    let a = Aspect::Filter { required, forbidden };
    if a.spec_matches(components, index) {
        assert(!components.spec_has(a->Filter_required@[k], index));
        assert(false);
    }
}

} // verus!
