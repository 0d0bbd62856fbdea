//! Builders and modifiers: the callbacks that fill in a freshly created
//! entity's components, or rework a live entity's components in place.

use vstd::prelude::*;

use crate::component::ComponentManager;
use crate::entity::{BuildData, ModifyData};
use crate::services::ServiceManager;

verus! {

/// Fills in the components of a freshly created entity. The entity is not yet
/// visible to any watcher while the builder runs, so inserting components
/// through `BuildData` is always allowed.
pub trait EntityBuilder<C: ComponentManager, M: ServiceManager>: Sized {
    fn build(self, entity: BuildData, components: &mut C, services: &mut M);
}

/// The empty builder: attaches nothing.
impl<C: ComponentManager, M: ServiceManager> EntityBuilder<C, M> for () {
    fn build(self, entity: BuildData, components: &mut C, services: &mut M) {
    }
}

/// Reworks the components of a live entity; the caller reports the change to
/// the systems afterwards.
pub trait EntityModifier<C: ComponentManager, M: ServiceManager>: Sized {
    fn modify(self, entity: ModifyData, components: &mut C, services: &mut M);
}

/// The empty modifier: changes nothing.
impl<C: ComponentManager, M: ServiceManager> EntityModifier<C, M> for () {
    fn modify(self, entity: ModifyData, components: &mut C, services: &mut M) {
    }
}

} // verus!
