//! The system capability set: lifecycle hooks, the per-tick processing step,
//! and the manager that fans both out over all of a schema's systems in
//! declaration order.

use vstd::prelude::*;

use crate::component::ComponentManager;
use crate::entity::EntityData;
use crate::services::ServiceManager;
use crate::world::DataHelper;

pub mod entity;
pub mod interact;
pub mod interval;
pub mod lazy;
pub mod watcher;

pub use crate::system::entity::{EntityProcess, EntitySystem};
pub use crate::system::interact::{InteractProcess, InteractSystem};
pub use crate::system::interval::IntervalSystem;
pub use crate::system::lazy::LazySystem;

verus! {

/// A unit of behaviour with per-entity lifecycle hooks. All hooks default to
/// no-ops; `reactivated` defaults to `deactivated` followed by `activated`.
pub trait System: Sized {
    type Components: ComponentManager;

    type Services: ServiceManager;

    /// Builds the system with no entity context.
    fn build_system() -> Self;

    /// Called when an entity enters this system's interest set.
    fn activated(
        &mut self,
        entity: EntityData,
        components: &Self::Components,
        services: &mut Self::Services,
    ) {
    }

    /// Called when a watched entity's components changed but it stays of
    /// interest.
    fn reactivated(
        &mut self,
        entity: EntityData,
        components: &Self::Components,
        services: &mut Self::Services,
    ) {
        self.deactivated(entity, components, services);
        self.activated(entity, components, services);
    }

    /// Called when an entity leaves this system's interest set.
    fn deactivated(
        &mut self,
        entity: EntityData,
        components: &Self::Components,
        services: &mut Self::Services,
    ) {
    }
}

/// The per-tick processing step, for systems that do work each update.
/// Implementations may create or remove entities through `data`, but must
/// leave its bookkeeping invariant intact.
pub trait Process: System {
    fn process(&mut self, data: &mut DataHelper<Self::Components, Self::Services>)
        requires
            old(data).wf(),
        ensures
            final(data).wf(),
    ;
}

/// The schema's aggregate of systems. Implementations fan each lifecycle call
/// out to every system field in declaration order, and `update` runs the
/// processing step of every non-passive system, in the same order.
pub trait SystemManager: Sized {
    type Components: ComponentManager;

    type Services: ServiceManager;

    /// Builds every system of the schema.
    fn build_manager() -> Self;

    fn activated(
        &mut self,
        entity: EntityData,
        components: &Self::Components,
        services: &mut Self::Services,
    );

    fn reactivated(
        &mut self,
        entity: EntityData,
        components: &Self::Components,
        services: &mut Self::Services,
    );

    fn deactivated(
        &mut self,
        entity: EntityData,
        components: &Self::Components,
        services: &mut Self::Services,
    );

    /// Runs the processing pass over every active (non-passive) system.
    /// Implementations may create or remove entities through `data`, but must
    /// leave its bookkeeping invariant intact.
    fn update(&mut self, data: &mut DataHelper<Self::Components, Self::Services>)
        requires
            old(data).wf(),
        ensures
            final(data).wf(),
    ;
}

} // verus!
