//! Runtime core of an entity-component-system: entity identity and index
//! allocation, component storage, aspect-based filtering, incremental
//! interest tracking, system lifecycle dispatch and tick orchestration.

pub mod aspect;
pub mod builder;
mod clock;
pub mod component;
pub mod coroutines;
pub mod entity;
pub mod manager;
mod pool;
pub mod services;
pub mod storage;
pub mod system;
pub mod traits;
pub mod world;

pub use crate::aspect::Aspect;
pub use crate::builder::{EntityBuilder, EntityModifier};
pub use crate::component::{Component, ComponentList, ComponentManager};
pub use crate::coroutines::CoroAction;
pub use crate::entity::{BuildData, EditData, EntityData, EntityIter, FilteredEntityIter, ModifyData};
pub use crate::entity::{Entity, Id, IndexedEntity};
pub use crate::manager::{EntityEvent, EntityManager};
pub use crate::services::ServiceManager;
pub use crate::system::entity::{EntityProcess, EntitySystem, FilteredEntitySystem};
pub use crate::system::interact::{InteractProcess, InteractSystem, InteractSystemFilter};
pub use crate::system::interval::{IntervalSpec, IntervalSystem, SystemInterval, TickerState};
pub use crate::system::lazy::LazySystem;
pub use crate::system::watcher::Watcher;
pub use crate::system::{Process, System, SystemManager};
pub use crate::world::{DataHelper, World};
