//! The lazy system: defers construction of its inner system. Until external
//! code initialises it, every lifecycle call and processing pass is a no-op.

use vstd::prelude::*;

use crate::entity::EntityData;
use crate::system::{Process, System};
use crate::world::DataHelper;

verus! {

/// Holds an optional inner system, built lazily. The wrapper forwards calls
/// only once initialised.
pub struct LazySystem<T: System> {
    pub inner: Option<T>,
}

impl<T: System> LazySystem<T> {
    /// Initialises the system if it is not yet initialised; reports whether it
    /// already was (in which case `sys` is dropped).
    pub fn init(&mut self, sys: T) -> (r: bool)
        ensures
            r == old(self).inner is Some,
            final(self).inner is Some,
            old(self).inner is None ==> final(self).inner == Some(sys),
            old(self).inner is Some ==> final(self).inner == old(self).inner,
    {
        if self.inner.is_none() {
            self.inner = Some(sys);
            false
        } else {
            true
        }
    }

    /// Initialises the system from a constructor closure if it is not yet
    /// initialised; reports whether it already was (in which case the closure
    /// is not called).
    pub fn init_with<F: FnOnce() -> T>(&mut self, f: F) -> (r: bool)
        requires
            call_requires(f, ()),
        ensures
            r == old(self).inner is Some,
            final(self).inner is Some,
            old(self).inner is None ==> (final(self).inner matches Some(sys) && call_ensures(
                f,
                (),
                sys,
            )),
            old(self).inner is Some ==> final(self).inner == old(self).inner,
    {
        if self.inner.is_none() {
            self.inner = Some(f());
            false
        } else {
            true
        }
    }

    /// Installs `sys` unconditionally, replacing any current inner system;
    /// reports whether one was already installed.
    pub fn init_override(&mut self, sys: T) -> (r: bool)
        ensures
            r == old(self).inner is Some,
            final(self).inner == Some(sys),
    {
        let was = self.inner.is_some();
        self.inner = Some(sys);
        was
    }

    /// Whether the inner system has been built.
    pub fn is_initialized(&self) -> (r: bool)
        ensures
            r == self.inner is Some,
    {
        self.inner.is_some()
    }
}

impl<T: System> System for LazySystem<T> {
    type Components = T::Components;

    type Services = T::Services;

    fn build_system() -> (r: Self)
        ensures
            r.inner is None,
    {
        LazySystem { inner: None }
    }

    fn activated(
        &mut self,
        entity: EntityData,
        components: &T::Components,
        services: &mut T::Services,
    ) {
        match self.inner.as_mut() {
            Some(inner) => inner.activated(entity, components, services),
            None => (),
        }
    }

    fn reactivated(
        &mut self,
        entity: EntityData,
        components: &T::Components,
        services: &mut T::Services,
    ) {
        match self.inner.as_mut() {
            Some(inner) => inner.reactivated(entity, components, services),
            None => (),
        }
    }

    fn deactivated(
        &mut self,
        entity: EntityData,
        components: &T::Components,
        services: &mut T::Services,
    ) {
        match self.inner.as_mut() {
            Some(inner) => inner.deactivated(entity, components, services),
            None => (),
        }
    }
}

impl<T: Process> Process for LazySystem<T> {
    fn process(&mut self, data: &mut DataHelper<T::Components, T::Services>) {
        match self.inner.as_mut() {
            Some(inner) => inner.process(data),
            None => (),
        }
    }
}

} // verus!
