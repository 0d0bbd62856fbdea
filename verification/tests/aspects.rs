use conniecs::system::EntitySystem;
use conniecs::system::InteractSystem;
use conniecs::system::IntervalSystem;
use conniecs::system::entity::{EntityProcess, FilteredEntitySystem};
use conniecs::system::interact::{InteractProcess, InteractSystemFilter};
use conniecs::system::interval::{SystemInterval, TickerState};
use conniecs::Aspect;
use conniecs::ComponentList;
use conniecs::ComponentManager;
use conniecs::Process;
use conniecs::System;
use conniecs::SystemManager;

type Comps<T> = ComponentList<T>;
type DataHelper = conniecs::DataHelper<Components, Services>;
type EntityData = conniecs::EntityData;
type EntityIter = conniecs::EntityIter;

#[derive(Default)]
pub struct Services;

impl conniecs::ServiceManager for Services {}

pub const FOO: u64 = 0;
pub const BAR: u64 = 1;
pub const BAZ: u64 = 2;
pub const QUX: u64 = 3;

pub struct Components {
    pub foo: Comps<String>,
    pub bar: Comps<f32>,
    pub baz: Comps<[f32; 3]>,
    pub qux: Comps<Vec<i32>>,
}

impl ComponentManager for Components {
    fn spec_has(&self, comp: u64, index: usize) -> bool {
        self.has_component(comp, index)
    }

    fn build_manager() -> Self {
        Components {
            foo: ComponentList::cold(),
            bar: ComponentList::hot(),
            baz: ComponentList::hot(),
            qux: ComponentList::cold(),
        }
    }

    fn has_component(&self, comp: u64, index: usize) -> bool {
        match comp {
            FOO => self.foo.has_index(index),
            BAR => self.bar.has_index(index),
            BAZ => self.baz.has_index(index),
            QUX => self.qux.has_index(index),
            _ => false,
        }
    }

    fn __wipe_all(&mut self) {
        self.foo.__wipe();
        self.bar.__wipe();
        self.baz.__wipe();
        self.qux.__wipe();
    }
}

#[derive(Default)]
pub struct Update;

impl System for Update {
    type Components = Components;
    type Services = Services;

    fn build_system() -> Self {
        Default::default()
    }
}

impl Process for Update {
    fn process(&mut self, data: &mut DataHelper) {
        process_update(self, data);
    }
}

fn process_update(_: &mut Update, data: &mut DataHelper) {
    let mut entities = data.entities();
    while let Some(entity) = entities.next() {
        if data.components.foo.has(entity) {
            println!("{}", data.components.foo.index(entity));
        }
    }
}

#[derive(Default)]
pub struct Panicker;

impl System for Panicker {
    type Components = Components;
    type Services = Services;

    fn build_system() -> Self {
        Default::default()
    }
}

impl Process for Panicker {
    fn process(&mut self, data: &mut DataHelper) {
        panicker_update(self, data);
    }
}

fn panicker_update(_: &mut Panicker, _: &mut DataHelper) {
    panic!("this shouldn't get called");
}

#[derive(Default)]
pub struct ESystem;

impl System for ESystem {
    type Components = Components;
    type Services = Services;

    fn build_system() -> Self {
        Default::default()
    }
}

impl FilteredEntitySystem for ESystem {
    fn spec_aspect() -> Aspect {
        ESystem::create_aspect()
    }

    fn create_aspect() -> Aspect {
        Aspect::new(vec![FOO], vec![QUX])
    }
}

impl EntityProcess for ESystem {
    fn process(&mut self, entities: EntityIter, data: &mut DataHelper) {
        eprocess(self, entities, data);
    }
}

fn eprocess(_: &mut ESystem, mut entities: EntityIter, data: &mut DataHelper) {
    while let Some(entity) = entities.next() {
        data.components.foo.borrow(entity).unwrap().push_str("ghjkl");
    }
}

#[derive(Default)]
pub struct ISystem;

impl System for ISystem {
    type Components = Components;
    type Services = Services;

    fn build_system() -> Self {
        Default::default()
    }
}

impl InteractSystemFilter for ISystem {
    fn spec_filter_a() -> Aspect {
        ISystem::create_filter_a()
    }

    fn spec_filter_b() -> Aspect {
        ISystem::create_filter_b()
    }

    fn create_filter_a() -> Aspect {
        Aspect::new(vec![BAR], vec![BAZ])
    }

    fn create_filter_b() -> Aspect {
        Aspect::new(vec![BAZ], vec![BAR])
    }
}

impl InteractProcess for ISystem {
    fn process(&mut self, entities_a: EntityIter, entities_b: EntityIter, data: &mut DataHelper) {
        iprocess(self, entities_a, entities_b, data);
    }
}

fn iprocess(_: &mut ISystem, mut bars: EntityIter, bazes: EntityIter, data: &mut DataHelper) {
    while let Some(bar_entity) = bars.next() {
        let mut inner = bazes.clone();
        while let Some(baz_entity) = inner.next() {
            let delta = data.components.bar.get(bar_entity).unwrap();
            data.components.baz.borrow(baz_entity).unwrap()[0] += delta;
        }
    }
}

#[derive(Default)]
pub struct IVSystem {
    pub booped: bool,
    pub boop: bool,
}

impl System for IVSystem {
    type Components = Components;
    type Services = Services;

    fn build_system() -> Self {
        Default::default()
    }

    fn activated(&mut self, entity: EntityData, components: &Components, services: &mut Services) {
        activated(self, entity, components, services);
    }
}

impl SystemInterval for IVSystem {
    fn spec_interval() -> TickerState {
        IVSystem::create_interval()
    }

    fn create_interval() -> TickerState {
        TickerState::Frames { interval: 3, ticks: 0 }
    }
}

impl Process for IVSystem {
    fn process(&mut self, data: &mut DataHelper) {
        interval_process(self, data);
    }
}

fn interval_process(iv: &mut IVSystem, _: &mut DataHelper) {
    iv.booped = !iv.booped;
}

fn activated(iv: &mut IVSystem, _: EntityData, _: &Components, _: &mut Services) {
    iv.boop = true;
}

pub struct Systems {
    pub update: Update,
    pub esystem: EntitySystem<ESystem>,
    pub isystem: InteractSystem<ISystem>,
    pub ivsystem: IntervalSystem<IVSystem>,
    pub panicker: Panicker,
}

impl SystemManager for Systems {
    type Components = Components;
    type Services = Services;

    fn build_manager() -> Self {
        Systems {
            update: System::build_system(),
            esystem: System::build_system(),
            isystem: System::build_system(),
            ivsystem: System::build_system(),
            panicker: System::build_system(),
        }
    }

    fn activated(&mut self, entity: EntityData, components: &Components, services: &mut Services) {
        self.update.activated(entity, components, services);
        self.esystem.activated(entity, components, services);
        self.isystem.activated(entity, components, services);
        self.ivsystem.activated(entity, components, services);
        self.panicker.activated(entity, components, services);
    }

    fn reactivated(
        &mut self,
        entity: EntityData,
        components: &Components,
        services: &mut Services,
    ) {
        self.update.reactivated(entity, components, services);
        self.esystem.reactivated(entity, components, services);
        self.isystem.reactivated(entity, components, services);
        self.ivsystem.reactivated(entity, components, services);
        self.panicker.reactivated(entity, components, services);
    }

    fn deactivated(
        &mut self,
        entity: EntityData,
        components: &Components,
        services: &mut Services,
    ) {
        self.update.deactivated(entity, components, services);
        self.esystem.deactivated(entity, components, services);
        self.isystem.deactivated(entity, components, services);
        self.ivsystem.deactivated(entity, components, services);
        self.panicker.deactivated(entity, components, services);
    }

    fn update(&mut self, data: &mut DataHelper) {
        self.update.process(data);
        self.esystem.process(data);
        self.isystem.process(data);
        self.ivsystem.process(data);
    }
}

#[test]
pub fn simulate() {
    let mut world = conniecs::World::<Systems>::new();
    assert_eq!(world.systems.ivsystem.inner.booped, false);
    assert_eq!(world.systems.ivsystem.inner.boop, false);

    let asdf = world.data.create_entity(|e, c: &mut Components, _: &mut Services| {
        c.foo.add(e, "asdf".to_string());
    });

    let bar = world.data.create_entity(|e, c: &mut Components, _: &mut Services| {
        c.bar.add(e, 0.25);
    });
    let _bar1 = world.data.create_entity(|e, c: &mut Components, _: &mut Services| {
        c.bar.add(e, 0.25);
    });

    let baz = world.data.create_entity(|e, c: &mut Components, _: &mut Services| {
        c.baz.add(e, [0.0, 0.0, 0.0]);
    });

    world.update();
    assert_eq!(world.systems.ivsystem.inner.booped, false);
    assert_eq!(world.systems.ivsystem.inner.boop, true);

    world.data.with_entity_data(asdf, |e, c, _| {
        assert_eq!(c.foo.index(e).as_str(), "asdfghjkl");
    });

    world.data.with_entity_data(baz, |e, c, _| {
        assert_eq!(c.baz.index(e)[0], 0.5);
    });

    world.modify_entity(asdf, |e, c: &mut Components, _: &mut Services| {
        c.qux.set(e, vec![1, 2, 3]);
    });

    world.update();
    assert_eq!(world.systems.ivsystem.inner.booped, false);

    world.data.with_entity_data(asdf, |e, c, _| {
        assert_eq!(c.foo.index(e).as_str(), "asdfghjkl");
    });

    world.data.with_entity_data(baz, |e, c, _| {
        assert_eq!(c.baz.index(e)[0], 1.0);
    });

    world.data.remove_entity(bar);

    world.update();
    assert_eq!(world.systems.ivsystem.inner.booped, true);

    world.data.with_entity_data(baz, |e, c, _| {
        assert_eq!(c.baz.index(e)[0], 1.25);
    });

    world.wipe();
}
