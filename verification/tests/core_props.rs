use conniecs::system::entity::{EntityProcess, EntitySystem, FilteredEntitySystem};
use conniecs::system::interval::{parse_explicit_iv, parse_interval, parse_iv_time, parse_u64};
use conniecs::system::interval::{IntervalSpec, TickerState};
use conniecs::system::lazy::LazySystem;
use conniecs::system::watcher::Watcher;
use conniecs::traits::ComponentStorage;
use conniecs::Aspect;
use conniecs::ComponentList;
use conniecs::ComponentManager;
use conniecs::CoroAction;
use conniecs::Process;
use conniecs::System;
use conniecs::SystemManager;

type DataHelper = conniecs::DataHelper<Parts, Services>;
type EntityData = conniecs::EntityData;
type EntityIter = conniecs::EntityIter;

#[derive(Default)]
pub struct Services;

impl conniecs::ServiceManager for Services {}

pub const FOO: u64 = 0;

pub struct Parts {
    pub foo: ComponentList<String>,
}

impl ComponentManager for Parts {
    fn spec_has(&self, comp: u64, index: usize) -> bool {
        self.has_component(comp, index)
    }

    fn build_manager() -> Self {
        Parts { foo: ComponentList::hot() }
    }

    fn has_component(&self, comp: u64, index: usize) -> bool {
        match comp {
            FOO => self.foo.has_index(index),
            _ => false,
        }
    }

    fn __wipe_all(&mut self) {
        self.foo.__wipe();
    }
}

/// Counts the lifecycle calls its watcher forwards, and records which
/// entities each processing pass sees.
#[derive(Default)]
pub struct CountSystem {
    pub activations: usize,
    pub deactivations: usize,
    pub reactivations: usize,
    pub seen: Vec<u64>,
}

impl System for CountSystem {
    type Components = Parts;
    type Services = Services;

    fn build_system() -> Self {
        Default::default()
    }

    fn activated(&mut self, _: EntityData, _: &Parts, _: &mut Services) {
        self.activations += 1;
    }

    fn reactivated(&mut self, _: EntityData, _: &Parts, _: &mut Services) {
        self.reactivations += 1;
    }

    fn deactivated(&mut self, _: EntityData, _: &Parts, _: &mut Services) {
        self.deactivations += 1;
    }
}

impl FilteredEntitySystem for CountSystem {
    fn spec_aspect() -> Aspect {
        CountSystem::create_aspect()
    }

    fn create_aspect() -> Aspect {
        Aspect::new(vec![FOO], vec![])
    }
}

impl EntityProcess for CountSystem {
    fn process(&mut self, mut entities: EntityIter, _: &mut DataHelper) {
        self.seen.clear();
        while let Some(entity) = entities.next() {
            self.seen.push(entity.id());
        }
    }
}

/// Counts the lifecycle calls delivered for every entity, unfiltered.
#[derive(Default)]
pub struct CountAll {
    pub activations: usize,
    pub deactivations: usize,
}

impl System for CountAll {
    type Components = Parts;
    type Services = Services;

    fn build_system() -> Self {
        Default::default()
    }

    fn activated(&mut self, _: EntityData, _: &Parts, _: &mut Services) {
        self.activations += 1;
    }

    fn deactivated(&mut self, _: EntityData, _: &Parts, _: &mut Services) {
        self.deactivations += 1;
    }
}

pub struct Counters {
    pub watched: EntitySystem<CountSystem>,
    pub all: CountAll,
}

impl SystemManager for Counters {
    type Components = Parts;
    type Services = Services;

    fn build_manager() -> Self {
        Counters { watched: System::build_system(), all: System::build_system() }
    }

    fn activated(&mut self, entity: EntityData, components: &Parts, services: &mut Services) {
        self.watched.activated(entity, components, services);
        self.all.activated(entity, components, services);
    }

    fn reactivated(&mut self, entity: EntityData, components: &Parts, services: &mut Services) {
        self.watched.reactivated(entity, components, services);
        self.all.reactivated(entity, components, services);
    }

    fn deactivated(&mut self, entity: EntityData, components: &Parts, services: &mut Services) {
        self.watched.deactivated(entity, components, services);
        self.all.deactivated(entity, components, services);
    }

    fn update(&mut self, data: &mut DataHelper) {
        self.watched.process(data);
    }
}

fn index_of(world: &mut conniecs::World<Counters>, e: conniecs::Entity) -> usize {
    world.data.with_entity_data(e, |d, _, _| d.index()).unwrap()
}

#[test]
fn index_reuse() {
    let mut world = conniecs::World::<Counters>::new();
    let a = world.data.create_entity(|_, _: &mut Parts, _: &mut Services| {});
    let b = world.data.create_entity(|_, _: &mut Parts, _: &mut Services| {});
    let c = world.data.create_entity(|_, _: &mut Parts, _: &mut Services| {});
    assert_eq!(index_of(&mut world, a), 0);
    assert_eq!(index_of(&mut world, b), 1);
    assert_eq!(index_of(&mut world, c), 2);
    world.update();

    world.data.remove_entity(b);
    world.update();
    assert!(!world.data.entities.is_valid(b));

    let d = world.data.create_entity(|_, _: &mut Parts, _: &mut Services| {});
    let e = world.data.create_entity(|_, _: &mut Parts, _: &mut Services| {});
    assert_eq!(index_of(&mut world, d), 1);
    assert_eq!(index_of(&mut world, e), 3);

    let ia = index_of(&mut world, a);
    let ic = index_of(&mut world, c);
    let id = index_of(&mut world, d);
    let ie = index_of(&mut world, e);
    assert!(ia != ic && ia != id && ia != ie && ic != id && ic != ie && id != ie);
}

#[test]
fn lifecycle_ordering() {
    let mut world = conniecs::World::<Counters>::new();
    let e = world.data.create_entity(|b, c: &mut Parts, _: &mut Services| {
        c.foo.add(b, "hello".to_string());
    });
    assert_eq!(world.systems.watched.inner.activations, 0);

    world.update();
    assert_eq!(world.systems.watched.inner.activations, 1);
    assert_eq!(world.systems.watched.inner.seen, vec![e.id()]);
}

#[test]
fn reactivation_transitions() {
    let mut world = conniecs::World::<Counters>::new();
    let e = world.data.create_entity(|b, c: &mut Parts, _: &mut Services| {
        c.foo.add(b, "hello".to_string());
    });
    world.update();
    assert_eq!(world.systems.watched.inner.activations, 1);
    assert_eq!(world.systems.watched.inner.deactivations, 0);

    world.modify_entity(e, |m, c: &mut Parts, _: &mut Services| {
        c.foo.remove(m);
    });
    assert_eq!(world.systems.watched.inner.deactivations, 1);

    world.update();
    assert_eq!(world.systems.watched.inner.seen, Vec::<u64>::new());

    world.modify_entity(e, |m, c: &mut Parts, _: &mut Services| {
        c.foo.set(m, "again".to_string());
    });
    assert_eq!(world.systems.watched.inner.activations, 2);

    world.update();
    assert_eq!(world.systems.watched.inner.seen, vec![e.id()]);
}

#[test]
fn full_wipe() {
    let mut world = conniecs::World::<Counters>::new();
    let a = world.data.create_entity(|b, c: &mut Parts, _: &mut Services| {
        c.foo.add(b, "a".to_string());
    });
    let b = world.data.create_entity(|bd, c: &mut Parts, _: &mut Services| {
        c.foo.add(bd, "b".to_string());
    });
    world.update();
    assert_eq!(world.systems.all.activations, 2);

    world.wipe();
    assert!(!world.data.entities.is_valid(a));
    assert!(!world.data.entities.is_valid(b));
    assert_eq!(world.systems.all.deactivations, 2);
    assert_eq!(world.systems.watched.inner.deactivations, 2);
    assert!(!world.data.components.foo.has_index(0));
    assert!(!world.data.components.foo.has_index(1));
}

#[test]
fn removed_entity_leaves_watched_sets() {
    let mut world = conniecs::World::<Counters>::new();
    let e = world.data.create_entity(|b, c: &mut Parts, _: &mut Services| {
        c.foo.add(b, "x".to_string());
    });
    world.update();
    assert_eq!(world.systems.watched.inner.seen, vec![e.id()]);

    world.data.remove_entity(e);
    world.update();
    assert!(!world.data.entities.is_valid(e));
    assert_eq!(world.systems.watched.inner.seen, Vec::<u64>::new());
    assert_eq!(world.systems.watched.inner.deactivations, 1);
}

#[test]
fn ticker_frame_variant() {
    let mut ticker = TickerState::Frames { interval: 3, ticks: 0 };
    let mut fires = Vec::new();
    for _ in 0..6 {
        fires.push(ticker.tick_at(0));
    }
    assert_eq!(fires, vec![false, false, true, false, false, true]);
}

#[test]
fn ticker_timed_variant() {
    let mut ticker = TickerState::Timed { interval: 100, next_tick: None };

    assert_eq!(ticker.tick_at(1000), false);
    match ticker {
        TickerState::Timed { interval, next_tick } => {
            assert_eq!(interval, 100);
            assert_eq!(next_tick, Some(1100));
        },
        _ => panic!("ticker changed variant"),
    }

    assert_eq!(ticker.tick_at(1099), false);

    assert_eq!(ticker.tick_at(1250), true);
    match ticker {
        TickerState::Timed { next_tick, .. } => assert_eq!(next_tick, Some(1200)),
        _ => panic!("ticker changed variant"),
    }

    assert_eq!(ticker.tick_at(1201), true);
    match ticker {
        TickerState::Timed { next_tick, .. } => assert_eq!(next_tick, Some(1300)),
        _ => panic!("ticker changed variant"),
    }
}

#[test]
fn storage_round_trip_dense() {
    let mut s: conniecs::storage::VecStorage<u32> = ComponentStorage::__new();
    assert!(!s.__contains(5));
    s.__insert(5, 77);
    assert_eq!(s.__get(5), Some(&77));
    s.__remove(5);
    assert!(!s.__contains(5));
    assert!(!s.__contains(9));
}

#[test]
fn storage_round_trip_sparse() {
    let mut s: conniecs::storage::HashStorage<u32> = ComponentStorage::__new();
    assert!(!s.__contains(5));
    s.__insert(5, 77);
    assert_eq!(s.__get(5), Some(&77));
    s.__remove(5);
    assert!(!s.__contains(5));
    assert!(!s.__contains(9));
}

#[test]
fn storage_get_mut_dense() {
    let mut s: conniecs::storage::VecStorage<String> = ComponentStorage::__new();
    s.__insert(2, "ab".to_string());
    s.get_mut(2).unwrap().push_str("cd");
    assert_eq!(s.__get(2).unwrap().as_str(), "abcd");
    assert!(s.get_mut(7).is_none());
}

#[test]
fn interval_parsing_strings() {
    assert!(matches!(
        parse_iv_time("3"),
        Some(TickerState::Frames { interval: 3, ticks: 0 })
    ));
    assert!(matches!(
        parse_iv_time("2s"),
        Some(TickerState::Timed { interval: 2000000000, next_tick: None })
    ));
    assert!(matches!(
        parse_iv_time("500ms"),
        Some(TickerState::Timed { interval: 500000000, next_tick: None })
    ));
    assert!(matches!(
        parse_iv_time("7us"),
        Some(TickerState::Timed { interval: 7000, next_tick: None })
    ));
    assert!(matches!(
        parse_iv_time("9ns"),
        Some(TickerState::Timed { interval: 9, next_tick: None })
    ));
    assert!(parse_iv_time("ms").is_none());
    assert!(parse_iv_time("12q").is_none());
    assert!(parse_iv_time("").is_none());
}

#[test]
fn interval_parsing_explicit() {
    assert!(matches!(
        parse_explicit_iv("ticks", 5),
        Some(TickerState::Frames { interval: 5, ticks: 0 })
    ));
    assert!(matches!(
        parse_explicit_iv("ms", 4),
        Some(TickerState::Timed { interval: 4000000, next_tick: None })
    ));
    assert!(matches!(
        parse_explicit_iv("s", 1),
        Some(TickerState::Timed { interval: 1000000000, next_tick: None })
    ));
    assert!(matches!(
        parse_explicit_iv("ns", 12),
        Some(TickerState::Timed { interval: 12, next_tick: None })
    ));
    assert!(parse_explicit_iv("hours", 1).is_none());

    assert!(matches!(
        parse_interval(&IntervalSpec::Ticks(9)),
        Some(TickerState::Frames { interval: 9, ticks: 0 })
    ));
    assert!(matches!(
        parse_interval(&IntervalSpec::TimeStr("1ms".to_string())),
        Some(TickerState::Timed { interval: 1000000, next_tick: None })
    ));
    assert!(matches!(
        parse_interval(&IntervalSpec::Tagged { unit: "ticks".to_string(), value: 2 }),
        Some(TickerState::Frames { interval: 2, ticks: 0 })
    ));
}

#[test]
fn parse_u64_cases() {
    assert_eq!(parse_u64("123"), Some(123));
    assert_eq!(parse_u64("0"), Some(0));
    assert_eq!(parse_u64("18446744073709551615"), Some(u64::MAX));
    assert_eq!(parse_u64("18446744073709551616"), None);
    assert_eq!(parse_u64(""), None);
    assert_eq!(parse_u64("12a"), None);
}

#[test]
fn coroutine_wake_times() {
    assert!(conniecs::coroutines::should_resume(100, 100));
    assert!(conniecs::coroutines::should_resume(99, 100));
    assert!(!conniecs::coroutines::should_resume(101, 100));
    assert_eq!(conniecs::coroutines::next_wake(50, &CoroAction::Wait(2)), 2000050);
    assert_eq!(conniecs::coroutines::next_wake(u64::MAX - 1, &CoroAction::Wait(1)), u64::MAX);
}

#[test]
fn lazy_system_initialisation() {
    let mut lazy: LazySystem<CountSystem> = System::build_system();
    assert!(!lazy.is_initialized());
    assert_eq!(lazy.init(CountSystem::build_system()), false);
    assert!(lazy.is_initialized());
    assert_eq!(lazy.init(CountSystem::build_system()), true);
    assert_eq!(lazy.init_with(|| CountSystem::build_system()), true);
    assert_eq!(lazy.init_override(CountSystem::build_system()), true);

    let mut fresh: LazySystem<CountSystem> = System::build_system();
    assert_eq!(fresh.init_with(|| CountSystem::build_system()), false);
    assert!(fresh.is_initialized());
}

#[test]
fn aspect_all_none_and_filter() {
    let mut world = conniecs::World::<Counters>::new();
    let e = world.data.create_entity(|b, c: &mut Parts, _: &mut Services| {
        c.foo.add(b, "here".to_string());
    });
    let bare = world.data.create_entity(|_, _: &mut Parts, _: &mut Services| {});
    world.update();

    let every = Aspect::all();
    let nothing = Aspect::none();
    let needs_foo = Aspect::new(vec![FOO], vec![]);
    let shuns_foo = Aspect::new(vec![], vec![FOO]);

    let checks = world
        .data
        .with_entity_data(e, |d, c, _| {
            (every.check(d, c), nothing.check(d, c), needs_foo.check(d, c), shuns_foo.check(d, c))
        })
        .unwrap();
    assert_eq!(checks, (true, false, true, false));

    let checks = world
        .data
        .with_entity_data(bare, |d, c, _| {
            (every.check(d, c), nothing.check(d, c), needs_foo.check(d, c), shuns_foo.check(d, c))
        })
        .unwrap();
    assert_eq!(checks, (true, false, false, true));
}

#[test]
fn watcher_tracks_membership() {
    let mut watcher = Watcher::new(Aspect::new(vec![FOO], vec![]));
    let mut iter = watcher.iter();
    assert!(iter.next().is_none());

    let mut world = conniecs::World::<Counters>::new();
    let e = world.data.create_entity(|b, c: &mut Parts, _: &mut Services| {
        c.foo.add(b, "watched".to_string());
    });
    world.update();

    let mut inner = CountAll::build_system();
    world.data.with_entity_data(e, |d, c, s| {
        watcher.activated(d, c, s, &mut inner);
    });
    assert_eq!(inner.activations, 1);
    let mut iter = watcher.iter();
    let first = iter.next().unwrap();
    assert_eq!(first.id(), e.id());
    assert!(iter.next().is_none());

    world.data.with_entity_data(e, |d, c, s| {
        watcher.deactivated(d, c, s, &mut inner);
    });
    assert_eq!(inner.deactivations, 1);
    let mut iter = watcher.iter();
    assert!(iter.next().is_none());
}

#[test]
fn filtered_iteration() {
    let mut world = conniecs::World::<Counters>::new();
    let with_foo = world.data.create_entity(|b, c: &mut Parts, _: &mut Services| {
        c.foo.add(b, "yes".to_string());
    });
    let _bare = world.data.create_entity(|_, _: &mut Parts, _: &mut Services| {});
    world.update();

    let iter = world.data.entities();
    let mut filtered = iter.filter(Aspect::new(vec![FOO], vec![]), &world.data.components);
    let first = filtered.next().unwrap();
    assert_eq!(first.id(), with_foo.id());
    assert!(filtered.next().is_none());

    let iter = world.data.entities();
    let mut none = iter.filter(Aspect::none(), &world.data.components);
    assert!(none.next().is_none());
}

#[test]
fn timed_ticker_never_fires_first() {
    let mut ticker = TickerState::Timed { interval: 1, next_tick: None };
    assert_eq!(ticker.tick(), false);
}

#[test]
fn remove_of_invalid_entity_reports_false() {
    let mut world = conniecs::World::<Counters>::new();
    let e = world.data.create_entity(|_, _: &mut Parts, _: &mut Services| {});
    world.update();
    assert_eq!(world.data.remove_entity(e), true);
    world.update();
    assert_eq!(world.data.remove_entity(e), false);
    assert_eq!(world.data.remove_entity(conniecs::Entity::nil()), false);
}

#[test]
fn entity_identity_basics() {
    let nil = conniecs::Entity::nil();
    assert_eq!(nil.id(), 0);
    assert_eq!(conniecs::Entity::default(), nil);

    let mut world = conniecs::World::<Counters>::new();
    let a = world.data.create_entity(|_, _: &mut Parts, _: &mut Services| {});
    let b = world.data.create_entity(|_, _: &mut Parts, _: &mut Services| {});
    assert_eq!(a.id(), 1);
    assert_eq!(b.id(), 2);
    world.update();
    world.data.remove_entity(a);
    world.update();
    let c = world.data.create_entity(|_, _: &mut Parts, _: &mut Services| {});
    assert_eq!(c.id(), 3);
    assert!(a.id() != c.id());
}
