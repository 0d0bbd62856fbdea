use conniecs::storage::{HashStorage, MarkerStorage, VecStorage};
use conniecs::traits::ComponentStorage;

pub struct Components {
    pub pos: VecStorage<[f32; 2]>,
    pub name: HashStorage<String>,
    pub flag: MarkerStorage,
}

impl conniecs::traits::Components for Components {
    fn spec_empty(&self) -> bool {
        true
    }

    fn new() -> Self {
        Components {
            pos: ComponentStorage::__new(),
            name: ComponentStorage::__new(),
            flag: ComponentStorage::__new(),
        }
    }
}

#[test]
fn do_stuff() {
    let mut components: Components = conniecs::traits::Components::new();

    components.flag.__insert(0, ());
    assert_eq!(components.flag.__contains(0), true);
}
