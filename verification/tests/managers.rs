use resource_grid::{
    Battery, BatteryData, Capacitor, Component, ComponentManager, DeuteriumTank, Device,
    GameTime, Laser, Resources,
};

struct Heater {
    on: bool,
}

impl Component for Heater {
    fn get_fixed_processing(&mut self, _time: &GameTime) -> Resources {
        self.on = !self.on;
        Resources::new(0, if self.on { 1000 } else { 0 }, 0)
    }

    fn get_potential_supply(&self, _time: &GameTime) -> Resources {
        Resources::default()
    }

    fn get_potential_consumption(&self, _resources: &Resources, _time: &GameTime) -> Resources {
        Resources::default()
    }

    fn supply_on_demand(&mut self, _resources: &Resources, _time: &GameTime) -> Resources {
        Resources::default()
    }

    fn consume_on_demand(&mut self, _resources: &Resources, _time: &GameTime) -> Resources {
        Resources::default()
    }

    fn status(&self) -> String {
        String::from(if self.on { "heater on" } else { "heater off" })
    }
}

struct Probe {
    seen: Vec<(u64, Resources)>,
    asks: Resources,
}

impl Component for Probe {
    fn get_fixed_processing(&mut self, time: &GameTime) -> Resources {
        self.seen.push((time.ms, Resources::default()));
        Resources::new(1, 1, 1)
    }

    fn get_potential_supply(&self, _time: &GameTime) -> Resources {
        Resources::new(100, 100, 100)
    }

    fn get_potential_consumption(&self, _resources: &Resources, _time: &GameTime) -> Resources {
        self.asks
    }

    fn supply_on_demand(&mut self, resources: &Resources, time: &GameTime) -> Resources {
        self.seen.push((time.ms, *resources));
        Resources::new(100, 100, 100)
    }

    fn consume_on_demand(&mut self, resources: &Resources, time: &GameTime) -> Resources {
        self.seen.push((time.ms, *resources));
        Resources::new(-1000, -1000, -1000)
    }

    fn status(&self) -> String {
        String::from("probe")
    }
}

#[test]
fn a_new_manager_has_no_components() {
    let manager: ComponentManager<Device> = ComponentManager::new(vec![1, 0], vec![0, 1]);
    assert!(manager.components.is_empty());
    assert_eq!(manager.supply, vec![1, 0]);
    assert_eq!(manager.demand, vec![0, 1]);
    assert!(!manager.ready());
}

#[test]
fn components_are_named_in_the_order_of_their_registration() {
    let mut manager = ComponentManager::new(vec![1, 0], vec![0, 1]);
    assert_eq!(manager.register(Device::Laser(Laser::new_component())), 0);
    assert!(!manager.ready());
    assert_eq!(manager.register(Device::Tank(DeuteriumTank::new(5))), 1);
    assert!(manager.ready());
    assert_eq!(manager.components[0], Device::Laser(Laser { fired: false }));
    assert_eq!(manager.components[1], Device::Tank(DeuteriumTank { storage: 5 }));
    assert_eq!(manager.supply, vec![1, 0]);
    assert_eq!(manager.demand, vec![0, 1]);
    assert_eq!(manager.register(Device::Laser(Laser::new_component())), 2);
    assert!(!manager.ready());
}

#[test]
fn a_manager_is_ready_when_each_order_names_one_component_per_entry() {
    let build = |supply: Vec<usize>, demand: Vec<usize>| {
        let mut manager = ComponentManager::new(supply, demand);
        manager.register(Laser::new_component());
        manager.register(Laser::new_component());
        manager
    };
    assert!(build(vec![0, 1], vec![1, 0]).ready());
    assert!(build(vec![0, 0], vec![1, 1]).ready());
    assert!(!build(vec![0], vec![1, 0]).ready());
    assert!(!build(vec![0, 1], vec![1, 0, 0]).ready());
    assert!(!build(vec![0, 2], vec![1, 0]).ready());
    assert!(!build(vec![0, 1], vec![usize::MAX, 0]).ready());
    assert!(!build(vec![], vec![]).ready());
}

#[test]
fn the_status_of_a_manager_joins_the_status_of_its_components() {
    let mut manager = ComponentManager::new(vec![0, 1], vec![0, 1]);
    assert_eq!(manager.status(), "{  }");
    manager.register(Device::Laser(Laser::new_component()));
    assert_eq!(manager.status(), "{ laser didn't fire. :  }");
    manager.register(Device::Tank(DeuteriumTank::new(1500)));
    assert_eq!(manager.status(), "{ laser didn't fire. : available deuterium: 1.5g :  }");
}

#[test]
fn a_component_of_the_caller_takes_part() {
    let mut manager = ComponentManager::new(vec![0], vec![0]);
    manager.register(Heater { on: false });
    let mut ledger = Resources::default();
    assert!(manager.ready());
    manager.update(&mut ledger);
    assert_eq!(manager.status(), "{ heater on :  }");
    manager.update(&mut ledger);
    manager.update(&mut ledger);
    assert_eq!(ledger, Resources::new(0, 2000, 0));
}

#[test]
fn a_tick_hands_each_pass_what_the_passes_before_it_made() {
    let mut manager = ComponentManager::new(vec![0], vec![0]);
    manager.register(Probe { seen: Vec::new(), asks: Resources::new(-50, -60, -70) });
    let mut ledger = Resources::new(5, 6, 7);
    manager.update(&mut ledger);
    assert_eq!(
        manager.components[0].seen,
        vec![
            (1, Resources::default()),
            (1, Resources::new(-44, -53, -62)),
            (1, Resources::new(106, 107, 108)),
        ]
    );
    assert_eq!(ledger, Resources::new(-894, -893, -892));
}

#[test]
fn a_later_component_is_asked_with_what_the_earlier_ones_left() {
    struct Taker {
        offered: std::cell::Cell<Resources>,
    }
    impl Component for Taker {
        fn get_fixed_processing(&mut self, _time: &GameTime) -> Resources {
            Resources::default()
        }

        fn get_potential_supply(&self, _time: &GameTime) -> Resources {
            Resources::new(1000, 0, 0)
        }

        fn get_potential_consumption(&self, resources: &Resources, _time: &GameTime) -> Resources {
            self.offered.set(*resources);
            Resources::new(-300, 0, 0)
        }

        fn supply_on_demand(&mut self, _resources: &Resources, _time: &GameTime) -> Resources {
            Resources::default()
        }

        fn consume_on_demand(&mut self, _resources: &Resources, _time: &GameTime) -> Resources {
            Resources::default()
        }

        fn status(&self) -> String {
            String::new()
        }
    }
    let taker = || Taker { offered: std::cell::Cell::new(Resources::default()) };
    let mut manager = ComponentManager::new(vec![0, 1, 2], vec![0, 1, 2]);
    manager.register(taker());
    manager.register(taker());
    manager.register(taker());
    let mut ledger = Resources::new(7, 0, 0);
    manager.update(&mut ledger);
    assert_eq!(manager.components[0].offered.get(), Resources::new(3007, 0, 0));
    assert_eq!(manager.components[1].offered.get(), Resources::new(2707, 0, 0));
    assert_eq!(manager.components[2].offered.get(), Resources::new(2407, 0, 0));
    assert_eq!(ledger, Resources::new(7, 0, 0));
}

#[test]
fn a_component_that_is_named_twice_is_served_twice() {
    let build = |demand: Vec<usize>| {
        let mut manager = ComponentManager::new(vec![0, 1], demand);
        manager.register(Device::Battery(Battery::new(BatteryData::new(200_000, 500))));
        manager.register(Device::Capacitor(Capacitor::new_component(10_000)));
        manager
    };
    let mut twice = build(vec![0, 0]);
    let mut ledger = Resources::new(10_000, 0, 0);
    twice.update(&mut ledger);
    assert_eq!(ledger, Resources::new(8000, 0, 0));
    assert_eq!(twice.status(), "{ battery at 51% charge : capacitor at 0% charge :  }");
    let mut once = build(vec![0, 1]);
    let mut ledger = Resources::new(10_000, 0, 0);
    once.update(&mut ledger);
    assert_eq!(ledger, Resources::default());
    assert_eq!(once.status(), "{ battery at 50% charge : capacitor at 100% charge :  }");
    let mut never = build(vec![1, 1]);
    let mut ledger = Resources::new(10_000, 0, 0);
    never.update(&mut ledger);
    assert_eq!(ledger, Resources::new(2000, 0, 0));
    assert_eq!(never.status(), "{ battery at 49% charge : capacitor at 100% charge :  }");
}

#[test]
fn a_supplier_that_is_named_twice_is_asked_twice() {
    let mut manager = ComponentManager::new(vec![1, 1], vec![0, 1]);
    manager.register(Device::Tank(DeuteriumTank::new(100_000)));
    manager.register(Device::Tank(DeuteriumTank::new(50_000)));
    let mut ledger = Resources::new(0, 0, -60_000);
    manager.update(&mut ledger);
    assert_eq!(ledger, Resources::new(0, 0, -10_000));
    assert_eq!(
        manager.status(),
        "{ available deuterium: 100g : available deuterium: 0g :  }"
    );
}

#[test]
fn a_manager_that_is_not_ready_runs_no_tick() {
    let mut manager = ComponentManager::new(vec![0, 1], vec![0]);
    manager.register(Device::Tank(DeuteriumTank::new(100_000)));
    let mut ledger = Resources::new(0, 0, -60_000);
    assert!(!manager.try_update(&mut ledger));
    assert_eq!(ledger, Resources::new(0, 0, -60_000));
    assert_eq!(manager.components, vec![Device::Tank(DeuteriumTank::new(100_000))]);
    assert_eq!(manager.supply, vec![0, 1]);
    assert_eq!(manager.demand, vec![0]);
}

#[test]
fn a_manager_that_is_ready_runs_a_tick() {
    let mut manager = ComponentManager::new(vec![0], vec![0]);
    manager.register(Device::Tank(DeuteriumTank::new(100_000)));
    let mut ledger = Resources::new(0, 0, -60_000);
    assert!(manager.try_update(&mut ledger));
    assert_eq!(ledger, Resources::default());
    assert_eq!(manager.components, vec![Device::Tank(DeuteriumTank::new(40_000))]);
}
