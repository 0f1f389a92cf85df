use resource_grid::{
    Battery, BatteryData, Capacitor, Component, ComponentManager, DeuteriumTank, Device,
    FusionReactor, GameTime, Idle, Laser, Radiator, ReactorPhase, Resources,
};

fn tanks(supply: Vec<usize>) -> ComponentManager<Device> {
    let mut manager = ComponentManager::new(supply, vec![0, 1]);
    manager.register(Device::Tank(DeuteriumTank::new(100_000)));
    manager.register(Device::Tank(DeuteriumTank::new(50_000)));
    manager
}

fn within_bounds(device: &Device) -> bool {
    match device {
        Device::Reactor(r) => r.sizing >= 0 && 0 <= r.last_utilization && r.last_utilization <= 1000,
        Device::Capacitor(c) => 0 <= c.charge_level && c.charge_level <= c.capacity,
        Device::Battery(b) => 0 <= b.data.charge_level && b.data.charge_level <= b.data.capacity,
        Device::Radiator(r) => r.ambient >= 0,
        Device::Tank(t) => t.storage >= 0,
        Device::Laser(_) => true,
    }
}

#[test]
fn suppliers_give_what_is_missing_and_no_more() {
    let mut manager = tanks(vec![0, 1]);
    let mut ledger = Resources::new(0, 0, -60_000);
    manager.update(&mut ledger);
    assert_eq!(ledger, Resources::default());
    assert_eq!(manager.components[0], Device::Tank(DeuteriumTank::new(40_000)));
    assert_eq!(manager.components[1], Device::Tank(DeuteriumTank::new(50_000)));
}

#[test]
fn a_later_supplier_is_offered_what_the_earlier_ones_left_open() {
    let mut manager = tanks(vec![1, 0]);
    let mut ledger = Resources::new(0, 0, -60_000);
    manager.update(&mut ledger);
    assert_eq!(ledger, Resources::default());
    assert_eq!(manager.components[0], Device::Tank(DeuteriumTank::new(90_000)));
    assert_eq!(manager.components[1], Device::Tank(DeuteriumTank::new(0)));
}

#[test]
fn suppliers_give_no_more_than_they_have() {
    let mut manager = tanks(vec![1, 0]);
    let mut ledger = Resources::new(0, 0, -200_000);
    manager.update(&mut ledger);
    assert_eq!(ledger, Resources::new(0, 0, -50_000));
    assert_eq!(manager.components[0], Device::Tank(DeuteriumTank::new(0)));
    assert_eq!(manager.components[1], Device::Tank(DeuteriumTank::new(0)));
}

#[test]
fn a_quantity_without_a_deficit_is_not_supplied() {
    let mut manager = ComponentManager::new(vec![0, 1], vec![0, 1]);
    manager.register(Device::Tank(DeuteriumTank::new(100_000)));
    manager.register(Device::Battery(Battery::new(BatteryData::new(200_000, 900))));
    let mut ledger = Resources::new(0, 0, 5000);
    manager.update(&mut ledger);
    assert_eq!(ledger, Resources::new(0, 0, 5000));
    assert_eq!(manager.components[0], Device::Tank(DeuteriumTank::new(100_000)));
    assert_eq!(
        manager.components[1],
        Device::Battery(Battery::new(BatteryData::new(200_000, 900)))
    );
}

#[test]
fn each_quantity_is_supplied_against_its_own_deficit() {
    let mut manager = ComponentManager::new(vec![0, 1], vec![0, 1]);
    manager.register(Device::Tank(DeuteriumTank::new(100_000)));
    manager.register(Device::Battery(Battery::new(BatteryData::new(200_000, 900))));
    let mut ledger = Resources::new(-4000, 0, -60_000);
    manager.update(&mut ledger);
    assert_eq!(ledger, Resources::default());
    assert_eq!(manager.components[0], Device::Tank(DeuteriumTank::new(40_000)));
    match manager.components[1] {
        Device::Battery(battery) => assert_eq!(battery.data.charge_level, 176_000),
        _ => panic!("the second device is the battery"),
    }
}

#[test]
fn a_running_reactor_gives_no_more_electricity_than_is_missing() {
    let build = || {
        let mut manager = ComponentManager::new(vec![0], vec![0]);
        manager.register(Device::Reactor(FusionReactor {
            phase: ReactorPhase::Running { just_started: false },
            sizing: 100_000,
            last_utilization: 0,
        }));
        manager
    };
    let mut ledger = Resources::new(-50_000, 0, 0);
    build().update(&mut ledger);
    assert_eq!(ledger, Resources::new(-490, 247_550, -49));
    let mut ledger = Resources::new(-1001, 0, 0);
    build().update(&mut ledger);
    assert_eq!(ledger, Resources::new(-1, 5000, -1));
    let mut ledger = Resources::new(-3, 0, 0);
    build().update(&mut ledger);
    assert_eq!(ledger, Resources::new(997, 5000, -1));
}

#[test]
fn no_device_gives_more_than_it_said_it_could() {
    let devices = [
        Device::Reactor(FusionReactor {
            phase: ReactorPhase::Running { just_started: false },
            sizing: 100_000,
            last_utilization: 0,
        }),
        Device::Reactor(FusionReactor::new_component(100_000)),
        Device::Capacitor(Capacitor { capacity: 500_000, charge_level: 20_000 }),
        Device::Battery(Battery::new(BatteryData::new(200_000, 900))),
        Device::Battery(Battery::new(BatteryData::new(200_000, 5))),
        Device::Tank(DeuteriumTank::new(100_000)),
        Device::Radiator(Radiator { ambient: 7 }),
        Device::Laser(Laser::new_component()),
    ];
    let balances = [
        Resources::new(-1, -1, -1),
        Resources::new(-5000, 0, -5000),
        Resources::new(-1_000_000, -1_000_000, -1_000_000),
        Resources::new(i64::MIN, i64::MIN, i64::MIN),
        Resources::new(5, 5, 5),
    ];
    for ms in [0, 1, 3, u64::MAX] {
        let time = GameTime::new(ms);
        for device in devices {
            for balance in balances {
                let mut device = device;
                let could = device.get_potential_supply(&time);
                let gave = device.supply_on_demand(&balance, &time);
                assert!(gave.electricity <= could.electricity);
                assert!(gave.heat <= could.heat);
                assert!(gave.deuterium <= could.deuterium);
            }
        }
    }
}

#[test]
fn stocks_stay_within_their_bounds() {
    let mut manager = ComponentManager::new(vec![0, 1, 2, 3, 4, 5], vec![5, 0, 2, 1, 3, 4]);
    manager.register(Device::Reactor(FusionReactor::new_component(100_000)));
    manager.register(Device::Capacitor(Capacitor::new_component(500_000)));
    manager.register(Device::Battery(Battery::new(BatteryData::new(200_000, 900))));
    manager.register(Device::Tank(DeuteriumTank::new(100_000)));
    manager.register(Device::Radiator(Radiator::new_component()));
    manager.register(Device::Laser(Laser::new_component()));
    let mut ledger = Resources::default();
    let mut fuel: i64 = 100_000;
    for _ in 0..500 {
        manager.update(&mut ledger);
        for device in &manager.components {
            assert!(within_bounds(device));
        }
        match manager.components[3] {
            Device::Tank(tank) => {
                assert!(tank.storage <= fuel);
                fuel = tank.storage;
            },
            _ => panic!("the fourth device is the tank"),
        }
    }
}

#[test]
fn idle_components_never_change_the_ledger() {
    let mut manager = ComponentManager::new(vec![2, 0, 1], vec![1, 1, 0]);
    manager.register(Idle);
    manager.register(Idle);
    manager.register(Idle);
    let start = Resources::new(-123_456, i64::MAX, 789);
    let mut ledger = start;
    for _ in 0..100 {
        manager.update(&mut ledger);
        assert_eq!(ledger, start);
    }
    assert_eq!(manager.components, vec![Idle, Idle, Idle]);
    assert_eq!(manager.status(), "{ idle : idle : idle :  }");
}

#[test]
fn a_manager_without_components_never_changes_the_ledger() {
    let mut manager: ComponentManager<Device> = ComponentManager::new(vec![], vec![]);
    let mut ledger = Resources::new(1, 2, 3);
    assert!(manager.ready());
    manager.update(&mut ledger);
    assert_eq!(ledger, Resources::new(1, 2, 3));
    assert_eq!(manager.status(), "{  }");
}

#[test]
fn the_demand_order_decides_who_is_served() {
    let build = |demand: Vec<usize>| {
        let mut manager = ComponentManager::new(vec![0, 1], demand);
        manager.register(Device::Laser(Laser::new_component()));
        manager.register(Device::Capacitor(Capacitor::new_component(1_000_000)));
        manager
    };
    let mut laser_first = build(vec![0, 1]);
    let mut capacitor_first = build(vec![1, 0]);
    let mut one = Resources::new(600_000, 0, 0);
    let mut other = Resources::new(600_000, 0, 0);
    laser_first.update(&mut one);
    capacitor_first.update(&mut other);
    assert_ne!(one, other);
    assert_eq!(one, Resources::new(0, 5000, 0));
    assert_eq!(other, Resources::default());
    assert_eq!(laser_first.status(), "{ laser fired! : capacitor at 10% charge :  }");
    assert_eq!(capacitor_first.status(), "{ laser didn't fire. : capacitor at 60% charge :  }");
}

#[test]
fn the_demand_order_may_show_in_the_components_alone() {
    let build = |demand: Vec<usize>| {
        let mut manager = ComponentManager::new(vec![0, 1], demand);
        manager.register(Laser::new_component());
        manager.register(Laser::new_component());
        manager
    };
    let mut forwards = build(vec![0, 1]);
    let mut backwards = build(vec![1, 0]);
    let mut one = Resources::new(700_000, 0, 0);
    let mut other = Resources::new(700_000, 0, 0);
    forwards.update(&mut one);
    backwards.update(&mut other);
    assert_eq!(one, Resources::new(200_000, 5000, 0));
    assert_eq!(other, one);
    assert_eq!(forwards.status(), "{ laser fired! : laser didn't fire. :  }");
    assert_eq!(backwards.status(), "{ laser didn't fire. : laser fired! :  }");
}
