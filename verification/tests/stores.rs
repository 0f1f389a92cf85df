use resource_grid::{
    Battery, BatteryData, Capacitor, Component, DeuteriumTank, GameTime, Resources,
};

#[test]
fn a_new_capacitor_is_empty() {
    let capacitor = Capacitor::new_component(500_000);
    assert_eq!(capacitor, Capacitor { capacity: 500_000, charge_level: 0 });
    assert_eq!(capacitor.status(), "capacitor at 0% charge");
}

#[test]
fn a_capacitor_offers_its_charge_and_asks_for_its_room() {
    let time = GameTime::new(1);
    let capacitor = Capacitor { capacity: 500_000, charge_level: 20_000 };
    assert_eq!(capacitor.get_potential_supply(&time), Resources::new(20_000, 0, 0));
    assert_eq!(
        capacitor.get_potential_consumption(&Resources::default(), &time),
        Resources::new(-480_000, 0, 0)
    );
    assert_eq!(capacitor.status(), "capacitor at 4% charge");
}

#[test]
fn a_capacitor_gives_what_is_missing_as_far_as_its_charge_goes() {
    let time = GameTime::new(1);
    let mut capacitor = Capacitor { capacity: 500_000, charge_level: 20_000 };
    let out = capacitor.supply_on_demand(&Resources::new(-5000, 0, 0), &time);
    assert_eq!(out, Resources::new(5000, 0, 0));
    assert_eq!(capacitor.charge_level, 15_000);
    let out = capacitor.supply_on_demand(&Resources::new(-100_000, 0, 0), &time);
    assert_eq!(out, Resources::new(15_000, 0, 0));
    assert_eq!(capacitor.charge_level, 0);
    let out = capacitor.supply_on_demand(&Resources::new(-100_000, 0, 0), &time);
    assert_eq!(out, Resources::default());
    assert_eq!(capacitor.charge_level, 0);
}

#[test]
fn a_capacitor_gives_nothing_without_a_deficit() {
    let time = GameTime::new(1);
    let mut capacitor = Capacitor { capacity: 500_000, charge_level: 20_000 };
    let out = capacitor.supply_on_demand(&Resources::new(0, -9, -9), &time);
    assert_eq!(out, Resources::default());
    assert_eq!(capacitor.charge_level, 20_000);
}

#[test]
fn a_capacitor_takes_what_is_there_as_far_as_it_has_room() {
    let time = GameTime::new(1);
    let mut capacitor = Capacitor { capacity: 500_000, charge_level: 0 };
    let out = capacitor.consume_on_demand(&Resources::new(30_000, 0, 0), &time);
    assert_eq!(out, Resources::new(-30_000, 0, 0));
    assert_eq!(capacitor.charge_level, 30_000);
    let out = capacitor.consume_on_demand(&Resources::new(1_000_000_000, 0, 0), &time);
    assert_eq!(out, Resources::new(-470_000, 0, 0));
    assert_eq!(capacitor.charge_level, 500_000);
    assert_eq!(capacitor.status(), "capacitor at 100% charge");
}

#[test]
fn a_full_capacitor_takes_nothing() {
    let time = GameTime::new(1);
    let mut capacitor = Capacitor { capacity: 500_000, charge_level: 500_000 };
    let out = capacitor.consume_on_demand(&Resources::new(1_000_000_000, 0, 0), &time);
    assert_eq!(out, Resources::default());
    assert_eq!(capacitor.charge_level, 500_000);
}

#[test]
fn a_capacitor_takes_nothing_from_an_empty_ledger() {
    let time = GameTime::new(1);
    let mut capacitor = Capacitor { capacity: 500_000, charge_level: 7 };
    assert_eq!(capacitor.consume_on_demand(&Resources::new(-5, 0, 0), &time), Resources::default());
    assert_eq!(capacitor.consume_on_demand(&Resources::new(0, 9, 9), &time), Resources::default());
    assert_eq!(capacitor.charge_level, 7);
}

#[test]
fn a_capacitor_moves_more_in_a_longer_tick_and_nothing_in_none() {
    let mut capacitor = Capacitor { capacity: 500_000, charge_level: 200_000 };
    let long = GameTime::new(3);
    assert_eq!(
        capacitor.supply_on_demand(&Resources::new(-5000, 0, 0), &long),
        Resources::new(15_000, 0, 0)
    );
    assert_eq!(capacitor.charge_level, 185_000);
    assert_eq!(
        capacitor.consume_on_demand(&Resources::new(7000, 0, 0), &long),
        Resources::new(-21_000, 0, 0)
    );
    assert_eq!(capacitor.charge_level, 206_000);
    let none = GameTime::new(0);
    assert_eq!(capacitor.supply_on_demand(&Resources::new(-5000, 0, 0), &none), Resources::default());
    assert_eq!(capacitor.consume_on_demand(&Resources::new(5000, 0, 0), &none), Resources::default());
    assert_eq!(capacitor.charge_level, 206_000);
}

#[test]
fn a_capacitor_without_capacity_shows_no_charge() {
    let time = GameTime::new(1);
    let mut capacitor = Capacitor::new_component(0);
    assert_eq!(capacitor.status(), "capacitor at 0% charge");
    assert_eq!(capacitor.consume_on_demand(&Resources::new(5, 0, 0), &time), Resources::default());
}

#[test]
fn the_largest_capacitor_stays_in_range() {
    let mut capacitor = Capacitor::new_component(i64::MAX);
    let out = capacitor.consume_on_demand(&Resources::new(i64::MAX, 0, 0), &GameTime::new(5));
    assert_eq!(out, Resources::new(-i64::MAX, 0, 0));
    assert_eq!(capacitor.charge_level, i64::MAX);
    let out = capacitor.supply_on_demand(&Resources::new(i64::MIN, 0, 0), &GameTime::new(1));
    assert_eq!(out, Resources::new(i64::MAX, 0, 0));
    assert_eq!(capacitor.charge_level, 0);
}

#[test]
fn a_battery_charges_at_a_hundredth_and_discharges_at_a_twentieth() {
    let data = BatteryData::new(200_000, 900);
    assert_eq!(
        data,
        BatteryData {
            capacity: 200_000,
            charge_rate: 2000,
            discharge_rate: 10_000,
            charge_level: 180_000,
        }
    );
    assert!(!data.is_charged());
    assert_eq!(data.status(), "battery at 90% charge");
    assert_eq!(Battery::new(data).status(), "battery at 90% charge");
}

#[test]
fn the_state_of_a_battery_is_cut_off_to_thousandths() {
    assert_eq!(
        BatteryData::new(333, 333),
        BatteryData { capacity: 333, charge_rate: 3, discharge_rate: 16, charge_level: 110 }
    );
}

#[test]
fn a_battery_is_charged_when_it_holds_its_capacity() {
    assert!(BatteryData::new(200_000, 1000).is_charged());
    assert!(!BatteryData::new(200_000, 999).is_charged());
    assert!(BatteryData::new(0, 500).is_charged());
    assert!(BatteryData { capacity: 5, charge_rate: 0, discharge_rate: 0, charge_level: 6 }
        .is_charged());
}

#[test]
fn a_battery_offers_its_charge_up_to_its_rate() {
    let time = GameTime::new(1);
    assert_eq!(
        Battery::new(BatteryData::new(200_000, 900)).get_potential_supply(&time),
        Resources::new(10_000, 0, 0)
    );
    assert_eq!(
        Battery::new(BatteryData::new(200_000, 5)).get_potential_supply(&time),
        Resources::new(1000, 0, 0)
    );
    assert_eq!(
        Battery::new(BatteryData::new(200_000, 0)).get_potential_supply(&time),
        Resources::default()
    );
}

#[test]
fn a_battery_asks_for_what_it_could_take() {
    let time = GameTime::new(1);
    let battery = Battery::new(BatteryData::new(200_000, 900));
    assert_eq!(
        battery.get_potential_consumption(&Resources::new(1_000_000, 0, 0), &time),
        Resources::new(-2000, 0, 0)
    );
    assert_eq!(
        battery.get_potential_consumption(&Resources::new(1000, 5, 5), &time),
        Resources::new(-1000, 0, 0)
    );
    assert_eq!(
        Battery::new(BatteryData::new(200_000, 995))
            .get_potential_consumption(&Resources::new(1_000_000, 0, 0), &time),
        Resources::new(-1000, 0, 0)
    );
    assert_eq!(
        Battery::new(BatteryData::new(200_000, 0))
            .get_potential_consumption(&Resources::new(1_000_000, 0, 0), &time),
        Resources::new(-2000, 0, 0)
    );
    assert_eq!(battery, Battery::new(BatteryData::new(200_000, 900)));
}

#[test]
fn a_battery_asks_for_nothing_when_nothing_is_there() {
    let time = GameTime::new(1);
    let battery = Battery::new(BatteryData::new(200_000, 900));
    assert_eq!(
        battery.get_potential_consumption(&Resources::new(0, 9, 9), &time),
        Resources::default()
    );
    assert_eq!(
        battery.get_potential_consumption(&Resources::new(-1_000_000_000, 0, 0), &time),
        Resources::default()
    );
}

#[test]
fn a_battery_asks_for_what_it_then_takes() {
    let time = GameTime::new(1);
    for charge in [0, 500, 900, 995, 999, 1000] {
        for available in [-5, 0, 1, 1000, 2000, 2001, 1_000_000] {
            let mut battery = Battery::new(BatteryData::new(200_000, charge));
            let ledger = Resources::new(available, 0, 0);
            let asked = battery.get_potential_consumption(&ledger, &time);
            let taken = battery.consume_on_demand(&ledger, &time);
            assert_eq!(asked, taken);
        }
    }
}

#[test]
fn a_battery_gives_what_is_missing_up_to_its_rate_and_its_charge() {
    let time = GameTime::new(1);
    let mut battery = Battery::new(BatteryData::new(200_000, 900));
    assert_eq!(
        battery.supply_on_demand(&Resources::new(-3000, 0, 0), &time),
        Resources::new(3000, 0, 0)
    );
    assert_eq!(battery.data.charge_level, 177_000);
    assert_eq!(
        battery.supply_on_demand(&Resources::new(-50_000, 0, 0), &time),
        Resources::new(10_000, 0, 0)
    );
    assert_eq!(battery.data.charge_level, 167_000);
    assert_eq!(
        battery.supply_on_demand(&Resources::new(0, 5, -5), &time),
        Resources::default()
    );
    assert_eq!(battery.data.charge_level, 167_000);
    let mut low = Battery::new(BatteryData::new(200_000, 5));
    assert_eq!(low.supply_on_demand(&Resources::new(-50_000, 0, 0), &time), Resources::new(1000, 0, 0));
    assert_eq!(low.data.charge_level, 0);
    assert_eq!(low.supply_on_demand(&Resources::new(-50_000, 0, 0), &time), Resources::default());
    assert_eq!(low.status(), "battery at 0% charge");
}

#[test]
fn a_battery_takes_what_is_there_up_to_its_rate_and_its_room() {
    let time = GameTime::new(1);
    let mut battery = Battery::new(BatteryData::new(200_000, 800));
    assert_eq!(
        battery.consume_on_demand(&Resources::new(1000, 0, 0), &time),
        Resources::new(-1000, 0, 0)
    );
    assert_eq!(battery.data.charge_level, 161_000);
    assert_eq!(
        battery.consume_on_demand(&Resources::new(50_000, 0, 0), &time),
        Resources::new(-2000, 0, 0)
    );
    assert_eq!(battery.data.charge_level, 163_000);
    assert_eq!(battery.consume_on_demand(&Resources::new(0, 9, 9), &time), Resources::default());
    assert_eq!(battery.consume_on_demand(&Resources::new(-9, 9, 9), &time), Resources::default());
    let mut nearly = Battery::new(BatteryData::new(200_000, 995));
    assert_eq!(
        nearly.consume_on_demand(&Resources::new(50_000, 0, 0), &time),
        Resources::new(-1000, 0, 0)
    );
    assert_eq!(nearly.data.charge_level, 200_000);
    assert!(nearly.data.is_charged());
}

#[test]
fn battery_saturation() {
    let time = GameTime::new(1);
    let mut battery = Battery::new(BatteryData::new(200_000, 1000));
    assert!(battery.data.is_charged());
    assert_eq!(
        battery.get_potential_consumption(&Resources::new(1_000_000_000, 0, 0), &time),
        Resources::default()
    );
    let out = battery.consume_on_demand(&Resources::new(1_000_000_000, 0, 0), &time);
    assert_eq!(out, Resources::default());
    assert_eq!(battery.data.charge_level, 200_000);
    assert_eq!(battery.status(), "battery at 100% charge");
}

#[test]
fn a_battery_without_capacity_shows_no_charge() {
    assert_eq!(Battery::new(BatteryData::new(0, 500)).status(), "battery at 0% charge");
}

#[test]
fn a_tank_offers_all_it_holds() {
    let time = GameTime::new(1);
    let tank = DeuteriumTank::new(100_000);
    assert_eq!(tank.storage, 100_000);
    assert_eq!(tank.get_potential_supply(&time), Resources::new(0, 0, 100_000));
    assert_eq!(
        tank.get_potential_consumption(&Resources::new(9, 9, 9), &time),
        Resources::default()
    );
    assert_eq!(DeuteriumTank::new(86_317).status(), "available deuterium: 86.317g");
}

#[test]
fn a_tank_gives_what_is_missing_as_far_as_it_holds_any() {
    let time = GameTime::new(1);
    let mut tank = DeuteriumTank::new(100_000);
    assert_eq!(
        tank.supply_on_demand(&Resources::new(0, 0, -10_000), &time),
        Resources::new(0, 0, 10_000)
    );
    assert_eq!(tank.storage, 90_000);
    assert_eq!(
        tank.supply_on_demand(&Resources::new(0, 0, -1_000_000_000), &time),
        Resources::new(0, 0, 90_000)
    );
    assert_eq!(tank.storage, 0);
    assert_eq!(tank.supply_on_demand(&Resources::new(0, 0, -5), &time), Resources::default());
    assert_eq!(tank.storage, 0);
    assert_eq!(tank.status(), "available deuterium: 0g");
}

#[test]
fn a_tank_gives_nothing_without_a_deficit_of_deuterium() {
    let time = GameTime::new(1);
    let mut tank = DeuteriumTank::new(100_000);
    assert_eq!(tank.supply_on_demand(&Resources::new(-5, -5, 0), &time), Resources::default());
    assert_eq!(tank.supply_on_demand(&Resources::new(0, 0, 7), &time), Resources::default());
    assert_eq!(tank.consume_on_demand(&Resources::new(9, 9, 9), &time), Resources::default());
    assert_eq!(tank.get_fixed_processing(&time), Resources::default());
    assert_eq!(tank.storage, 100_000);
}
