//! The components of this crate as one type, so that a manager can hold any
//! mix of them.

use crate::battery::{lemma_battery_supply, Battery};
use crate::capacitor::{lemma_capacitor_supply, Capacitor};
use crate::component::{at_most, supplies_within, within_deficit, Component};
use crate::laser::Laser;
use crate::radiator::Radiator;
use crate::reactor::{
    lemma_reactor_supply, lemma_reactor_supply_within_potential, FusionReactor,
};
use crate::resources::{GameTime, Quantity, Resources};
use crate::tank::{lemma_tank_supply, DeuteriumTank};
use vstd::prelude::*;

verus! {

/// Any one of the components of this crate. Every request goes to the
/// component inside.
#[derive(PartialEq, Eq, Copy, Clone, Debug, Structural)]
pub enum Device {
    Reactor(FusionReactor),
    Capacitor(Capacitor),
    Battery(Battery),
    Radiator(Radiator),
    Tank(DeuteriumTank),
    Laser(Laser),
}

impl Device {
    /// Whether the device is within its bounds and gives only against a
    /// deficit: any device but a reactor that runs.
    pub open spec fn restrained(&self) -> bool {
        &&& self.wf()
        &&& !(self matches Device::Reactor(r) && r.phase is Running)
    }
}

impl Component for Device {
    open spec fn wf(&self) -> bool {
        match self {
            Device::Reactor(c) => c.wf(),
            Device::Capacitor(c) => c.wf(),
            Device::Battery(c) => c.wf(),
            Device::Radiator(c) => c.wf(),
            Device::Tank(c) => c.wf(),
            Device::Laser(c) => c.wf(),
        }
    }

    open spec fn fixed_processing(&self, time: GameTime) -> Resources {
        match self {
            Device::Reactor(c) => c.fixed_processing(time),
            Device::Capacitor(c) => c.fixed_processing(time),
            Device::Battery(c) => c.fixed_processing(time),
            Device::Radiator(c) => c.fixed_processing(time),
            Device::Tank(c) => c.fixed_processing(time),
            Device::Laser(c) => c.fixed_processing(time),
        }
    }

    open spec fn after_fixed_processing(&self, time: GameTime) -> Self {
        match self {
            Device::Reactor(c) => Device::Reactor(c.after_fixed_processing(time)),
            Device::Capacitor(c) => Device::Capacitor(c.after_fixed_processing(time)),
            Device::Battery(c) => Device::Battery(c.after_fixed_processing(time)),
            Device::Radiator(c) => Device::Radiator(c.after_fixed_processing(time)),
            Device::Tank(c) => Device::Tank(c.after_fixed_processing(time)),
            Device::Laser(c) => Device::Laser(c.after_fixed_processing(time)),
        }
    }

    open spec fn potential_supply(&self, time: GameTime) -> Resources {
        match self {
            Device::Reactor(c) => c.potential_supply(time),
            Device::Capacitor(c) => c.potential_supply(time),
            Device::Battery(c) => c.potential_supply(time),
            Device::Radiator(c) => c.potential_supply(time),
            Device::Tank(c) => c.potential_supply(time),
            Device::Laser(c) => c.potential_supply(time),
        }
    }

    open spec fn potential_consumption(&self, resources: Resources, time: GameTime) -> Resources {
        match self {
            Device::Reactor(c) => c.potential_consumption(resources, time),
            Device::Capacitor(c) => c.potential_consumption(resources, time),
            Device::Battery(c) => c.potential_consumption(resources, time),
            Device::Radiator(c) => c.potential_consumption(resources, time),
            Device::Tank(c) => c.potential_consumption(resources, time),
            Device::Laser(c) => c.potential_consumption(resources, time),
        }
    }

    open spec fn supply(&self, resources: Resources, time: GameTime) -> Resources {
        match self {
            Device::Reactor(c) => c.supply(resources, time),
            Device::Capacitor(c) => c.supply(resources, time),
            Device::Battery(c) => c.supply(resources, time),
            Device::Radiator(c) => c.supply(resources, time),
            Device::Tank(c) => c.supply(resources, time),
            Device::Laser(c) => c.supply(resources, time),
        }
    }

    open spec fn after_supply(&self, resources: Resources, time: GameTime) -> Self {
        match self {
            Device::Reactor(c) => Device::Reactor(c.after_supply(resources, time)),
            Device::Capacitor(c) => Device::Capacitor(c.after_supply(resources, time)),
            Device::Battery(c) => Device::Battery(c.after_supply(resources, time)),
            Device::Radiator(c) => Device::Radiator(c.after_supply(resources, time)),
            Device::Tank(c) => Device::Tank(c.after_supply(resources, time)),
            Device::Laser(c) => Device::Laser(c.after_supply(resources, time)),
        }
    }

    open spec fn consumption(&self, resources: Resources, time: GameTime) -> Resources {
        match self {
            Device::Reactor(c) => c.consumption(resources, time),
            Device::Capacitor(c) => c.consumption(resources, time),
            Device::Battery(c) => c.consumption(resources, time),
            Device::Radiator(c) => c.consumption(resources, time),
            Device::Tank(c) => c.consumption(resources, time),
            Device::Laser(c) => c.consumption(resources, time),
        }
    }

    open spec fn after_consumption(&self, resources: Resources, time: GameTime) -> Self {
        match self {
            Device::Reactor(c) => Device::Reactor(c.after_consumption(resources, time)),
            Device::Capacitor(c) => Device::Capacitor(c.after_consumption(resources, time)),
            Device::Battery(c) => Device::Battery(c.after_consumption(resources, time)),
            Device::Radiator(c) => Device::Radiator(c.after_consumption(resources, time)),
            Device::Tank(c) => Device::Tank(c.after_consumption(resources, time)),
            Device::Laser(c) => Device::Laser(c.after_consumption(resources, time)),
        }
    }

    open spec fn status_text(&self) -> Seq<char> {
        match self {
            Device::Reactor(c) => c.status_text(),
            Device::Capacitor(c) => c.status_text(),
            Device::Battery(c) => c.status_text(),
            Device::Radiator(c) => c.status_text(),
            Device::Tank(c) => c.status_text(),
            Device::Laser(c) => c.status_text(),
        }
    }

    fn get_fixed_processing(&mut self, time: &GameTime) -> (output: Resources) {
        match self {
            Device::Reactor(c) => c.get_fixed_processing(time),
            Device::Capacitor(c) => c.get_fixed_processing(time),
            Device::Battery(c) => c.get_fixed_processing(time),
            Device::Radiator(c) => c.get_fixed_processing(time),
            Device::Tank(c) => c.get_fixed_processing(time),
            Device::Laser(c) => c.get_fixed_processing(time),
        }
    }

    fn get_potential_supply(&self, time: &GameTime) -> (output: Resources) {
        match self {
            Device::Reactor(c) => c.get_potential_supply(time),
            Device::Capacitor(c) => c.get_potential_supply(time),
            Device::Battery(c) => c.get_potential_supply(time),
            Device::Radiator(c) => c.get_potential_supply(time),
            Device::Tank(c) => c.get_potential_supply(time),
            Device::Laser(c) => c.get_potential_supply(time),
        }
    }

    fn get_potential_consumption(&self, resources: &Resources, time: &GameTime) -> (output:
        Resources) {
        match self {
            Device::Reactor(c) => c.get_potential_consumption(resources, time),
            Device::Capacitor(c) => c.get_potential_consumption(resources, time),
            Device::Battery(c) => c.get_potential_consumption(resources, time),
            Device::Radiator(c) => c.get_potential_consumption(resources, time),
            Device::Tank(c) => c.get_potential_consumption(resources, time),
            Device::Laser(c) => c.get_potential_consumption(resources, time),
        }
    }

    fn supply_on_demand(&mut self, resources: &Resources, time: &GameTime) -> (output: Resources) {
        match self {
            Device::Reactor(c) => c.supply_on_demand(resources, time),
            Device::Capacitor(c) => c.supply_on_demand(resources, time),
            Device::Battery(c) => c.supply_on_demand(resources, time),
            Device::Radiator(c) => c.supply_on_demand(resources, time),
            Device::Tank(c) => c.supply_on_demand(resources, time),
            Device::Laser(c) => c.supply_on_demand(resources, time),
        }
    }

    fn consume_on_demand(&mut self, resources: &Resources, time: &GameTime) -> (output: Resources) {
        match self {
            Device::Reactor(c) => c.consume_on_demand(resources, time),
            Device::Capacitor(c) => c.consume_on_demand(resources, time),
            Device::Battery(c) => c.consume_on_demand(resources, time),
            Device::Radiator(c) => c.consume_on_demand(resources, time),
            Device::Tank(c) => c.consume_on_demand(resources, time),
            Device::Laser(c) => c.consume_on_demand(resources, time),
        }
    }

    fn status(&self) -> (text: String) {
        match self {
            Device::Reactor(c) => c.status(),
            Device::Capacitor(c) => c.status(),
            Device::Battery(c) => c.status(),
            Device::Radiator(c) => c.status(),
            Device::Tank(c) => c.status(),
            Device::Laser(c) => c.status(),
        }
    }
}

/// In a tick of at most one millisecond a restrained device gives no more
/// than the deficit that it is offered, and is restrained afterwards.
pub proof fn lemma_device_supply(d: Device, offered: Resources, time: GameTime)
    requires
        d.restrained(),
        time.ms <= 1,
    ensures
        supplies_within(d.supply(offered, time), offered),
        d.after_supply(offered, time).restrained(),
{
    match d {
        Device::Capacitor(c) => {
            lemma_capacitor_supply(c, offered, time);
        },
        Device::Battery(b) => {
            lemma_battery_supply(b, offered, time);
        },
        Device::Tank(t) => {
            lemma_tank_supply(t, offered, time);
        },
        _ => {},
    }
}

/// In a tick of at most one millisecond a device within its bounds gives no
/// more electricity than is missing of it, a running reactor included.
pub proof fn lemma_device_supplies_electricity(d: Device, offered: Resources, time: GameTime)
    requires
        d.wf(),
        time.ms <= 1,
    ensures
        within_deficit(d.supply(offered, time).electricity, offered.electricity),
{
    match d {
        Device::Reactor(r) => {
            lemma_reactor_supply(r, offered, time);
        },
        Device::Capacitor(c) => {
            lemma_capacitor_supply(c, offered, time);
            assert(within_deficit(
                c.supply(offered, time).spec_of(Quantity::Electricity),
                offered.spec_of(Quantity::Electricity),
            ));
        },
        Device::Battery(b) => {
            lemma_battery_supply(b, offered, time);
            assert(within_deficit(
                b.supply(offered, time).spec_of(Quantity::Electricity),
                offered.spec_of(Quantity::Electricity),
            ));
        },
        _ => {},
    }
}

/// A device within its bounds gives no more than it said it could, in any
/// quantity and in a tick of any length.
pub proof fn lemma_device_supply_within_potential(d: Device, offered: Resources, time: GameTime)
    requires
        d.wf(),
    ensures
        at_most(d.supply(offered, time), d.potential_supply(time)),
{
    match d {
        Device::Reactor(r) => {
            lemma_reactor_supply_within_potential(r, offered, time);
        },
        _ => {},
    }
}

} // verus!
