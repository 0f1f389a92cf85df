//! A store of electricity that gives and takes at limited rates.

use crate::component::{at_most, supplies_within, Component};
use crate::resources::{GameTime, Resources};
use crate::scalar::{
    lemma_scaled_nonnegative, lemma_scaled_shrinks, min, minus, negated, percent, plus, scaled,
    spec_min, spec_minus, spec_negated, spec_percent, spec_plus, spec_scaled, spec_times, times,
    SCALE,
};
use crate::text::{append_scalar, scalar_text};
use vstd::prelude::*;

verus! {

/// The state of a battery: how much it holds, and how fast it can be charged
/// and discharged in one tick.
#[derive(PartialEq, Eq, Copy, Clone, Debug, Structural)]
pub struct BatteryData {
    pub capacity: i64,
    pub charge_rate: i64,
    pub discharge_rate: i64,
    pub charge_level: i64,
}

impl BatteryData {
    /// Whether the charge lies between nothing and the capacity, and neither
    /// rate is negative.
    pub open spec fn wf(&self) -> bool {
        &&& 0 <= self.charge_level <= self.capacity
        &&& self.charge_rate >= 0
        &&& self.discharge_rate >= 0
    }

    /// Whether the battery is full.
    pub open spec fn spec_is_charged(&self) -> bool {
        self.charge_level >= self.capacity
    }

    /// The state of a battery that holds the fraction `charge` of `capacity`.
    /// It charges at a hundredth of its capacity in a tick and discharges at
    /// a twentieth.
    pub fn new(capacity: i64, charge: i64) -> (data: BatteryData)
        ensures
            data == (BatteryData {
                capacity,
                charge_rate: spec_scaled(capacity, 1, 100),
                discharge_rate: spec_scaled(capacity, 1, 20),
                charge_level: spec_times(charge, capacity),
            }),
            capacity >= 0 && 0 <= charge <= SCALE ==> data.wf(),
    {
        proof {
            if capacity >= 0 && 0 <= charge <= SCALE {
                lemma_scaled_nonnegative(capacity, 1, 100);
                lemma_scaled_nonnegative(capacity, 1, 20);
                lemma_scaled_nonnegative(capacity, charge, SCALE);
                lemma_scaled_shrinks(capacity, charge, SCALE);
                assert(charge * capacity == capacity * charge) by (nonlinear_arith);
            }
        }
        BatteryData {
            capacity,
            charge_rate: scaled(capacity, 1, 100),
            discharge_rate: scaled(capacity, 1, 20),
            charge_level: times(charge, capacity),
        }
    }

    /// The text of `status`: the charge in hundredths of the capacity.
    pub open spec fn status_text(&self) -> Seq<char> {
        "battery at "@ + scalar_text(spec_percent(self.charge_level, self.capacity))
            + "% charge"@
    }

    /// Whether the battery is full.
    #[verifier::when_used_as_spec(spec_is_charged)]
    pub fn is_charged(&self) -> (charged: bool)
        ensures
            charged == self.spec_is_charged(),
    {
        self.charge_level >= self.capacity
    }

    /// A line of text on the charge, for a person to read.
    pub fn status(&self) -> (text: String)
        ensures
            text@ == self.status_text(),
    {
        let mut text = String::from_str("battery at ");
        append_scalar(&mut text, percent(self.charge_level, self.capacity));
        text.append("% charge");
        text
    }
}

/// A battery.
#[derive(PartialEq, Eq, Copy, Clone, Debug, Structural)]
pub struct Battery {
    pub data: BatteryData,
}

impl Battery {
    /// The charge that leaves when `deficit` of electricity is missing: what
    /// is missing, as far as the rate and the charge go.
    pub open spec fn discharge(&self, deficit: i64) -> i64 {
        spec_min(
            spec_min(self.data.discharge_rate, spec_negated(deficit)),
            self.data.charge_level,
        )
    }

    /// The charge that enters when `surplus` of electricity is available:
    /// what is available, as far as the rate goes and there is room.
    pub open spec fn recharge(&self, surplus: i64) -> i64 {
        spec_min(
            spec_min(self.data.charge_rate, surplus),
            spec_minus(self.data.capacity, self.data.charge_level),
        )
    }

    /// The battery with `charge_level` as its charge.
    pub open spec fn with_charge(&self, charge_level: i64) -> Battery {
        Battery {
            data: BatteryData {
                capacity: self.data.capacity,
                charge_rate: self.data.charge_rate,
                discharge_rate: self.data.discharge_rate,
                charge_level,
            },
        }
    }

    /// A battery in the state `data`.
    pub fn new(data: BatteryData) -> (battery: Battery)
        ensures
            battery.data == data,
    {
        Battery { data }
    }
}

impl Component for Battery {
    open spec fn wf(&self) -> bool {
        self.data.wf()
    }

    open spec fn potential_supply(&self, time: GameTime) -> Resources {
        Resources::spec_electric(spec_min(self.data.charge_level, self.data.discharge_rate))
    }

    /// A battery that is not full could take what `consume_on_demand` would
    /// take of the electricity that is available: what is there, as far as
    /// the rate goes and there is room.
    open spec fn potential_consumption(&self, resources: Resources, time: GameTime) -> Resources {
        if !self.data.spec_is_charged() && resources.electricity > 0 {
            Resources::spec_electric(spec_negated(self.recharge(resources.electricity)))
        } else {
            Resources::zero()
        }
    }

    open spec fn supply(&self, resources: Resources, time: GameTime) -> Resources {
        if resources.electricity < 0 {
            Resources::spec_electric(self.discharge(resources.electricity))
        } else {
            Resources::zero()
        }
    }

    open spec fn after_supply(&self, resources: Resources, time: GameTime) -> Self {
        if resources.electricity < 0 {
            self.with_charge(
                spec_minus(self.data.charge_level, self.discharge(resources.electricity)),
            )
        } else {
            *self
        }
    }

    open spec fn consumption(&self, resources: Resources, time: GameTime) -> Resources {
        if resources.electricity > 0 {
            Resources::spec_electric(spec_negated(self.recharge(resources.electricity)))
        } else {
            Resources::zero()
        }
    }

    open spec fn after_consumption(&self, resources: Resources, time: GameTime) -> Self {
        if resources.electricity > 0 {
            self.with_charge(
                spec_plus(self.data.charge_level, self.recharge(resources.electricity)),
            )
        } else {
            *self
        }
    }

    open spec fn status_text(&self) -> Seq<char> {
        self.data.status_text()
    }

    fn get_fixed_processing(&mut self, _time: &GameTime) -> (output: Resources) {
        Resources::default()
    }

    fn get_potential_supply(&self, _time: &GameTime) -> (output: Resources) {
        Resources::electric(min(self.data.charge_level, self.data.discharge_rate))
    }

    fn get_potential_consumption(&self, resources: &Resources, _time: &GameTime) -> (output:
        Resources) {
        let mut output = Resources::default();
        if !self.data.is_charged() && resources.electricity > 0 {
            output.electricity = negated(
                min(
                    min(self.data.charge_rate, resources.electricity),
                    minus(self.data.capacity, self.data.charge_level),
                ),
            );
        }
        output
    }

    fn supply_on_demand(&mut self, resources: &Resources, _time: &GameTime) -> (output: Resources) {
        let mut output = Resources::default();
        if resources.electricity < 0 {
            let charge_amt: i64 = min(
                min(self.data.discharge_rate, negated(resources.electricity)),
                self.data.charge_level,
            );
            output.electricity = charge_amt;
            self.data.charge_level = minus(self.data.charge_level, charge_amt);
        }
        output
    }

    fn consume_on_demand(&mut self, resources: &Resources, _time: &GameTime) -> (output: Resources) {
        let mut output = Resources::default();
        if resources.electricity > 0 {
            let charge_amt: i64 = min(
                min(self.data.charge_rate, resources.electricity),
                minus(self.data.capacity, self.data.charge_level),
            );
            output.electricity = negated(charge_amt);
            self.data.charge_level = plus(self.data.charge_level, charge_amt);
        }
        output
    }

    fn status(&self) -> (text: String) {
        self.data.status()
    }
}

/// A battery within its bounds gives no more than the deficit that it is
/// offered, and no more than it said it could.
pub proof fn lemma_battery_supply(b: Battery, offered: Resources, time: GameTime)
    requires
        b.wf(),
    ensures
        supplies_within(b.supply(offered, time), offered),
        at_most(b.supply(offered, time), b.potential_supply(time)),
{
}

/// A battery within its bounds asks for what it would take of the same
/// ledger: no more than its rate and its room allow, less than nothing
/// whenever it can charge and electricity is there, and nothing once it is
/// full. A full battery takes nothing either and keeps its charge.
pub proof fn lemma_battery_consumption(b: Battery, resources: Resources, time: GameTime)
    requires
        b.wf(),
    ensures
        b.potential_consumption(resources, time) == b.consumption(resources, time),
        b.potential_consumption(resources, time).heat == 0,
        b.potential_consumption(resources, time).deuterium == 0,
        -b.data.charge_rate <= b.potential_consumption(resources, time).electricity <= 0,
        b.data.charge_level - b.data.capacity <= b.potential_consumption(
            resources,
            time,
        ).electricity,
        !b.data.spec_is_charged() && b.data.charge_rate > 0 && resources.electricity > 0
            ==> b.potential_consumption(resources, time).electricity < 0,
        b.data.spec_is_charged() ==> b.potential_consumption(resources, time)
            == Resources::zero() && b.after_consumption(resources, time) == b,
{
}

} // verus!
