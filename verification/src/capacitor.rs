//! A store of electricity that gives and takes as fast as it is asked.

use crate::component::{at_most, supplies_within, Component};
use crate::resources::{GameTime, Resources};
use crate::scalar::{
    lemma_scaled_nonnegative, min, minus, negated, percent, plus, spec_min, spec_minus,
    spec_negated, spec_percent, spec_plus, spec_times, times, SCALE,
};
use crate::text::{append_scalar, scalar_text};
use vstd::prelude::*;

verus! {

/// A capacitor. Its charge stays between nothing and its capacity.
#[derive(PartialEq, Eq, Copy, Clone, Debug, Structural)]
pub struct Capacitor {
    pub capacity: i64,
    pub charge_level: i64,
}

impl Capacitor {
    /// The charge that leaves when `deficit` of electricity is missing: what
    /// is missing over the length of the tick, as far as the charge goes.
    pub open spec fn discharge(&self, deficit: i64, time: GameTime) -> i64 {
        spec_min(self.charge_level, spec_times(spec_negated(deficit), time.spec_scalar()))
    }

    /// The charge that enters when `surplus` of electricity is available:
    /// what is available over the length of the tick, as far as there is
    /// room.
    pub open spec fn recharge(&self, surplus: i64, time: GameTime) -> i64 {
        spec_min(
            spec_minus(self.capacity, self.charge_level),
            spec_times(surplus, time.spec_scalar()),
        )
    }

    /// An empty capacitor.
    pub fn new_component(capacity: i64) -> (capacitor: Capacitor)
        ensures
            capacitor == (Capacitor { capacity, charge_level: 0 }),
            capacitor.wf() == (capacity >= 0),
    {
        Capacitor { capacity, charge_level: 0 }
    }
}

impl Component for Capacitor {
    open spec fn wf(&self) -> bool {
        0 <= self.charge_level <= self.capacity
    }

    open spec fn potential_supply(&self, time: GameTime) -> Resources {
        Resources::spec_electric(self.charge_level)
    }

    open spec fn potential_consumption(&self, resources: Resources, time: GameTime) -> Resources {
        Resources::spec_electric(spec_negated(spec_minus(self.capacity, self.charge_level)))
    }

    open spec fn supply(&self, resources: Resources, time: GameTime) -> Resources {
        if resources.electricity < 0 {
            Resources::spec_electric(self.discharge(resources.electricity, time))
        } else {
            Resources::zero()
        }
    }

    open spec fn after_supply(&self, resources: Resources, time: GameTime) -> Self {
        if resources.electricity < 0 {
            Capacitor {
                capacity: self.capacity,
                charge_level: spec_minus(
                    self.charge_level,
                    self.discharge(resources.electricity, time),
                ),
            }
        } else {
            *self
        }
    }

    open spec fn consumption(&self, resources: Resources, time: GameTime) -> Resources {
        if resources.electricity > 0 {
            Resources::spec_electric(spec_negated(self.recharge(resources.electricity, time)))
        } else {
            Resources::zero()
        }
    }

    open spec fn after_consumption(&self, resources: Resources, time: GameTime) -> Self {
        if resources.electricity > 0 {
            Capacitor {
                capacity: self.capacity,
                charge_level: spec_plus(
                    self.charge_level,
                    self.recharge(resources.electricity, time),
                ),
            }
        } else {
            *self
        }
    }

    open spec fn status_text(&self) -> Seq<char> {
        "capacitor at "@ + scalar_text(spec_percent(self.charge_level, self.capacity))
            + "% charge"@
    }

    fn get_fixed_processing(&mut self, _time: &GameTime) -> (output: Resources) {
        Resources::default()
    }

    fn get_potential_supply(&self, _time: &GameTime) -> (output: Resources) {
        Resources::electric(self.charge_level)
    }

    fn get_potential_consumption(&self, _resources: &Resources, _time: &GameTime) -> (output:
        Resources) {
        Resources::electric(negated(minus(self.capacity, self.charge_level)))
    }

    fn supply_on_demand(&mut self, resources: &Resources, time: &GameTime) -> (output: Resources) {
        let mut output = Resources::default();
        if resources.electricity < 0 {
            let delta: i64 = min(
                self.charge_level,
                times(negated(resources.electricity), time.scalar()),
            );
            proof {
                lemma_scaled_nonnegative(
                    negated(resources.electricity),
                    time.spec_scalar(),
                    SCALE,
                );
            }
            self.charge_level = minus(self.charge_level, delta);
            output.electricity = delta;
        }
        output
    }

    fn consume_on_demand(&mut self, resources: &Resources, time: &GameTime) -> (output: Resources) {
        let mut output = Resources::default();
        if resources.electricity > 0 {
            let delta: i64 = min(
                minus(self.capacity, self.charge_level),
                times(resources.electricity, time.scalar()),
            );
            proof {
                lemma_scaled_nonnegative(resources.electricity, time.spec_scalar(), SCALE);
            }
            self.charge_level = plus(self.charge_level, delta);
            output.electricity = negated(delta);
        }
        output
    }

    fn status(&self) -> (text: String) {
        let mut text = String::from_str("capacitor at ");
        append_scalar(&mut text, percent(self.charge_level, self.capacity));
        text.append("% charge");
        text
    }
}

/// In a tick of at most one millisecond a capacitor within its bounds gives
/// no more than the deficit that it is offered, and no more than it said it
/// could.
pub proof fn lemma_capacitor_supply(c: Capacitor, offered: Resources, time: GameTime)
    requires
        c.wf(),
        time.ms <= 1,
    ensures
        supplies_within(c.supply(offered, time), offered),
        at_most(c.supply(offered, time), c.potential_supply(time)),
{
    if offered.electricity < 0 {
        let missing = spec_negated(offered.electricity);
        if time.ms == 0 {
            assert(missing * 0 == 0);
        } else {
            assert((missing * 1000) / 1000 == missing);
        }
    }
}

} // verus!
