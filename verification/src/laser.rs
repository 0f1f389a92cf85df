//! An actuator that fires when a full shot of power is at hand.

use crate::component::Component;
use crate::resources::{GameTime, Resources};
use crate::scalar::{negated, spec_negated};
use vstd::prelude::*;

verus! {

/// The electricity that one shot takes.
pub const SHOT_POWER: i64 = 500_000;

/// The heat that one shot leaves behind.
pub const SHOT_HEAT: i64 = 5_000;

/// A laser. It fires in every tick in which a whole shot of electricity is
/// available to it, and remembers whether it fired in the last one.
#[derive(PartialEq, Eq, Copy, Clone, Debug, Structural)]
pub struct Laser {
    pub fired: bool,
}

impl Laser {
    /// Whether `resources` holds the electricity for a shot.
    pub open spec fn can_fire(resources: Resources) -> bool {
        resources.electricity >= SHOT_POWER
    }

    /// A laser that has not fired.
    pub fn new_component() -> (laser: Laser)
        ensures
            laser == (Laser { fired: false }),
    {
        Laser { fired: false }
    }
}

impl Component for Laser {
    open spec fn potential_consumption(&self, resources: Resources, time: GameTime) -> Resources {
        if Laser::can_fire(resources) {
            Resources { electricity: negated(SHOT_POWER), heat: 0, deuterium: 0 }
        } else {
            Resources::zero()
        }
    }

    open spec fn consumption(&self, resources: Resources, time: GameTime) -> Resources {
        if Laser::can_fire(resources) {
            Resources { electricity: negated(SHOT_POWER), heat: SHOT_HEAT, deuterium: 0 }
        } else {
            Resources::zero()
        }
    }

    open spec fn after_consumption(&self, resources: Resources, time: GameTime) -> Self {
        Laser { fired: Laser::can_fire(resources) }
    }

    open spec fn status_text(&self) -> Seq<char> {
        if self.fired {
            "laser fired!"@
        } else {
            "laser didn't fire."@
        }
    }

    fn get_fixed_processing(&mut self, _time: &GameTime) -> (output: Resources) {
        Resources::default()
    }

    fn get_potential_supply(&self, _time: &GameTime) -> (output: Resources) {
        Resources::default()
    }

    fn get_potential_consumption(&self, resources: &Resources, _time: &GameTime) -> (output:
        Resources) {
        let mut output = Resources::default();
        if resources.electricity >= SHOT_POWER {
            output.electricity = negated(SHOT_POWER);
        }
        output
    }

    fn supply_on_demand(&mut self, _resources: &Resources, _time: &GameTime) -> (output: Resources) {
        Resources::default()
    }

    fn consume_on_demand(&mut self, resources: &Resources, _time: &GameTime) -> (output: Resources) {
        let mut output = Resources::default();
        if resources.electricity >= SHOT_POWER {
            self.fired = true;
            output.electricity = negated(SHOT_POWER);
            output.heat = SHOT_HEAT;
        } else {
            self.fired = false;
        }
        output
    }

    fn status(&self) -> (text: String) {
        if self.fired {
            String::from_str("laser fired!")
        } else {
            String::from_str("laser didn't fire.")
        }
    }
}

/// A laser that is offered less than a shot does not fire: it asks for
/// nothing, takes nothing and adds no heat, and says so.
pub proof fn lemma_laser_starved(laser: Laser, resources: Resources, time: GameTime)
    requires
        resources.electricity < SHOT_POWER,
    ensures
        laser.potential_consumption(resources, time) == Resources::zero(),
        laser.consumption(resources, time) == Resources::zero(),
        !laser.after_consumption(resources, time).fired,
        laser.after_consumption(resources, time).status_text() == "laser didn't fire."@,
{
}

} // verus!
