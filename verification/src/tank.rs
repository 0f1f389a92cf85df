//! A tank of deuterium.

use crate::component::{at_most, supplies_within, Component};
use crate::resources::{GameTime, Resources};
use crate::scalar::{min, minus, negated, spec_min, spec_minus, spec_negated};
use crate::text::{append_scalar, scalar_text};
use vstd::prelude::*;

verus! {

/// A tank. It gives deuterium as long as it holds any and is never filled.
#[derive(PartialEq, Eq, Copy, Clone, Debug, Structural)]
pub struct DeuteriumTank {
    pub storage: i64,
}

impl DeuteriumTank {
    /// The deuterium that leaves when `deficit` of it is missing: what is
    /// missing, as far as the storage goes.
    pub open spec fn draw(&self, deficit: i64) -> i64 {
        spec_min(spec_negated(deficit), self.storage)
    }

    /// A tank that holds `storage`.
    pub fn new(storage: i64) -> (tank: DeuteriumTank)
        ensures
            tank.storage == storage,
    {
        DeuteriumTank { storage }
    }
}

impl Component for DeuteriumTank {
    open spec fn wf(&self) -> bool {
        self.storage >= 0
    }

    open spec fn potential_supply(&self, time: GameTime) -> Resources {
        Resources { electricity: 0, heat: 0, deuterium: self.storage }
    }

    open spec fn supply(&self, resources: Resources, time: GameTime) -> Resources {
        if resources.deuterium < 0 {
            Resources { electricity: 0, heat: 0, deuterium: self.draw(resources.deuterium) }
        } else {
            Resources::zero()
        }
    }

    open spec fn after_supply(&self, resources: Resources, time: GameTime) -> Self {
        if resources.deuterium < 0 {
            DeuteriumTank { storage: spec_minus(self.storage, self.draw(resources.deuterium)) }
        } else {
            *self
        }
    }

    open spec fn status_text(&self) -> Seq<char> {
        "available deuterium: "@ + scalar_text(self.storage) + "g"@
    }

    fn get_fixed_processing(&mut self, _time: &GameTime) -> (output: Resources) {
        Resources::default()
    }

    fn get_potential_supply(&self, _time: &GameTime) -> (output: Resources) {
        Resources { electricity: 0, heat: 0, deuterium: self.storage }
    }

    fn get_potential_consumption(&self, _resources: &Resources, _time: &GameTime) -> (output:
        Resources) {
        Resources::default()
    }

    fn supply_on_demand(&mut self, resources: &Resources, _time: &GameTime) -> (output: Resources) {
        let mut output = Resources::default();
        if resources.deuterium < 0 {
            let delta: i64 = min(negated(resources.deuterium), self.storage);
            self.storage = minus(self.storage, delta);
            output.deuterium = delta;
        }
        output
    }

    fn consume_on_demand(&mut self, _resources: &Resources, _time: &GameTime) -> (output: Resources) {
        Resources::default()
    }

    fn status(&self) -> (text: String) {
        let mut text = String::from_str("available deuterium: ");
        append_scalar(&mut text, self.storage);
        text.append("g");
        text
    }
}

/// A tank that is not overdrawn gives no more than the deficit that it is
/// offered, no more than it said it could, and never holds more afterwards
/// than before.
pub proof fn lemma_tank_supply(t: DeuteriumTank, offered: Resources, time: GameTime)
    requires
        t.wf(),
    ensures
        supplies_within(t.supply(offered, time), offered),
        at_most(t.supply(offered, time), t.potential_supply(time)),
        t.after_supply(offered, time).storage <= t.storage,
{
}

} // verus!
