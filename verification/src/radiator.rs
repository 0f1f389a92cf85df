//! A radiator that sheds heat into its surroundings.

use crate::component::Component;
use crate::resources::{GameTime, Resources};
use crate::scalar::{
    lemma_scaled_nonnegative, minus, negated, plus, scaled, spec_minus, spec_negated, spec_plus,
    spec_scaled, SCALE,
};
use crate::text::{append_scalar, scalar_text};
use vstd::prelude::*;

verus! {

/// The heat that a radiator says it could take up in a tick.
pub const RADIATOR_REACH: i64 = 9_001_000;

/// The largest share of the heat above the surroundings that is shed in one
/// tick.
pub const MAX_VENT: i64 = 500;

/// A radiator. It sheds heat from a ledger that is hotter than the
/// surroundings, as long as what it would shed comes to a thousandth or
/// more. It warms the surroundings by a tenth of what it sheds, and the
/// surroundings cool by a tenth in every tick.
#[derive(PartialEq, Eq, Copy, Clone, Debug, Structural)]
pub struct Radiator {
    pub ambient: i64,
}

impl Radiator {
    /// By how much a ledger that holds `heat` is hotter than the
    /// surroundings.
    pub open spec fn excess(ambient: i64, heat: i64) -> i64 {
        spec_minus(heat, ambient)
    }

    /// Whether the largest share is shed: the excess is no less than that
    /// share of what the surroundings hold. Surroundings that hold no heat
    /// are exceeded beyond any share.
    pub open spec fn capped(ambient: i64, heat: i64) -> bool {
        ambient <= 0 || Radiator::excess(ambient, heat) * SCALE >= MAX_VENT * ambient
    }

    /// The heat that is shed when the ledger holds `heat`: of the excess,
    /// the share that the excess is of what the surroundings hold, at most
    /// the largest share, and nothing if there is no excess. It is worked
    /// out on the exact figures and cut off once.
    pub open spec fn vented(ambient: i64, heat: i64) -> i64 {
        let excess = Radiator::excess(ambient, heat);
        if excess <= 0 {
            0
        } else if Radiator::capped(ambient, heat) {
            spec_scaled(excess, MAX_VENT, SCALE)
        } else {
            spec_scaled(excess, excess, ambient)
        }
    }

    /// A radiator in surroundings without heat.
    pub fn new_component() -> (radiator: Radiator)
        ensures
            radiator == (Radiator { ambient: 0 }),
    {
        Radiator { ambient: 0 }
    }

    fn vent(&self, heat: i64) -> (remove: i64)
        ensures
            remove == Radiator::vented(self.ambient, heat),
    {
        let excess: i64 = minus(heat, self.ambient);
        if excess <= 0 {
            0
        } else if self.ambient <= 0 || (excess as i128) * (SCALE as i128) >= (MAX_VENT as i128) * (
        self.ambient as i128) {
            scaled(excess, MAX_VENT, SCALE)
        } else {
            scaled(excess, excess, self.ambient)
        }
    }
}

/// Heat is shed only from a ledger that is hotter than the surroundings.
/// What is shed is not negative and at most the largest share of the excess.
pub proof fn lemma_vented_bounds(ambient: i64, heat: i64)
    ensures
        heat <= ambient ==> Radiator::vented(ambient, heat) == 0,
        0 <= Radiator::vented(ambient, heat),
        heat > ambient ==> Radiator::vented(ambient, heat) <= spec_scaled(
            Radiator::excess(ambient, heat),
            MAX_VENT,
            SCALE,
        ),
{
    let excess = Radiator::excess(ambient, heat);
    if excess > 0 {
        lemma_scaled_nonnegative(excess, MAX_VENT, SCALE);
        if !Radiator::capped(ambient, heat) {
            lemma_scaled_nonnegative(excess, excess, ambient);
            lemma_vented_exact(ambient, heat);
            let shed = Radiator::vented(ambient, heat);
            assert(2 * excess < ambient);
            assert(2 * shed <= excess) by (nonlinear_arith)
                requires
                    shed * ambient <= excess * excess,
                    2 * excess < ambient,
                    excess > 0,
                    shed >= 0,
            ;
            assert(shed <= (excess * 500) / 1000);
        }
    }
}

/// What is shed is the exact amount with less than one thousandth cut off:
/// below the largest share the square of the excess over what the
/// surroundings hold, and otherwise the largest share of the excess.
pub proof fn lemma_vented_exact(ambient: i64, heat: i64)
    requires
        Radiator::excess(ambient, heat) > 0,
    ensures
        ({
            let excess = Radiator::excess(ambient, heat) as int;
            let shed = Radiator::vented(ambient, heat) as int;
            if Radiator::capped(ambient, heat) {
                shed * SCALE <= excess * MAX_VENT < (shed + 1) * SCALE
            } else {
                shed * ambient <= excess * excess < (shed + 1) * ambient
            }
        }),
{
    let excess = Radiator::excess(ambient, heat) as int;
    if Radiator::capped(ambient, heat) {
        assert(0 <= (excess * 500) / 1000 <= excess);
    } else {
        let square = excess * excess;
        let room = ambient as int;
        assert(2 * excess < room);
        assert(0 <= square && square < excess * room) by (nonlinear_arith)
            requires
                square == excess * excess,
                0 < excess,
                2 * excess < room,
        ;
        let exact = square / room;
        assert(0 <= exact && exact * room <= square && square < (exact + 1) * room && exact
            <= excess) by (nonlinear_arith)
            requires
                exact == square / room,
                0 <= square < excess * room,
                room > 0,
        ;
    }
}

impl Component for Radiator {
    open spec fn wf(&self) -> bool {
        self.ambient >= 0
    }

    open spec fn after_fixed_processing(&self, time: GameTime) -> Self {
        Radiator { ambient: spec_scaled(self.ambient, 9, 10) }
    }

    open spec fn potential_supply(&self, time: GameTime) -> Resources {
        Resources { electricity: 0, heat: RADIATOR_REACH, deuterium: 0 }
    }

    open spec fn consumption(&self, resources: Resources, time: GameTime) -> Resources {
        Resources {
            electricity: 0,
            heat: spec_negated(Radiator::vented(self.ambient, resources.heat)),
            deuterium: 0,
        }
    }

    open spec fn after_consumption(&self, resources: Resources, time: GameTime) -> Self {
        Radiator {
            ambient: spec_plus(
                self.ambient,
                spec_scaled(Radiator::vented(self.ambient, resources.heat), 1, 10),
            ),
        }
    }

    open spec fn status_text(&self) -> Seq<char> {
        "ambient temp: "@ + scalar_text(self.ambient) + "K"@
    }

    fn get_fixed_processing(&mut self, _time: &GameTime) -> (output: Resources) {
        proof {
            if self.ambient >= 0 {
                lemma_scaled_nonnegative(self.ambient, 9, 10);
            }
        }
        self.ambient = scaled(self.ambient, 9, 10);
        Resources::default()
    }

    fn get_potential_supply(&self, _time: &GameTime) -> (output: Resources) {
        Resources { electricity: 0, heat: RADIATOR_REACH, deuterium: 0 }
    }

    fn get_potential_consumption(&self, _resources: &Resources, _time: &GameTime) -> (output:
        Resources) {
        Resources::default()
    }

    fn supply_on_demand(&mut self, _resources: &Resources, _time: &GameTime) -> (output: Resources) {
        Resources::default()
    }

    fn consume_on_demand(&mut self, resources: &Resources, _time: &GameTime) -> (output: Resources) {
        let mut output = Resources::default();
        let remove: i64 = self.vent(resources.heat);
        proof {
            lemma_vented_bounds(self.ambient, resources.heat);
            lemma_scaled_nonnegative(remove, 1, 10);
        }
        if remove > 0 {
            output.heat = negated(remove);
            self.ambient = plus(self.ambient, scaled(remove, 1, 10));
        }
        output
    }

    fn status(&self) -> (text: String) {
        let mut text = String::from_str("ambient temp: ");
        append_scalar(&mut text, self.ambient);
        text.append("K");
        text
    }
}

/// What a radiator in surroundings that hold no less than no heat takes of a
/// ledger. From one that is not hotter it takes nothing and stays as it is.
/// From a hotter one it takes heat alone, at most the largest share of the
/// excess, and nothing only where the exact amount is under one thousandth;
/// the surroundings warm by a tenth of what is taken.
pub proof fn lemma_radiator_consumption(r: Radiator, resources: Resources, time: GameTime)
    requires
        r.wf(),
    ensures
        r.consumption(resources, time).electricity == 0,
        r.consumption(resources, time).deuterium == 0,
        resources.heat <= r.ambient ==> r.consumption(resources, time) == Resources::zero()
            && r.after_consumption(resources, time) == r,
        resources.heat > r.ambient ==> -spec_scaled(
            Radiator::excess(r.ambient, resources.heat),
            MAX_VENT,
            SCALE,
        ) <= r.consumption(resources, time).heat <= 0,
        resources.heat > r.ambient && r.consumption(resources, time).heat == 0 ==> {
            let excess = Radiator::excess(r.ambient, resources.heat) as int;
            if Radiator::capped(r.ambient, resources.heat) {
                excess * MAX_VENT < SCALE
            } else {
                excess * excess < r.ambient
            }
        },
        r.after_consumption(resources, time).ambient == spec_plus(
            r.ambient,
            spec_scaled(spec_negated(r.consumption(resources, time).heat), 1, 10),
        ),
{
    lemma_vented_bounds(r.ambient, resources.heat);
    if resources.heat > r.ambient {
        lemma_vented_exact(r.ambient, resources.heat);
    }
}

} // verus!
