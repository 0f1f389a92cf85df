//! A fusion reactor that has to be started with power before it gives any.

use crate::component::{at_most, within_deficit, Component};
use crate::resources::{GameTime, Resources};
use crate::scalar::{
    lemma_scaled_monotone, lemma_scaled_nonnegative, lemma_scaled_shrinks, min, negated, ratio,
    scaled, spec_min, spec_negated, spec_ratio, spec_scaled, spec_times, times, SCALE,
};
use crate::text::{append_scalar, scalar_text};
use vstd::prelude::*;

verus! {

/// The load that a running reactor carries for itself in every tick.
pub const IDLE_LOAD: i64 = 10;

/// Whether the reactor runs.
#[derive(PartialEq, Eq, Copy, Clone, Debug, Structural)]
pub enum ReactorPhase {
    Stopped,
    /// The reactor runs. `just_started` holds from the moment it was started
    /// until it first carries a load.
    Running { just_started: bool },
}

/// A reactor of a given size.
///
/// A stopped reactor gives nothing. It starts when it is offered a fifth of
/// its size in electricity, and pays for the start in electricity and
/// deuterium. A running reactor turns deuterium into electricity and heat,
/// more or less of it as its load goes, and up to its size in every
/// millisecond; it is never stopped again.
#[derive(PartialEq, Eq, Copy, Clone, Debug, Structural)]
pub struct FusionReactor {
    pub phase: ReactorPhase,
    pub sizing: i64,
    /// The load of the last request that set one, as a fraction.
    pub last_utilization: i64,
}

impl FusionReactor {
    /// The electricity that it takes to start a reactor of size `sizing`.
    pub open spec fn start_power(sizing: i64) -> i64 {
        spec_scaled(sizing, 1, 5)
    }

    /// What a start reports: the power and the deuterium that it takes, and
    /// the heat that it makes.
    pub open spec fn start_cost(sizing: i64) -> Resources {
        Resources {
            electricity: spec_negated(FusionReactor::start_power(sizing)),
            heat: spec_scaled(sizing, 10, 1),
            deuterium: spec_negated(spec_scaled(sizing, 1, 10)),
        }
    }

    /// What a reactor puts out with `power` of electricity: five times as
    /// much heat, and deuterium used up at a thousandth of it.
    pub open spec fn output_at(power: i64) -> Resources {
        Resources {
            electricity: power,
            heat: spec_scaled(power, 5, 1),
            deuterium: spec_negated(spec_scaled(power, 1, 1000)),
        }
    }

    /// What a reactor of size `sizing` puts out in a tick under the load
    /// `load`: electricity in proportion to the load and to its size.
    pub open spec fn load_output(sizing: i64, load: i64, time: GameTime) -> Resources {
        FusionReactor::output_at(spec_times(spec_times(load, sizing), time.spec_scalar()))
    }

    /// The electricity that a reactor of size `sizing` gives in a tick under
    /// its full load.
    pub open spec fn full_power(sizing: i64, time: GameTime) -> i64 {
        spec_times(sizing, time.spec_scalar())
    }

    /// The electricity that a reactor of size `sizing` gives in a tick
    /// towards a demand: the demand over the length of the tick, at most its
    /// size, for as long as the tick is. A reactor without a size gives
    /// none.
    pub open spec fn demand_power(sizing: i64, demand: i64, time: GameTime) -> i64 {
        if sizing > 0 {
            spec_times(
                spec_min(sizing, spec_times(demand, time.spec_scalar())),
                time.spec_scalar(),
            )
        } else {
            0
        }
    }

    /// The load under which a reactor of size `sizing` meets a demand for
    /// electricity, in thousandths and at most the full load. A reactor
    /// without a size carries no load.
    pub open spec fn demand_load(sizing: i64, demand: i64, time: GameTime) -> i64 {
        if sizing > 0 {
            spec_min(SCALE, spec_times(spec_ratio(demand, sizing), time.spec_scalar()))
        } else {
            0
        }
    }

    /// The part of a deficit that a running reactor sets out to meet.
    pub open spec fn demand_for(deficit: i64) -> i64 {
        spec_scaled(spec_negated(deficit), 99, 100)
    }

    /// The reactor as it is once it has carried the load `load`.
    pub open spec fn loaded(&self, load: i64) -> FusionReactor {
        FusionReactor {
            phase: match self.phase {
                ReactorPhase::Stopped => ReactorPhase::Stopped,
                ReactorPhase::Running { .. } => ReactorPhase::Running { just_started: false },
            },
            sizing: self.sizing,
            last_utilization: load,
        }
    }

    /// A stopped reactor of size `size`.
    pub fn new_component(size: i64) -> (reactor: FusionReactor)
        ensures
            reactor == (FusionReactor {
                phase: ReactorPhase::Stopped,
                sizing: size,
                last_utilization: 0,
            }),
            reactor.wf() == (size >= 0),
    {
        FusionReactor { phase: ReactorPhase::Stopped, sizing: size, last_utilization: 0 }
    }

    /// Whether the reactor runs.
    pub fn is_running(&self) -> (running: bool)
        ensures
            running == (self.phase is Running),
    {
        match self.phase {
            ReactorPhase::Stopped => false,
            ReactorPhase::Running { .. } => true,
        }
    }

    fn output_of(power: i64) -> (output: Resources)
        ensures
            output == FusionReactor::output_at(power),
    {
        Resources {
            electricity: power,
            heat: scaled(power, 5, 1),
            deuterium: negated(scaled(power, 1, 1000)),
        }
    }

    fn set_load(&mut self, load: i64)
        ensures
            *final(self) == old(self).loaded(load),
    {
        self.last_utilization = load;
        match self.phase {
            ReactorPhase::Stopped => {},
            ReactorPhase::Running { .. } => {
                self.phase = ReactorPhase::Running { just_started: false };
            },
        }
    }

    fn compute_load_level(&mut self, load: i64, time: &GameTime) -> (output: Resources)
        ensures
            output == FusionReactor::load_output(old(self).sizing, load, *time),
            *final(self) == old(self).loaded(load),
    {
        self.set_load(load);
        FusionReactor::output_of(times(times(load, self.sizing), time.scalar()))
    }

    fn compute_demand_level(&mut self, demand: i64, time: &GameTime) -> (output: Resources)
        ensures
            output == FusionReactor::output_at(
                FusionReactor::demand_power(old(self).sizing, demand, *time),
            ),
            *final(self) == old(self).loaded(
                FusionReactor::demand_load(old(self).sizing, demand, *time),
            ),
    {
        if self.sizing > 0 {
            let load: i64 = min(SCALE, times(ratio(demand, self.sizing), time.scalar()));
            self.set_load(load);
            let wanted: i64 = times(demand, time.scalar());
            FusionReactor::output_of(times(min(self.sizing, wanted), time.scalar()))
        } else {
            self.set_load(0);
            FusionReactor::output_of(0)
        }
    }
}

/// The load that meets a demand is a fraction between nothing and all, as
/// long as the demand is not negative.
pub proof fn lemma_demand_load_is_fraction(sizing: i64, demand: i64, time: GameTime)
    requires
        demand >= 0,
    ensures
        0 <= FusionReactor::demand_load(sizing, demand, time) <= SCALE,
{
    if sizing > 0 {
        let share = spec_ratio(demand, sizing);
        assert(demand * 1000 >= 0);
        assert((demand * 1000) / (sizing as int) >= 0) by (nonlinear_arith)
            requires
                demand * 1000 >= 0,
                sizing > 0,
        ;
        assert(share >= 0);
        let span = time.spec_scalar();
        assert(span >= 0);
        assert(share * span >= 0) by (nonlinear_arith)
            requires
                share >= 0,
                span >= 0,
        ;
        assert((share * span) / 1000 >= 0);
    }
}

impl Component for FusionReactor {
    open spec fn wf(&self) -> bool {
        &&& self.sizing >= 0
        &&& 0 <= self.last_utilization <= SCALE
    }

    open spec fn fixed_processing(&self, time: GameTime) -> Resources {
        match self.phase {
            ReactorPhase::Running { .. } => FusionReactor::load_output(self.sizing, IDLE_LOAD, time),
            ReactorPhase::Stopped => Resources::zero(),
        }
    }

    open spec fn after_fixed_processing(&self, time: GameTime) -> Self {
        match self.phase {
            ReactorPhase::Running { .. } => self.loaded(IDLE_LOAD),
            ReactorPhase::Stopped => *self,
        }
    }

    /// A running reactor could give what it gives under its full load. The
    /// deuterium that this would use up is not part of what it offers.
    open spec fn potential_supply(&self, time: GameTime) -> Resources {
        match self.phase {
            ReactorPhase::Running { .. } => Resources {
                electricity: FusionReactor::full_power(self.sizing, time),
                heat: spec_scaled(FusionReactor::full_power(self.sizing, time), 5, 1),
                deuterium: 0,
            },
            ReactorPhase::Stopped => Resources::zero(),
        }
    }

    open spec fn potential_consumption(&self, resources: Resources, time: GameTime) -> Resources {
        match self.phase {
            ReactorPhase::Running { .. } => Resources {
                electricity: 0,
                heat: spec_scaled(self.sizing, 5, 1),
                deuterium: spec_min(
                    resources.deuterium,
                    spec_negated(spec_scaled(self.sizing, 1, 1000)),
                ),
            },
            ReactorPhase::Stopped => {
                let cost = FusionReactor::start_cost(self.sizing);
                Resources {
                    electricity: spec_min(resources.electricity, cost.electricity),
                    heat: cost.heat,
                    deuterium: spec_min(resources.deuterium, cost.deuterium),
                }
            },
        }
    }

    open spec fn supply(&self, resources: Resources, time: GameTime) -> Resources {
        if self.phase is Running && resources.electricity < 0 {
            FusionReactor::output_at(
                FusionReactor::demand_power(
                    self.sizing,
                    FusionReactor::demand_for(resources.electricity),
                    time,
                ),
            )
        } else {
            Resources::zero()
        }
    }

    open spec fn after_supply(&self, resources: Resources, time: GameTime) -> Self {
        if self.phase is Running && resources.electricity < 0 {
            self.loaded(
                FusionReactor::demand_load(
                    self.sizing,
                    FusionReactor::demand_for(resources.electricity),
                    time,
                ),
            )
        } else {
            *self
        }
    }

    open spec fn consumption(&self, resources: Resources, time: GameTime) -> Resources {
        if self.phase is Stopped && resources.electricity >= FusionReactor::start_power(
            self.sizing,
        ) {
            FusionReactor::start_cost(self.sizing)
        } else {
            Resources::zero()
        }
    }

    open spec fn after_consumption(&self, resources: Resources, time: GameTime) -> Self {
        if self.phase is Stopped && resources.electricity >= FusionReactor::start_power(
            self.sizing,
        ) {
            FusionReactor {
                phase: ReactorPhase::Running { just_started: true },
                sizing: self.sizing,
                last_utilization: 0,
            }
        } else {
            *self
        }
    }

    open spec fn status_text(&self) -> Seq<char> {
        match self.phase {
            ReactorPhase::Stopped => "Reactor stopped."@,
            ReactorPhase::Running { just_started: true } => "Reactor started!"@,
            ReactorPhase::Running { just_started: false } => "Reactor running at "@ + scalar_text(
                spec_scaled(self.last_utilization, 100, 1),
            ) + "%"@,
        }
    }

    fn get_fixed_processing(&mut self, time: &GameTime) -> (output: Resources) {
        match self.phase {
            ReactorPhase::Running { .. } => self.compute_load_level(IDLE_LOAD, time),
            ReactorPhase::Stopped => Resources::default(),
        }
    }

    fn get_potential_supply(&self, time: &GameTime) -> (output: Resources) {
        match self.phase {
            ReactorPhase::Running { .. } => {
                let full: i64 = times(self.sizing, time.scalar());
                Resources { electricity: full, heat: scaled(full, 5, 1), deuterium: 0 }
            },
            ReactorPhase::Stopped => Resources::default(),
        }
    }

    fn get_potential_consumption(&self, resources: &Resources, _time: &GameTime) -> (output:
        Resources) {
        match self.phase {
            ReactorPhase::Running { .. } => Resources {
                electricity: 0,
                heat: scaled(self.sizing, 5, 1),
                deuterium: min(resources.deuterium, negated(scaled(self.sizing, 1, 1000))),
            },
            ReactorPhase::Stopped => Resources {
                electricity: min(resources.electricity, negated(scaled(self.sizing, 1, 5))),
                heat: scaled(self.sizing, 10, 1),
                deuterium: min(resources.deuterium, negated(scaled(self.sizing, 1, 10))),
            },
        }
    }

    fn supply_on_demand(&mut self, resources: &Resources, time: &GameTime) -> (output: Resources)
        ensures
            old(self).sizing >= 0 ==> at_most(output, old(self).potential_supply(*time)),
    {
        proof {
            if self.sizing >= 0 {
                lemma_reactor_supply_within_potential(*self, *resources, *time);
            }
        }
        match self.phase {
            ReactorPhase::Running { .. } => {
                if resources.electricity < 0 {
                    let demand: i64 = scaled(negated(resources.electricity), 99, 100);
                    proof {
                        lemma_demand_load_is_fraction(self.sizing, demand, *time);
                    }
                    self.compute_demand_level(demand, time)
                } else {
                    Resources::default()
                }
            },
            ReactorPhase::Stopped => Resources::default(),
        }
    }

    fn consume_on_demand(&mut self, resources: &Resources, _time: &GameTime) -> (output: Resources) {
        match self.phase {
            ReactorPhase::Running { .. } => Resources::default(),
            ReactorPhase::Stopped => {
                if resources.electricity >= scaled(self.sizing, 1, 5) {
                    self.phase = ReactorPhase::Running { just_started: true };
                    self.last_utilization = 0;
                    Resources {
                        electricity: negated(scaled(self.sizing, 1, 5)),
                        heat: scaled(self.sizing, 10, 1),
                        deuterium: negated(scaled(self.sizing, 1, 10)),
                    }
                } else {
                    Resources::default()
                }
            },
        }
    }

    fn status(&self) -> (text: String) {
        match self.phase {
            ReactorPhase::Stopped => String::from_str("Reactor stopped."),
            ReactorPhase::Running { just_started: true } => String::from_str("Reactor started!"),
            ReactorPhase::Running { just_started: false } => {
                let mut text = String::from_str("Reactor running at ");
                append_scalar(&mut text, scaled(self.last_utilization, 100, 1));
                text.append("%");
                text
            },
        }
    }
}

/// A stopped reactor that is offered a fifth of its size in electricity
/// starts, and says that it has.
pub proof fn lemma_reactor_starts(reactor: FusionReactor, resources: Resources, time: GameTime)
    requires
        reactor.phase is Stopped,
        resources.electricity >= FusionReactor::start_power(reactor.sizing),
    ensures
        reactor.consumption(resources, time) == FusionReactor::start_cost(reactor.sizing),
        reactor.after_consumption(resources, time).phase == (ReactorPhase::Running {
            just_started: true,
        }),
        reactor.after_consumption(resources, time).status_text() == "Reactor started!"@,
{
}

/// A stopped reactor that is offered less stays stopped and takes nothing.
pub proof fn lemma_reactor_stays_stopped(
    reactor: FusionReactor,
    resources: Resources,
    time: GameTime,
)
    requires
        reactor.phase is Stopped,
        resources.electricity < FusionReactor::start_power(reactor.sizing),
    ensures
        reactor.consumption(resources, time) == Resources::zero(),
        reactor.after_consumption(resources, time) == reactor,
{
}

/// No request stops a reactor that runs, and none changes its size.
pub proof fn lemma_reactor_keeps_running(
    reactor: FusionReactor,
    resources: Resources,
    time: GameTime,
)
    ensures
        reactor.phase is Running ==> {
            &&& reactor.after_fixed_processing(time).phase is Running
            &&& reactor.after_supply(resources, time).phase is Running
            &&& reactor.after_consumption(resources, time).phase is Running
        },
        reactor.after_fixed_processing(time).sizing == reactor.sizing,
        reactor.after_supply(resources, time).sizing == reactor.sizing,
        reactor.after_consumption(resources, time).sizing == reactor.sizing,
{
}

/// What a reactor gives towards a demand that is not negative: none of it
/// is negative electricity, and it is no more than the reactor gives under
/// its full load.
pub proof fn lemma_demand_power_bounds(sizing: i64, demand: i64, time: GameTime)
    requires
        demand >= 0,
    ensures
        0 <= FusionReactor::demand_power(sizing, demand, time),
        sizing >= 0 ==> FusionReactor::demand_power(sizing, demand, time)
            <= FusionReactor::full_power(sizing, time),
{
    let span = time.spec_scalar();
    if sizing > 0 {
        lemma_scaled_nonnegative(demand, span, SCALE);
        let met = spec_min(sizing, spec_times(demand, span));
        lemma_scaled_nonnegative(met, span, SCALE);
        lemma_scaled_monotone(met, sizing, span, SCALE);
    } else if sizing == 0 {
        assert(sizing * span == 0) by (nonlinear_arith)
            requires
                sizing == 0,
        ;
    }
}

/// A reactor whose size is not negative gives no more than it said it
/// could, in any quantity and in a tick of any length.
pub proof fn lemma_reactor_supply_within_potential(
    reactor: FusionReactor,
    offered: Resources,
    time: GameTime,
)
    requires
        reactor.sizing >= 0,
    ensures
        at_most(reactor.supply(offered, time), reactor.potential_supply(time)),
{
    if reactor.phase is Running && offered.electricity < 0 {
        let demand = FusionReactor::demand_for(offered.electricity);
        lemma_scaled_nonnegative(spec_negated(offered.electricity), 99, 100);
        lemma_demand_power_bounds(reactor.sizing, demand, time);
        let power = FusionReactor::demand_power(reactor.sizing, demand, time);
        let full = FusionReactor::full_power(reactor.sizing, time);
        lemma_scaled_monotone(power, full, 5, 1);
        lemma_scaled_nonnegative(power, 1, 1000);
    } else if reactor.phase is Running {
        let full = FusionReactor::full_power(reactor.sizing, time);
        lemma_scaled_nonnegative(reactor.sizing, time.spec_scalar(), SCALE);
        lemma_scaled_nonnegative(full, 5, 1);
    }
}

/// In a tick of at most one millisecond a reactor gives no more electricity
/// than is missing, and none where none is missing. The heat that it makes
/// and the deuterium that it uses up do not go by what is missing of them.
pub proof fn lemma_reactor_supply(reactor: FusionReactor, offered: Resources, time: GameTime)
    requires
        time.ms <= 1,
    ensures
        within_deficit(reactor.supply(offered, time).electricity, offered.electricity),
{
    let sizing = reactor.sizing;
    if reactor.phase is Running && offered.electricity < 0 {
        let missing = spec_negated(offered.electricity);
        let demand = FusionReactor::demand_for(offered.electricity);
        lemma_scaled_nonnegative(missing, 99, 100);
        lemma_scaled_shrinks(missing, 99, 100);
        lemma_demand_power_bounds(sizing, demand, time);
        if sizing > 0 {
            if time.ms == 0 {
                assert(demand * 0 == 0);
                assert(spec_min(sizing, 0) * 0 == 0);
            } else {
                assert((demand * 1000) / 1000 == demand);
                let met = spec_min(sizing, demand);
                assert((met * 1000) / 1000 == met);
            }
        }
    }
}

} // verus!
