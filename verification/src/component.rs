//! What a participant of the economy can be asked to do in a tick.

use crate::resources::{GameTime, Quantity, Resources};
use vstd::prelude::*;

verus! {

/// A producer or consumer of resources.
///
/// A component answers five requests. Each is described by a model: spec
/// functions that give, for a state and the arguments of the request, the
/// ledger that is reported and, where the request may change the component,
/// the state that it is left in. The methods are held to the model, so a
/// component is a deterministic machine and a tick can be replayed.
///
/// In the model every request has no effect unless the implementation says
/// otherwise: the reported ledger is empty and the state stays as it is. An
/// implementation overrides the model functions of the requests that it
/// takes part in and writes each method to match its model.
///
/// By convention what a component gives is reported as a positive quantity
/// and what it takes as a negative one.
pub trait Component: Sized {
    /// Whether the state is one that the component is meant to be in. For a
    /// component that keeps a stock this bounds the stock.
    open spec fn wf(&self) -> bool {
        true
    }

    /// What `get_fixed_processing` reports.
    open spec fn fixed_processing(&self, time: GameTime) -> Resources {
        Resources::zero()
    }

    /// The state that `get_fixed_processing` leaves.
    open spec fn after_fixed_processing(&self, time: GameTime) -> Self {
        *self
    }

    /// What `get_potential_supply` reports.
    open spec fn potential_supply(&self, time: GameTime) -> Resources {
        Resources::zero()
    }

    /// What `get_potential_consumption` reports.
    open spec fn potential_consumption(&self, resources: Resources, time: GameTime) -> Resources {
        Resources::zero()
    }

    /// What `supply_on_demand` reports.
    open spec fn supply(&self, resources: Resources, time: GameTime) -> Resources {
        Resources::zero()
    }

    /// The state that `supply_on_demand` leaves.
    open spec fn after_supply(&self, resources: Resources, time: GameTime) -> Self {
        *self
    }

    /// What `consume_on_demand` reports.
    open spec fn consumption(&self, resources: Resources, time: GameTime) -> Resources {
        Resources::zero()
    }

    /// The state that `consume_on_demand` leaves.
    open spec fn after_consumption(&self, resources: Resources, time: GameTime) -> Self {
        *self
    }

    /// The text of `status`.
    open spec fn status_text(&self) -> Seq<char> {
        Seq::empty()
    }

    /// What the component does in every tick, whatever is available. It is
    /// asked once per tick.
    fn get_fixed_processing(&mut self, time: &GameTime) -> (output: Resources)
        ensures
            output == old(self).fixed_processing(*time),
            *final(self) == old(self).after_fixed_processing(*time),
            old(self).wf() ==> final(self).wf(),
    ;

    /// The most that the component could give in this tick.
    fn get_potential_supply(&self, time: &GameTime) -> (output: Resources)
        ensures
            output == self.potential_supply(*time),
    ;

    /// What the component could take in this tick, given in `resources` what
    /// would be available to it.
    fn get_potential_consumption(&self, resources: &Resources, time: &GameTime) -> (output:
        Resources)
        ensures
            output == self.potential_consumption(*resources, *time),
    ;

    /// Gives towards the balance in `resources`, where a negative quantity is
    /// a deficit, and reports what was given. A component within its bounds
    /// gives no more of any quantity than `get_potential_supply` says it
    /// could.
    fn supply_on_demand(&mut self, resources: &Resources, time: &GameTime) -> (output: Resources)
        ensures
            output == old(self).supply(*resources, *time),
            *final(self) == old(self).after_supply(*resources, *time),
            old(self).wf() ==> final(self).wf(),
            old(self).wf() ==> at_most(output, old(self).potential_supply(*time)),
    ;

    /// Takes from what is available in `resources` and reports what was taken.
    fn consume_on_demand(&mut self, resources: &Resources, time: &GameTime) -> (output: Resources)
        ensures
            output == old(self).consumption(*resources, *time),
            *final(self) == old(self).after_consumption(*resources, *time),
            old(self).wf() ==> final(self).wf(),
    ;

    /// A line of text on the state of the component, for a person to read.
    fn status(&self) -> (text: String)
        ensures
            text@ == self.status_text(),
    ;
}

/// Whether `c` takes no part in the economy: every request reports the empty
/// ledger and leaves `c` as it is.
pub open spec fn idle<C: Component>(c: C) -> bool {
    &&& forall|time: GameTime| #[trigger]
        c.fixed_processing(time) == Resources::zero()
    &&& forall|time: GameTime| #[trigger] c.after_fixed_processing(time) == c
    &&& forall|time: GameTime| #[trigger] c.potential_supply(time) == Resources::zero()
    &&& forall|resources: Resources, time: GameTime| #[trigger]
        c.potential_consumption(resources, time) == Resources::zero()
    &&& forall|resources: Resources, time: GameTime| #[trigger]
        c.supply(resources, time) == Resources::zero()
    &&& forall|resources: Resources, time: GameTime| #[trigger] c.after_supply(resources, time) == c
    &&& forall|resources: Resources, time: GameTime| #[trigger]
        c.consumption(resources, time) == Resources::zero()
    &&& forall|resources: Resources, time: GameTime| #[trigger]
        c.after_consumption(resources, time) == c
}

/// Whether `given` answers a balance of `offered` in one quantity without
/// going beyond it: nothing where nothing is missing, and otherwise no less
/// than nothing and no more than what is missing.
pub open spec fn within_deficit(given: i64, offered: i64) -> bool {
    if offered < 0 {
        0 <= given <= -offered
    } else {
        given == 0
    }
}

/// Whether `given` stays within the deficit of `offered` in every quantity.
pub open spec fn supplies_within(given: Resources, offered: Resources) -> bool {
    forall|quantity: Quantity| #[trigger]
        within_deficit(given.spec_of(quantity), offered.spec_of(quantity))
}

/// Whether no quantity of `a` is above the same quantity of `b`.
pub open spec fn at_most(a: Resources, b: Resources) -> bool {
    &&& a.electricity <= b.electricity
    &&& a.heat <= b.heat
    &&& a.deuterium <= b.deuterium
}

/// The component that leaves every request as the trait describes it.
#[derive(PartialEq, Eq, Copy, Clone, Debug, Structural)]
pub struct Idle;

impl Component for Idle {
    open spec fn status_text(&self) -> Seq<char> {
        "idle"@
    }

    fn get_fixed_processing(&mut self, _time: &GameTime) -> (output: Resources) {
        Resources::default()
    }

    fn get_potential_supply(&self, _time: &GameTime) -> (output: Resources) {
        Resources::default()
    }

    fn get_potential_consumption(&self, _resources: &Resources, _time: &GameTime) -> (output:
        Resources) {
        Resources::default()
    }

    fn supply_on_demand(&mut self, _resources: &Resources, _time: &GameTime) -> (output: Resources) {
        Resources::default()
    }

    fn consume_on_demand(&mut self, _resources: &Resources, _time: &GameTime) -> (output: Resources) {
        Resources::default()
    }

    fn status(&self) -> (text: String) {
        String::from_str("idle")
    }
}

/// `Idle` is idle.
pub proof fn lemma_idle_is_idle(c: Idle)
    ensures
        idle(c),
{
}

} // verus!
