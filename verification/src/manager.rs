//! The manager that owns the components and settles one tick at a time.

use crate::component::Component;
use crate::passes::{
    demand_estimate, demand_settlement, fixed_components, fixed_ledger, names_components,
    opening_balance, supply_estimate, supply_settlement, tick, tick_time, Outcome, Settlement,
    TICK_MS,
};
use crate::resources::{GameTime, Resources};
use core::ops::AddAssign;
use vstd::prelude::*;

verus! {

/// The status lines of the first `k` components, each followed by a
/// separator.
pub open spec fn status_lines<C: Component>(components: Seq<C>, k: nat) -> Seq<char>
    decreases k,
{
    if k == 0 {
        Seq::empty()
    } else {
        status_lines(components, (k - 1) as nat) + components[k - 1].status_text() + " : "@
    }
}

fn names_all(order: &Vec<usize>, count: usize) -> (ok: bool)
    ensures
        ok == names_components(order@, count as nat),
{
    let mut k: usize = 0;
    while k < order.len()
        invariant
            k <= order.len(),
            forall|j: int| 0 <= j < k ==> order@[j] < count,
        decreases order.len() - k,
    {
        if order[k] >= count {
            return false;
        }
        k = k + 1;
    }
    true
}

/// An ordered collection of components with the two orders in which they are
/// served.
pub struct ComponentManager<C: Component> {
    pub components: Vec<C>,
    pub supply: Vec<usize>,
    pub demand: Vec<usize>,
}

impl<C: Component> ComponentManager<C> {
    /// Whether a tick can run: each order has one entry per component, and
    /// every entry names a component.
    pub open spec fn wf(&self) -> bool {
        &&& self.supply@.len() == self.components@.len()
        &&& self.demand@.len() == self.components@.len()
        &&& names_components(self.supply@, self.components@.len())
        &&& names_components(self.demand@, self.components@.len())
    }

    /// A manager without components that will serve in the two orders given.
    pub fn new(supply: Vec<usize>, demand: Vec<usize>) -> (manager: Self)
        ensures
            manager.components@.len() == 0,
            manager.supply@ == supply@,
            manager.demand@ == demand@,
    {
        ComponentManager { components: Vec::new(), supply, demand }
    }

    /// Appends a component and returns the index that the orders name it by.
    pub fn register(&mut self, component: C) -> (index: usize)
        ensures
            index == old(self).components@.len(),
            final(self).components@ == old(self).components@.push(component),
            final(self).supply@ == old(self).supply@,
            final(self).demand@ == old(self).demand@,
    {
        let index: usize = self.components.len();
        self.components.push(component);
        index
    }

    /// Whether a tick can run.
    pub fn ready(&self) -> (ok: bool)
        ensures
            ok == self.wf(),
    {
        let count: usize = self.components.len();
        self.supply.len() == count && self.demand.len() == count && names_all(&self.supply, count)
            && names_all(&self.demand, count)
    }

    /// The text of `status`: the status lines of the components in the order
    /// in which they were registered, between braces.
    pub open spec fn status_text(&self) -> Seq<char> {
        "{ "@ + status_lines(self.components@, self.components@.len()) + " }"@
    }

    /// A line of text on the state of all components, for a person to read.
    pub fn status(&self) -> (text: String)
        ensures
            text@ == self.status_text(),
    {
        let mut text = String::from_str("{ ");
        let mut i: usize = 0;
        while i < self.components.len()
            invariant
                i <= self.components@.len(),
                text@ == "{ "@ + status_lines(self.components@, i as nat),
            decreases self.components@.len() - i,
        {
            let line = self.components[i].status();
            text.append(line.as_str());
            text.append(" : ");
            i = i + 1;
        }
        text.append(" }");
        text
    }

    /// What one tick makes of the components and of the ledger `resources`.
    pub open spec fn after_tick(&self, resources: Resources) -> Outcome<C> {
        tick(self.components@, self.supply@, self.demand@, resources)
    }

    /// Advances the economy by one tick if a tick can run, and says whether
    /// it did. If not, nothing changes.
    pub fn try_update(&mut self, resources: &mut Resources) -> (ran: bool)
        ensures
            ran == old(self).wf(),
            final(self).supply@ == old(self).supply@,
            final(self).demand@ == old(self).demand@,
            ran ==> final(self).components@ == old(self).after_tick(*old(resources)).components,
            ran ==> *final(resources) == old(self).after_tick(*old(resources)).ledger,
            !ran ==> final(self).components@ == old(self).components@,
            !ran ==> *final(resources) == *old(resources),
            forall|i: int|
                0 <= i < old(self).components@.len() && (#[trigger] old(self).components@[i]).wf()
                    ==> final(self).components@[i].wf(),
    {
        if self.ready() {
            self.update(resources);
            true
        } else {
            false
        }
    }

    /// Advances the economy by one tick.
    pub fn update(&mut self, resources: &mut Resources)
        requires
            old(self).wf(),
        ensures
            final(self).supply@ == old(self).supply@,
            final(self).demand@ == old(self).demand@,
            final(self).components@ == old(self).after_tick(*old(resources)).components,
            *final(resources) == old(self).after_tick(*old(resources)).ledger,
            final(self).wf(),
            forall|i: int|
                0 <= i < old(self).components@.len() && (#[trigger] old(self).components@[i]).wf()
                    ==> final(self).components@[i].wf(),
    {
        let time = GameTime { ms: TICK_MS };
        let count: usize = self.components.len();
        let ghost start = self.components@;
        let ghost opening = *resources;

        let mut i: usize = 0;
        while i < count
            invariant
                i <= count,
                count == start.len(),
                time == tick_time(),
                self.components@.len() == count,
                self.supply@ == old(self).supply@,
                self.demand@ == old(self).demand@,
                forall|j: int| 0 <= j < i ==> self.components@[j] == (#[trigger] start[j]).after_fixed_processing(time),
                forall|j: int| i <= j < count ==> self.components@[j] == start[j],
                forall|j: int| 0 <= j < count && (#[trigger] start[j]).wf() ==> self.components@[j].wf(),
                *resources == fixed_ledger(start, opening, time, i as nat),
            decreases count - i,
        {
            let output = self.components[i].get_fixed_processing(&time);
            resources.add_assign(output);
            i = i + 1;
        }
        let ghost fixed = self.components@;
        let ghost settled = *resources;
        assert(fixed =~= fixed_components(start, time));

        let mut potential_supply = *resources;
        let mut i: usize = 0;
        while i < count
            invariant
                i <= count,
                count == fixed.len(),
                self.components@ == fixed,
                potential_supply == supply_estimate(fixed, settled, time, i as nat),
            decreases count - i,
        {
            let output = self.components[i].get_potential_supply(&time);
            potential_supply.add_assign(output);
            i = i + 1;
        }
        let ghost available = potential_supply;

        let mut potential_consumption = *resources;
        let mut i: usize = 0;
        while i < count
            invariant
                i <= count,
                count == fixed.len(),
                self.components@ == fixed,
                potential_supply == demand_estimate(fixed, available, settled, time, i as nat).available,
                potential_consumption == demand_estimate(fixed, available, settled, time, i as nat).balance,
            decreases count - i,
        {
            let output = self.components[i].get_potential_consumption(&potential_supply, &time);
            potential_supply.add_assign(output);
            potential_consumption.add_assign(output);
            i = i + 1;
        }
        let ghost balance = potential_consumption;
        assert(balance == opening_balance(fixed, settled, time));

        let mut k: usize = 0;
        while k < count
            invariant
                k <= count,
                count == fixed.len(),
                count == self.supply@.len(),
                self.components@.len() == count,
                self.supply@ == old(self).supply@,
                self.demand@ == old(self).demand@,
                names_components(self.supply@, count as nat),
                forall|j: int| 0 <= j < count && (#[trigger] start[j]).wf() ==> self.components@[j].wf(),
                (Settlement {
                    components: self.components@,
                    ledger: *resources,
                    balance: potential_consumption,
                }) == supply_settlement(fixed, self.supply@, settled, balance, time, k as nat),
            decreases count - k,
        {
            let c: usize = self.supply[k];
            let output = self.components[c].supply_on_demand(&potential_consumption, &time);
            resources.add_assign(output);
            potential_consumption.add_assign(output);
            k = k + 1;
        }
        let ghost supplied = self.components@;
        let ghost filled = *resources;

        let mut k: usize = 0;
        while k < count
            invariant
                k <= count,
                count == supplied.len(),
                count == self.demand@.len(),
                self.components@.len() == count,
                self.supply@ == old(self).supply@,
                self.demand@ == old(self).demand@,
                names_components(self.demand@, count as nat),
                forall|j: int| 0 <= j < count && (#[trigger] start[j]).wf() ==> self.components@[j].wf(),
                (Outcome { components: self.components@, ledger: *resources }) == demand_settlement(
                    supplied,
                    self.demand@,
                    filled,
                    time,
                    k as nat,
                ),
            decreases count - k,
        {
            let c: usize = self.demand[k];
            let available = *resources;
            let output = self.components[c].consume_on_demand(&available, &time);
            resources.add_assign(output);
            k = k + 1;
        }
    }
}

} // verus!
