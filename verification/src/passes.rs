//! The five passes of a tick, as functions of the components and the ledger
//! that a tick starts from.
//!
//! The first three passes go over the components in the order in which they
//! were registered; the last two follow the supply order and the demand order,
//! which name components by index. An order may name a component more than
//! once, or not at all: the component is then visited as often as it is named.
//! Whoever comes first in an order is served first, and nothing is shared out
//! evenly.

use crate::component::Component;
use crate::resources::{GameTime, Resources};
use vstd::prelude::*;

verus! {

/// The milliseconds that one tick stands for.
pub const TICK_MS: u64 = 1;

/// The time that every request of a tick is made with.
pub open spec fn tick_time() -> GameTime {
    GameTime { ms: TICK_MS }
}

/// Whether every entry of `order` is the index of one of `count` components.
pub open spec fn names_components(order: Seq<usize>, count: nat) -> bool {
    forall|k: int| 0 <= k < order.len() ==> order[k] < count
}

/// The components after each has done its fixed processing.
pub open spec fn fixed_components<C: Component>(components: Seq<C>, time: GameTime) -> Seq<C> {
    Seq::new(components.len(), |i: int| components[i].after_fixed_processing(time))
}

/// The ledger after the fixed processing of the first `k` components.
pub open spec fn fixed_ledger<C: Component>(
    components: Seq<C>,
    ledger: Resources,
    time: GameTime,
    k: nat,
) -> Resources
    decreases k,
{
    if k == 0 {
        ledger
    } else {
        fixed_ledger(components, ledger, time, (k - 1) as nat).plus(
            components[k - 1].fixed_processing(time),
        )
    }
}

/// What would be available if each of the first `k` components gave all that
/// it could, on top of `seed`.
pub open spec fn supply_estimate<C: Component>(
    components: Seq<C>,
    seed: Resources,
    time: GameTime,
    k: nat,
) -> Resources
    decreases k,
{
    if k == 0 {
        seed
    } else {
        supply_estimate(components, seed, time, (k - 1) as nat).plus(
            components[k - 1].potential_supply(time),
        )
    }
}

/// The two running figures of the third pass.
pub struct Estimate {
    /// What would still be available to the next component that asks.
    pub available: Resources,
    /// The ledger with everything taken from it that was asked for so far.
    pub balance: Resources,
}

/// The figures after the first `k` components have said what they could
/// take. Each is asked with what the ones before it have left available, and
/// its answer goes into both figures.
pub open spec fn demand_estimate<C: Component>(
    components: Seq<C>,
    available: Resources,
    ledger: Resources,
    time: GameTime,
    k: nat,
) -> Estimate
    decreases k,
{
    if k == 0 {
        Estimate { available, balance: ledger }
    } else {
        let before = demand_estimate(components, available, ledger, time, (k - 1) as nat);
        let asked = components[k - 1].potential_consumption(before.available, time);
        Estimate {
            available: before.available.plus(asked),
            balance: before.balance.plus(asked),
        }
    }
}

/// The state of the fourth pass.
pub struct Settlement<C> {
    pub components: Seq<C>,
    /// The ledger that the tick works on.
    pub ledger: Resources,
    /// What is still open: a negative quantity is a deficit.
    pub balance: Resources,
}

/// The state after the components named by the first `k` entries of `order`
/// have supplied. Each is offered the balance that the ones before it have
/// left open, and what it gives goes into both the ledger and the balance.
pub open spec fn supply_settlement<C: Component>(
    components: Seq<C>,
    order: Seq<usize>,
    ledger: Resources,
    balance: Resources,
    time: GameTime,
    k: nat,
) -> Settlement<C>
    decreases k,
{
    if k == 0 {
        Settlement { components, ledger, balance }
    } else {
        let before = supply_settlement(components, order, ledger, balance, time, (k - 1) as nat);
        let i = order[k - 1] as int;
        let given = before.components[i].supply(before.balance, time);
        Settlement {
            components: before.components.update(
                i,
                before.components[i].after_supply(before.balance, time),
            ),
            ledger: before.ledger.plus(given),
            balance: before.balance.plus(given),
        }
    }
}

/// The components and the ledger of the fifth pass.
pub struct Outcome<C> {
    pub components: Seq<C>,
    pub ledger: Resources,
}

/// The state after the components named by the first `k` entries of `order`
/// have consumed. Each is offered the ledger as the ones before it have left
/// it, and what it takes goes into the ledger at once.
pub open spec fn demand_settlement<C: Component>(
    components: Seq<C>,
    order: Seq<usize>,
    ledger: Resources,
    time: GameTime,
    k: nat,
) -> Outcome<C>
    decreases k,
{
    if k == 0 {
        Outcome { components, ledger }
    } else {
        let before = demand_settlement(components, order, ledger, time, (k - 1) as nat);
        let i = order[k - 1] as int;
        let taken = before.components[i].consumption(before.ledger, time);
        Outcome {
            components: before.components.update(
                i,
                before.components[i].after_consumption(before.ledger, time),
            ),
            ledger: before.ledger.plus(taken),
        }
    }
}

/// The balance that the supply pass of a tick starts from: the ledger after
/// the fixed processing, less everything that the components could take.
pub open spec fn opening_balance<C: Component>(
    components: Seq<C>,
    ledger: Resources,
    time: GameTime,
) -> Resources {
    let count = components.len();
    let available = supply_estimate(components, ledger, time, count);
    demand_estimate(components, available, ledger, time, count).balance
}

/// The state from which the supply pass of a tick starts: the components and
/// the ledger after the fixed processing, and the opening balance.
pub open spec fn tick_opening<C: Component>(components: Seq<C>, ledger: Resources) -> Settlement<
    C,
> {
    let time = tick_time();
    let fixed = fixed_components(components, time);
    let settled = fixed_ledger(components, ledger, time, components.len());
    Settlement {
        components: fixed,
        ledger: settled,
        balance: opening_balance(fixed, settled, time),
    }
}

/// The state of a tick after its supply pass.
pub open spec fn tick_supplied<C: Component>(
    components: Seq<C>,
    supply: Seq<usize>,
    ledger: Resources,
) -> Settlement<C> {
    let opening = tick_opening(components, ledger);
    supply_settlement(
        opening.components,
        supply,
        opening.ledger,
        opening.balance,
        tick_time(),
        supply.len(),
    )
}

/// One tick: the components and the ledger that a tick makes of `components`
/// and `ledger` under the two orders.
pub open spec fn tick<C: Component>(
    components: Seq<C>,
    supply: Seq<usize>,
    demand: Seq<usize>,
    ledger: Resources,
) -> Outcome<C> {
    let supplied = tick_supplied(components, supply, ledger);
    demand_settlement(supplied.components, demand, supplied.ledger, tick_time(), demand.len())
}

} // verus!
