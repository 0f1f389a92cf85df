//! What holds of every tick: idle components change nothing, components stay
//! within their bounds, and suppliers that keep to the deficit do not
//! overshoot it together.

use crate::component::{idle, within_deficit, Component};
use crate::device::{lemma_device_supplies_electricity, lemma_device_supply, Device};
use crate::passes::{
    demand_estimate, demand_settlement, fixed_components, fixed_ledger, names_components,
    supply_estimate, supply_settlement, tick, tick_opening, tick_supplied, tick_time, Estimate,
    Outcome, Settlement,
};
use crate::radiator::{lemma_vented_bounds, Radiator};
use crate::reactor::{lemma_demand_load_is_fraction, FusionReactor};
use crate::resources::{GameTime, Quantity, Resources};
use crate::scalar::{clip, lemma_scaled_nonnegative, spec_negated, SCALE};
use vstd::prelude::*;

verus! {

/// Whether every one of `components` is idle.
pub open spec fn all_idle<C: Component>(components: Seq<C>) -> bool {
    forall|i: int| 0 <= i < components.len() ==> idle(#[trigger] components[i])
}

/// The outcome of `count` ticks in a row.
pub open spec fn ticks<C: Component>(
    components: Seq<C>,
    supply: Seq<usize>,
    demand: Seq<usize>,
    ledger: Resources,
    count: nat,
) -> Outcome<C>
    decreases count,
{
    if count == 0 {
        Outcome { components, ledger }
    } else {
        let before = ticks(components, supply, demand, ledger, (count - 1) as nat);
        tick(before.components, supply, demand, before.ledger)
    }
}

proof fn lemma_idle_fixed<C: Component>(
    components: Seq<C>,
    ledger: Resources,
    time: GameTime,
    k: nat,
)
    requires
        all_idle(components),
        k <= components.len(),
    ensures
        fixed_ledger(components, ledger, time, k) == ledger,
        fixed_components(components, time) == components,
    decreases k,
{
    if k > 0 {
        lemma_idle_fixed(components, ledger, time, (k - 1) as nat);
        assert(idle(components[k - 1]));
    }
    assert forall|i: int| 0 <= i < components.len() implies fixed_components(components, time)[i]
        == components[i] by {
        assert(idle(components[i]));
    }
    assert(fixed_components(components, time) =~= components);
}

proof fn lemma_idle_estimates<C: Component>(
    components: Seq<C>,
    available: Resources,
    ledger: Resources,
    time: GameTime,
    k: nat,
)
    requires
        all_idle(components),
        k <= components.len(),
    ensures
        supply_estimate(components, available, time, k) == available,
        demand_estimate(components, available, ledger, time, k) == (Estimate {
            available,
            balance: ledger,
        }),
    decreases k,
{
    if k > 0 {
        lemma_idle_estimates(components, available, ledger, time, (k - 1) as nat);
        assert(idle(components[k - 1]));
    }
}

proof fn lemma_idle_supply<C: Component>(
    components: Seq<C>,
    order: Seq<usize>,
    ledger: Resources,
    balance: Resources,
    time: GameTime,
    k: nat,
)
    requires
        all_idle(components),
        names_components(order, components.len()),
        k <= order.len(),
    ensures
        supply_settlement(components, order, ledger, balance, time, k) == (Settlement {
            components,
            ledger,
            balance,
        }),
    decreases k,
{
    if k > 0 {
        lemma_idle_supply(components, order, ledger, balance, time, (k - 1) as nat);
        let i = order[k - 1] as int;
        assert(idle(components[i]));
        assert(components.update(i, components[i]) =~= components);
    }
}

proof fn lemma_idle_demand<C: Component>(
    components: Seq<C>,
    order: Seq<usize>,
    ledger: Resources,
    time: GameTime,
    k: nat,
)
    requires
        all_idle(components),
        names_components(order, components.len()),
        k <= order.len(),
    ensures
        demand_settlement(components, order, ledger, time, k) == (Outcome { components, ledger }),
    decreases k,
{
    if k > 0 {
        lemma_idle_demand(components, order, ledger, time, (k - 1) as nat);
        let i = order[k - 1] as int;
        assert(idle(components[i]));
        assert(components.update(i, components[i]) =~= components);
    }
}

/// A tick over idle components changes neither the ledger nor the components.
pub proof fn lemma_idle_tick<C: Component>(
    components: Seq<C>,
    supply: Seq<usize>,
    demand: Seq<usize>,
    ledger: Resources,
)
    requires
        all_idle(components),
        names_components(supply, components.len()),
        names_components(demand, components.len()),
    ensures
        tick(components, supply, demand, ledger) == (Outcome { components, ledger }),
{
    let time = tick_time();
    let count = components.len();
    lemma_idle_fixed(components, ledger, time, count);
    lemma_idle_estimates(components, ledger, ledger, time, count);
    lemma_idle_supply(components, supply, ledger, ledger, time, supply.len());
    lemma_idle_demand(components, demand, ledger, time, demand.len());
}

/// However many ticks run over idle components, the ledger stays as it was.
pub proof fn lemma_idle_ticks<C: Component>(
    components: Seq<C>,
    supply: Seq<usize>,
    demand: Seq<usize>,
    ledger: Resources,
    count: nat,
)
    requires
        all_idle(components),
        names_components(supply, components.len()),
        names_components(demand, components.len()),
    ensures
        ticks(components, supply, demand, ledger, count) == (Outcome { components, ledger }),
    decreases count,
{
    if count > 0 {
        lemma_idle_ticks(components, supply, demand, ledger, (count - 1) as nat);
        lemma_idle_tick(components, supply, demand, ledger);
    }
}

/// Whether every one of `components` is within its bounds.
pub open spec fn all_wf<C: Component>(components: Seq<C>) -> bool {
    forall|i: int| 0 <= i < components.len() ==> (#[trigger] components[i]).wf()
}

/// Whether no request takes a component of type `C` out of its bounds.
pub open spec fn keeps_bounds<C: Component>() -> bool {
    &&& forall|c: C, time: GameTime| c.wf() ==> (#[trigger] c.after_fixed_processing(time)).wf()
    &&& forall|c: C, resources: Resources, time: GameTime|
        c.wf() ==> (#[trigger] c.after_supply(resources, time)).wf()
    &&& forall|c: C, resources: Resources, time: GameTime|
        c.wf() ==> (#[trigger] c.after_consumption(resources, time)).wf()
}

proof fn lemma_supply_keeps_bounds<C: Component>(
    components: Seq<C>,
    order: Seq<usize>,
    ledger: Resources,
    balance: Resources,
    time: GameTime,
    k: nat,
)
    requires
        keeps_bounds::<C>(),
        all_wf(components),
        names_components(order, components.len()),
        k <= order.len(),
    ensures
        supply_settlement(components, order, ledger, balance, time, k).components.len()
            == components.len(),
        all_wf(supply_settlement(components, order, ledger, balance, time, k).components),
    decreases k,
{
    if k > 0 {
        lemma_supply_keeps_bounds(components, order, ledger, balance, time, (k - 1) as nat);
        let before = supply_settlement(components, order, ledger, balance, time, (k - 1) as nat);
        assert(before.components[order[k - 1] as int].wf());
    }
}

proof fn lemma_demand_keeps_bounds<C: Component>(
    components: Seq<C>,
    order: Seq<usize>,
    ledger: Resources,
    time: GameTime,
    k: nat,
)
    requires
        keeps_bounds::<C>(),
        all_wf(components),
        names_components(order, components.len()),
        k <= order.len(),
    ensures
        demand_settlement(components, order, ledger, time, k).components.len()
            == components.len(),
        all_wf(demand_settlement(components, order, ledger, time, k).components),
    decreases k,
{
    if k > 0 {
        lemma_demand_keeps_bounds(components, order, ledger, time, (k - 1) as nat);
        let before = demand_settlement(components, order, ledger, time, (k - 1) as nat);
        assert(before.components[order[k - 1] as int].wf());
    }
}

/// Components that are within their bounds before a tick are within their
/// bounds after it, and there are as many of them.
pub proof fn lemma_tick_keeps_bounds<C: Component>(
    components: Seq<C>,
    supply: Seq<usize>,
    demand: Seq<usize>,
    ledger: Resources,
)
    requires
        keeps_bounds::<C>(),
        all_wf(components),
        names_components(supply, components.len()),
        names_components(demand, components.len()),
    ensures
        tick(components, supply, demand, ledger).components.len() == components.len(),
        all_wf(tick(components, supply, demand, ledger).components),
{
    let time = tick_time();
    let opening = tick_opening(components, ledger);
    assert forall|i: int| 0 <= i < opening.components.len() implies (
    #[trigger] opening.components[i]).wf() by {
        assert(components[i].wf());
    }
    lemma_supply_keeps_bounds(
        opening.components,
        supply,
        opening.ledger,
        opening.balance,
        time,
        supply.len(),
    );
    let supplied = tick_supplied(components, supply, ledger);
    lemma_demand_keeps_bounds(supplied.components, demand, supplied.ledger, time, demand.len());
}

/// However many ticks run, components that started within their bounds stay
/// within them.
pub proof fn lemma_ticks_keep_bounds<C: Component>(
    components: Seq<C>,
    supply: Seq<usize>,
    demand: Seq<usize>,
    ledger: Resources,
    count: nat,
)
    requires
        keeps_bounds::<C>(),
        all_wf(components),
        names_components(supply, components.len()),
        names_components(demand, components.len()),
    ensures
        ticks(components, supply, demand, ledger, count).components.len() == components.len(),
        all_wf(ticks(components, supply, demand, ledger, count).components),
    decreases count,
{
    if count > 0 {
        lemma_ticks_keep_bounds(components, supply, demand, ledger, (count - 1) as nat);
        let before = ticks(components, supply, demand, ledger, (count - 1) as nat);
        lemma_tick_keeps_bounds(before.components, supply, demand, before.ledger);
    }
}

/// No request takes a device of this crate out of its bounds: the charge of
/// a capacitor or a battery stays between nothing and the capacity, a tank
/// is not overdrawn, the surroundings of a radiator hold no less than no
/// heat, and the load of a reactor stays a fraction.
pub proof fn lemma_devices_keep_bounds()
    ensures
        keeps_bounds::<Device>(),
{
    assert forall|d: Device, time: GameTime| d.wf() implies (#[trigger] d.after_fixed_processing(
        time,
    )).wf() by {
        if let Device::Radiator(r) = d {
            lemma_scaled_nonnegative(r.ambient, 9, 10);
        }
    }
    assert forall|d: Device, resources: Resources, time: GameTime| d.wf() implies (
    #[trigger] d.after_supply(resources, time)).wf() by {
        match d {
            Device::Reactor(r) => {
                if resources.electricity < 0 {
                    lemma_demand_load_is_fraction(
                        r.sizing,
                        FusionReactor::demand_for(resources.electricity),
                        time,
                    );
                }
            },
            Device::Capacitor(c) => {
                if resources.electricity < 0 {
                    lemma_scaled_nonnegative(
                        spec_negated(resources.electricity),
                        time.spec_scalar(),
                        SCALE,
                    );
                }
            },
            _ => {},
        }
    }
    assert forall|d: Device, resources: Resources, time: GameTime| d.wf() implies (
    #[trigger] d.after_consumption(resources, time)).wf() by {
        match d {
            Device::Capacitor(c) => {
                if resources.electricity > 0 {
                    lemma_scaled_nonnegative(resources.electricity, time.spec_scalar(), SCALE);
                }
            },
            Device::Radiator(r) => {
                lemma_vented_bounds(r.ambient, resources.heat);
                lemma_scaled_nonnegative(Radiator::vented(r.ambient, resources.heat), 1, 10);
            },
            _ => {},
        }
    }
}

/// Whether, over the first `k` entries of `order`, each component that was
/// visited gave of `quantity` within the deficit of the balance that it was
/// offered.
pub open spec fn supply_restrained<C: Component>(
    quantity: Quantity,
    components: Seq<C>,
    order: Seq<usize>,
    ledger: Resources,
    balance: Resources,
    time: GameTime,
    k: nat,
) -> bool
    decreases k,
{
    k > 0 ==> {
        let before = supply_settlement(components, order, ledger, balance, time, (k - 1) as nat);
        &&& supply_restrained(quantity, components, order, ledger, balance, time, (k - 1) as nat)
        &&& within_deficit(
            before.components[order[k - 1] as int].supply(before.balance, time).spec_of(quantity),
            before.balance.spec_of(quantity),
        )
    }
}

/// How one quantity has moved when a supply pass is conserving. The balance
/// has not fallen. Where it began as a deficit it has not become a surplus,
/// and where it did not it stands as it began. The ledger has moved by what
/// the balance has moved, as far as its range goes.
pub open spec fn conserved(
    ledger_before: i64,
    ledger_after: i64,
    balance_before: i64,
    balance_after: i64,
) -> bool {
    &&& balance_before <= balance_after
    &&& if balance_before < 0 {
        balance_after <= 0
    } else {
        balance_after == balance_before
    }
    &&& ledger_after == clip(ledger_before + (balance_after - balance_before))
}

/// Whether `quantity` has moved from `before` to `after` as a conserving
/// supply pass moves it.
pub open spec fn conserves<C>(
    quantity: Quantity,
    before: Settlement<C>,
    after: Settlement<C>,
) -> bool {
    conserved(
        before.ledger.spec_of(quantity),
        after.ledger.spec_of(quantity),
        before.balance.spec_of(quantity),
        after.balance.spec_of(quantity),
    )
}

/// As long as no component gives of a quantity beyond the deficit that it
/// is offered, the supply pass as a whole gives no more of it than was
/// missing when the pass began: the ledger rises by what the deficit
/// shrinks, the deficit never turns into a surplus, and a quantity without a
/// deficit stays as it is.
pub proof fn lemma_supply_conserves<C: Component>(
    quantity: Quantity,
    components: Seq<C>,
    order: Seq<usize>,
    ledger: Resources,
    balance: Resources,
    time: GameTime,
    k: nat,
)
    requires
        k <= order.len(),
        supply_restrained(quantity, components, order, ledger, balance, time, k),
    ensures
        conserves(
            quantity,
            Settlement { components, ledger, balance },
            supply_settlement(components, order, ledger, balance, time, k),
        ),
    decreases k,
{
    if k > 0 {
        lemma_supply_conserves(
            quantity,
            components,
            order,
            ledger,
            balance,
            time,
            (k - 1) as nat,
        );
    }
}

/// A supply pass is restrained in a quantity whenever its components start
/// out in states that `kept` holds of, and a component in such a state gives
/// of the quantity within any deficit that it is offered and is left in such
/// a state again.
pub proof fn lemma_supply_restrained<C: Component>(
    quantity: Quantity,
    components: Seq<C>,
    order: Seq<usize>,
    ledger: Resources,
    balance: Resources,
    time: GameTime,
    k: nat,
    kept: spec_fn(C) -> bool,
)
    requires
        k <= order.len(),
        names_components(order, components.len()),
        forall|i: int| 0 <= i < components.len() ==> kept(#[trigger] components[i]),
        forall|c: C, offered: Resources| #[trigger]
            kept(c.after_supply(offered, time)) <== kept(c),
        forall|c: C, offered: Resources|
            kept(c) ==> within_deficit(
                (#[trigger] c.supply(offered, time)).spec_of(quantity),
                offered.spec_of(quantity),
            ),
    ensures
        supply_restrained(quantity, components, order, ledger, balance, time, k),
        ({
            let after = supply_settlement(components, order, ledger, balance, time, k);
            &&& after.components.len() == components.len()
            &&& forall|i: int| 0 <= i < components.len() ==> kept(#[trigger] after.components[i])
        }),
    decreases k,
{
    if k > 0 {
        lemma_supply_restrained(
            quantity,
            components,
            order,
            ledger,
            balance,
            time,
            (k - 1) as nat,
            kept,
        );
        let before = supply_settlement(components, order, ledger, balance, time, (k - 1) as nat);
        let i = order[k - 1] as int;
        assert(kept(before.components[i]));
        assert(kept(before.components[i].after_supply(before.balance, time)));
    }
}

/// Whether every one of `devices` is restrained.
pub open spec fn all_restrained(devices: Seq<Device>) -> bool {
    forall|i: int| 0 <= i < devices.len() ==> (#[trigger] devices[i]).restrained()
}

/// The supply pass of a tick over restrained devices is conserving in every
/// quantity: as long as no reactor runs, what the devices of this crate give
/// in a tick goes against the deficit of the opening balance and does not
/// exceed it.
pub proof fn lemma_devices_conserve(
    quantity: Quantity,
    devices: Seq<Device>,
    supply: Seq<usize>,
    ledger: Resources,
)
    requires
        all_restrained(devices),
        names_components(supply, devices.len()),
    ensures
        conserves(quantity, tick_opening(devices, ledger), tick_supplied(devices, supply, ledger)),
{
    let time = tick_time();
    let opening = tick_opening(devices, ledger);
    let kept = |d: Device| d.restrained();
    assert forall|i: int| 0 <= i < opening.components.len() implies kept(
        #[trigger] opening.components[i],
    ) by {
        assert(devices[i].restrained());
        if let Device::Radiator(r) = devices[i] {
            lemma_scaled_nonnegative(r.ambient, 9, 10);
        }
    }
    assert forall|d: Device, offered: Resources| kept(d) implies #[trigger] kept(
        d.after_supply(offered, time),
    ) by {
        lemma_device_supply(d, offered, time);
    }
    assert forall|d: Device, offered: Resources| kept(d) implies within_deficit(
        (#[trigger] d.supply(offered, time)).spec_of(quantity),
        offered.spec_of(quantity),
    ) by {
        lemma_device_supply(d, offered, time);
    }
    lemma_supply_restrained(
        quantity,
        opening.components,
        supply,
        opening.ledger,
        opening.balance,
        time,
        supply.len(),
        kept,
    );
    lemma_supply_conserves(
        quantity,
        opening.components,
        supply,
        opening.ledger,
        opening.balance,
        time,
        supply.len(),
    );
}

/// The supply pass of a tick over devices within their bounds is conserving
/// in electricity, whether a reactor runs or not.
pub proof fn lemma_devices_conserve_electricity(
    devices: Seq<Device>,
    supply: Seq<usize>,
    ledger: Resources,
)
    requires
        all_wf(devices),
        names_components(supply, devices.len()),
    ensures
        conserves(
            Quantity::Electricity,
            tick_opening(devices, ledger),
            tick_supplied(devices, supply, ledger),
        ),
{
    let time = tick_time();
    let opening = tick_opening(devices, ledger);
    let kept = |d: Device| d.wf();
    lemma_devices_keep_bounds();
    assert forall|i: int| 0 <= i < opening.components.len() implies kept(
        #[trigger] opening.components[i],
    ) by {
        assert(devices[i].wf());
    }
    assert forall|d: Device, offered: Resources| kept(d) implies within_deficit(
        (#[trigger] d.supply(offered, time)).spec_of(Quantity::Electricity),
        offered.spec_of(Quantity::Electricity),
    ) by {
        lemma_device_supplies_electricity(d, offered, time);
    }
    lemma_supply_restrained(
        Quantity::Electricity,
        opening.components,
        supply,
        opening.ledger,
        opening.balance,
        time,
        supply.len(),
        kept,
    );
    lemma_supply_conserves(
        Quantity::Electricity,
        opening.components,
        supply,
        opening.ledger,
        opening.balance,
        time,
        supply.len(),
    );
}

} // verus!
