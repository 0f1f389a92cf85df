//! The ledger of the three quantities that the components trade, and the
//! length of a tick.

use crate::scalar::{plus, spec_plus, spec_whole, whole};
use crate::text::{append_scalar, scalar_text};
use core::ops::{Add, AddAssign};
use vstd::prelude::*;
use vstd::std_specs::ops::AddSpecImpl;

verus! {

/// One of the three quantities of a ledger.
#[derive(PartialEq, Eq, Copy, Clone, Debug, Structural)]
pub enum Quantity {
    Electricity,
    Heat,
    Deuterium,
}

/// A record of electricity, heat and deuterium, each a fixed-point scalar.
///
/// One type serves three uses: a stock, the change that one call reports, and
/// the balance that is still open while a tick is settled. No field is assumed
/// to be non-negative: a negative change is a drain, a negative balance a
/// deficit.
#[derive(PartialEq, Eq, Copy, Clone, Debug, Structural)]
pub struct Resources {
    pub electricity: i64,
    pub heat: i64,
    pub deuterium: i64,
}

impl Resources {
    /// The ledger that holds nothing.
    pub open spec fn zero() -> Resources {
        Resources { electricity: 0, heat: 0, deuterium: 0 }
    }

    /// A ledger of electricity alone.
    pub open spec fn spec_electric(amount: i64) -> Resources {
        Resources { electricity: amount, heat: 0, deuterium: 0 }
    }

    /// How much of `quantity` the ledger holds.
    pub open spec fn spec_of(&self, quantity: Quantity) -> i64 {
        match quantity {
            Quantity::Electricity => self.electricity,
            Quantity::Heat => self.heat,
            Quantity::Deuterium => self.deuterium,
        }
    }

    /// The sum of two ledgers, quantity by quantity.
    pub open spec fn plus(self, rhs: Resources) -> Resources {
        Resources {
            electricity: spec_plus(self.electricity, rhs.electricity),
            heat: spec_plus(self.heat, rhs.heat),
            deuterium: spec_plus(self.deuterium, rhs.deuterium),
        }
    }

    /// Whether the exact sum of the two ledgers fits in every quantity, so
    /// that `plus` cuts nothing off.
    pub open spec fn adds_exactly(self, rhs: Resources) -> bool {
        &&& i64::MIN <= self.electricity + rhs.electricity <= i64::MAX
        &&& i64::MIN <= self.heat + rhs.heat <= i64::MAX
        &&& i64::MIN <= self.deuterium + rhs.deuterium <= i64::MAX
    }

    /// The text of `status`: the three quantities with their units.
    pub open spec fn status_text(&self) -> Seq<char> {
        scalar_text(self.electricity) + "W "@ + scalar_text(self.heat) + "J "@ + scalar_text(
            self.deuterium,
        ) + "g"@
    }

    /// A ledger of the three quantities given.
    pub fn new(electricity: i64, heat: i64, deuterium: i64) -> (r: Resources)
        ensures
            r == (Resources { electricity, heat, deuterium }),
    {
        Resources { electricity, heat, deuterium }
    }

    /// How much of `quantity` the ledger holds.
    #[verifier::when_used_as_spec(spec_of)]
    pub fn of(&self, quantity: Quantity) -> (r: i64)
        ensures
            r == self.spec_of(quantity),
    {
        match quantity {
            Quantity::Electricity => self.electricity,
            Quantity::Heat => self.heat,
            Quantity::Deuterium => self.deuterium,
        }
    }

    /// A ledger of electricity alone.
    #[verifier::when_used_as_spec(spec_electric)]
    pub fn electric(amount: i64) -> (r: Resources)
        ensures
            r == Resources::spec_electric(amount),
    {
        Resources { electricity: amount, heat: 0, deuterium: 0 }
    }
}

impl Resources {
    /// The ledger as a line of text, for a person to read.
    pub fn status(&self) -> (text: String)
        ensures
            text@ == self.status_text(),
    {
        let mut text = String::new();
        append_scalar(&mut text, self.electricity);
        text.append("W ");
        append_scalar(&mut text, self.heat);
        text.append("J ");
        append_scalar(&mut text, self.deuterium);
        text.append("g");
        text
    }
}

impl Default for Resources {
    fn default() -> (r: Resources)
        ensures
            r == Resources::zero(),
    {
        Resources { electricity: 0, heat: 0, deuterium: 0 }
    }
}

impl Add for Resources {
    type Output = Resources;

    fn add(self, rhs: Resources) -> (r: Resources) {
        Resources {
            electricity: plus(self.electricity, rhs.electricity),
            heat: plus(self.heat, rhs.heat),
            deuterium: plus(self.deuterium, rhs.deuterium),
        }
    }
}

impl AddSpecImpl for Resources {
    open spec fn obeys_add_spec() -> bool {
        true
    }

    open spec fn add_req(self, rhs: Resources) -> bool {
        true
    }

    open spec fn add_spec(self, rhs: Resources) -> Resources {
        self.plus(rhs)
    }
}

impl AddAssign for Resources {
    fn add_assign(&mut self, rhs: Resources)
        ensures
            *final(self) == old(self).plus(rhs),
    {
        self.electricity = plus(self.electricity, rhs.electricity);
        self.heat = plus(self.heat, rhs.heat);
        self.deuterium = plus(self.deuterium, rhs.deuterium);
    }
}

/// Adding ledgers does not depend on their order.
pub proof fn lemma_plus_commutes(a: Resources, b: Resources)
    ensures
        a.plus(b) == b.plus(a),
{
}

/// The empty ledger changes nothing when it is added, on either side.
pub proof fn lemma_plus_zero(a: Resources)
    ensures
        a.plus(Resources::zero()) == a,
        Resources::zero().plus(a) == a,
{
}

/// Three ledgers add up to the same whichever two are added first, as long as
/// neither of those two sums is cut off.
pub proof fn lemma_plus_associates(a: Resources, b: Resources, c: Resources)
    requires
        a.adds_exactly(b),
        b.adds_exactly(c),
    ensures
        a.plus(b).plus(c) == a.plus(b.plus(c)),
{
}

/// The time that one tick stands for, in milliseconds.
#[derive(PartialEq, Eq, Copy, Clone, Debug, Structural)]
pub struct GameTime {
    pub ms: u64,
}

impl GameTime {
    /// The length of the tick as a scalar number of milliseconds.
    pub open spec fn spec_scalar(&self) -> i64 {
        spec_whole(self.ms)
    }

    /// A tick of `ms` milliseconds.
    pub fn new(ms: u64) -> (t: GameTime)
        ensures
            t.ms == ms,
    {
        GameTime { ms }
    }

    /// The length of the tick as a scalar number of milliseconds.
    #[verifier::when_used_as_spec(spec_scalar)]
    pub fn scalar(&self) -> (r: i64)
        ensures
            r == self.spec_scalar(),
    {
        whole(self.ms)
    }
}

} // verus!
