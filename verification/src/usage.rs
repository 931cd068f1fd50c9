//! The usage accumulator: saturating charge and refund totals for one scope.

use vstd::prelude::*;

verus! {

/// An unsigned amount of funds. All arithmetic on balances saturates at the
/// representable bounds instead of wrapping or raising an error.
pub type Balance = u64;

/// The net cost of a scope: a net charge when the charge total is at least
/// the refund total (a tie yields `Charge(0)`), a net refund otherwise.
#[derive(Clone, Copy, Debug, PartialEq, Eq, Structural)]
pub enum Cost {
    Charge(Balance),
    Refund(Balance),
}

/// Cumulative charge and refund totals for one scope. Both totals only ever
/// grow by saturating addition, except when a discarded nested scope's
/// contribution is unwound from an ancestor with [`Usage::saturating_sub`].
#[derive(Clone, Copy, Debug, PartialEq, Eq, Structural)]
pub struct Usage {
    pub charge: Balance,
    pub refund: Balance,
}

/// `a + b`, clamped to `u64::MAX`.
pub open spec fn sat_add(a: Balance, b: Balance) -> Balance {
    if a + b > u64::MAX {
        u64::MAX
    } else {
        (a + b) as Balance
    }
}

/// `a - b`, floored at zero.
pub open spec fn sat_sub(a: Balance, b: Balance) -> Balance {
    if a < b {
        0
    } else {
        (a - b) as Balance
    }
}

impl Usage {
    /// The accumulator with both totals zero.
    pub open spec fn zero() -> Usage {
        Usage { charge: 0, refund: 0 }
    }

    /// Component-wise saturating addition of two accumulators.
    pub open spec fn spec_add(self, rhs: Usage) -> Usage {
        Usage { charge: sat_add(self.charge, rhs.charge), refund: sat_add(self.refund, rhs.refund) }
    }

    /// Component-wise saturating subtraction of two accumulators.
    pub open spec fn spec_sub(self, rhs: Usage) -> Usage {
        Usage { charge: sat_sub(self.charge, rhs.charge), refund: sat_sub(self.refund, rhs.refund) }
    }

    /// The net cost derived from the two totals; a tie resolves to `Charge(0)`.
    pub open spec fn spec_cost(self) -> Cost {
        if self.charge >= self.refund {
            Cost::Charge(sat_sub(self.charge, self.refund))
        } else {
            Cost::Refund(sat_sub(self.refund, self.charge))
        }
    }

    /// A fresh accumulator with nothing charged and nothing refunded.
    pub fn new() -> (r: Usage)
        ensures
            r == Usage::zero(),
    {
        Usage { charge: 0, refund: 0 }
    }

    /// Records `amount` as charged to this scope, saturating at `u64::MAX`.
    pub fn charge(&mut self, amount: Balance)
        ensures
            *final(self) == old(self).spec_add(Usage { charge: amount, refund: 0 }),
            final(self).charge >= old(self).charge,
            final(self).refund == old(self).refund,
    {
        self.charge = self.charge.saturating_add(amount);
    }

    /// Records `amount` as refunded to this scope, saturating at `u64::MAX`.
    pub fn refund(&mut self, amount: Balance)
        ensures
            *final(self) == old(self).spec_add(Usage { charge: 0, refund: amount }),
            final(self).refund >= old(self).refund,
            final(self).charge == old(self).charge,
    {
        self.refund = self.refund.saturating_add(amount);
    }

    /// Merges another accumulator into this one, component-wise and saturating:
    /// how a child scope's usage is combined into a parent's.
    pub fn saturating_add(self, rhs: Usage) -> (r: Usage)
        ensures
            r == self.spec_add(rhs),
    {
        Usage {
            charge: self.charge.saturating_add(rhs.charge),
            refund: self.refund.saturating_add(rhs.refund),
        }
    }

    /// Removes another accumulator from this one, component-wise and
    /// saturating: how a discarded child scope's earlier contribution is
    /// unwound from an ancestor's total.
    pub fn saturating_sub(self, rhs: Usage) -> (r: Usage)
        ensures
            r == self.spec_sub(rhs),
    {
        Usage {
            charge: self.charge.saturating_sub(rhs.charge),
            refund: self.refund.saturating_sub(rhs.refund),
        }
    }

    /// The net cost of this accumulator: `Charge(charge - refund)` when the
    /// charge total is at least the refund total (so a tie yields
    /// `Charge(0)`), else `Refund(refund - charge)`.
    pub fn cost(&self) -> (r: Cost)
        ensures
            r == self.spec_cost(),
    {
        if self.charge >= self.refund {
            Cost::Charge(self.charge.saturating_sub(self.refund))
        } else {
            Cost::Refund(self.refund.saturating_sub(self.charge))
        }
    }
}

impl Default for Usage {
    /// The empty accumulator.
    fn default() -> (r: Usage)
        ensures
            r == Usage::zero(),
    {
        Usage { charge: 0, refund: 0 }
    }
}

} // verus!
