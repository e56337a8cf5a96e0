//! The currency ledger: an unbounded, non-negative balance.

use crate::bignat::{decimal_of, BigNat};
use vstd::prelude::*;

verus! {

/// The player's balance.
pub struct Currency(pub BigNat);

impl Default for Currency {
    /// A ledger that starts at zero.
    fn default() -> (r: Currency)
        ensures
            r.0@ == 0,
    {
        Currency(BigNat::zero())
    }
}

impl Currency {
    /// Adds `amount` to the balance.
    pub fn credit(&mut self, amount: &BigNat)
        ensures
            final(self).0@ == old(self).0@ + amount@,
    {
        self.0 = self.0.add(amount);
    }

    /// Takes `amount` out of the balance, which must hold it.
    pub fn debit(&mut self, amount: &BigNat)
        requires
            amount@ <= old(self).0@,
        ensures
            final(self).0@ == old(self).0@ - amount@,
    {
        self.0 = self.0.sub(amount);
    }

    /// A snapshot of the balance.
    pub fn balance(&self) -> (r: BigNat)
        ensures
            r@ == self.0@,
    {
        self.0.copy()
    }

    /// The balance as exact decimal digits.
    pub fn format(&self) -> (r: String)
        ensures
            r@ == decimal_of(self.0@),
    {
        self.0.to_decimal()
    }
}

} // verus!
