//! Bounds on acceptable bond amounts.

use vstd::prelude::*;

verus! {

/// Minimum bond amount: one token, assuming six decimals.
pub const MIN_BOND_AMOUNT: i128 = 1_000_000;

/// Maximum bond amount: one hundred million tokens, assuming six decimals.
pub const MAX_BOND_AMOUNT: i128 = 100_000_000_000_000;

/// Whether `amount` lies within the acceptable bond range.
pub fn validate_bond_amount(amount: i128) -> (r: bool)
    ensures
        r <==> MIN_BOND_AMOUNT <= amount <= MAX_BOND_AMOUNT,
{
    MIN_BOND_AMOUNT <= amount && amount <= MAX_BOND_AMOUNT
}

} // verus!
