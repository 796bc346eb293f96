//! The collateral record and the shared slashing arithmetic.

use vstd::prelude::*;

verus! {

/// The collateral locked by one identity.
///
/// `bonded_amount` is an `i128` for headroom but is semantically unsigned;
/// `withdrawal_requested_at == 0` means no withdrawal was requested.
#[derive(Clone, Copy, Debug, PartialEq, Eq, Structural)]
pub struct IdentityBond {
    pub identity: u64,
    pub bonded_amount: i128,
    pub bond_start: u64,
    pub bond_duration: u64,
    pub slashed_amount: i128,
    pub active: bool,
    pub is_rolling: bool,
    pub withdrawal_requested_at: u64,
    pub notice_period: u64,
}

impl IdentityBond {
    /// Well-formedness kept by every operation: amounts are nonnegative, the
    /// end of the lock-up period fits the timestamp domain, and an active
    /// bond is never slashed beyond its balance. (A full self-withdrawal
    /// retires the bond with its slashed amount preserved, so an inactive
    /// record may carry `slashed_amount > bonded_amount`.)
    pub open spec fn wf(self) -> bool {
        &&& 0 <= self.bonded_amount
        &&& 0 <= self.slashed_amount
        &&& self.bond_start + self.bond_duration <= u64::MAX
        &&& self.active ==> self.slashed_amount <= self.bonded_amount
    }

    /// The arithmetic invariant of the ledger: the slashed amount never
    /// exceeds the bonded balance.
    pub open spec fn bond_invariant(self) -> bool {
        &&& 0 <= self.slashed_amount <= self.bonded_amount
        &&& self.bond_start + self.bond_duration <= u64::MAX
    }

    /// A fully slashed bond is retired.
    pub open spec fn full_slash_inactive(self) -> bool {
        self.slashed_amount == self.bonded_amount ==> !self.active
    }

    /// The balance still available for withdrawal or slashing.
    pub open spec fn available(self) -> int {
        self.bonded_amount - self.slashed_amount
    }

    /// The instant the current lock-up period ends.
    pub open spec fn end_time(self) -> int {
        self.bond_start + self.bond_duration
    }
}

/// The slashed amount after penalizing by `amount`, capped at the bonded
/// balance: slashing never removes more than what is bonded.
pub open spec fn capped_slash(bonded: i128, slashed: i128, amount: i128) -> int {
    if slashed + amount > bonded {
        bonded as int
    } else {
        slashed + amount
    }
}

/// Whether the bond stays active after a capped slash of `amount`: reaching
/// the cap retires the bond.
pub open spec fn active_after_slash(b: IdentityBond, amount: i128) -> bool {
    if b.slashed_amount + amount >= b.bonded_amount {
        false
    } else {
        b.active
    }
}

/// The result of the capped slashing rule applied to `b`.
pub open spec fn slashed_bond(b: IdentityBond, amount: i128) -> IdentityBond {
    IdentityBond {
        slashed_amount: capped_slash(b.bonded_amount, b.slashed_amount, amount) as i128,
        active: active_after_slash(b, amount),
        ..b
    }
}

/// Applies the capped slashing rule shared by the governed execution path
/// and the unguarded slash: the slashed amount grows by `amount` but never
/// beyond the bonded balance, and reaching the cap retires the bond.
pub fn apply_slash(b: &IdentityBond, amount: i128) -> (r: Result<
    IdentityBond,
    crate::errors::BondError,
>)
    requires
        b.wf(),
        0 <= amount,
    ensures
        b.slashed_amount + amount > i128::MAX ==> (r matches Err(e) && e
            == crate::errors::BondError::Overflow),
        b.slashed_amount + amount <= i128::MAX ==> (r matches Ok(nb) && nb == slashed_bond(
            *b,
            amount,
        )),
        r matches Ok(nb) ==> nb.wf() && nb.bond_invariant() && nb.full_slash_inactive(),
{
    match b.slashed_amount.checked_add(amount) {
        Some(new_slashed) => {
            let mut nb = *b;
            if new_slashed >= b.bonded_amount {
                nb.slashed_amount = b.bonded_amount;
                nb.active = false;
            } else {
                nb.slashed_amount = new_slashed;
            }
            Ok(nb)
        },
        None => Err(crate::errors::BondError::Overflow),
    }
}

/// Capped slashing keeps the arithmetic invariant: starting from
/// `0 <= slashed <= bonded`, the new slashed amount stays within
/// `[slashed, bonded]`, and a bond that reaches the cap is retired.
pub proof fn lemma_slash_preserves_invariant(b: IdentityBond, amount: i128)
    requires
        b.bond_invariant(),
        0 <= amount,
    ensures
        b.slashed_amount <= capped_slash(b.bonded_amount, b.slashed_amount, amount)
            <= b.bonded_amount,
        slashed_bond(b, amount).bond_invariant(),
        slashed_bond(b, amount).full_slash_inactive(),
{
}

/// The slash cap: an amount larger than the remaining balance slashes the
/// bond exactly to its bonded amount and retires it — never an error.
pub proof fn lemma_slash_cap(b: IdentityBond, amount: i128)
    requires
        b.bond_invariant(),
        0 <= amount,
        amount > b.available(),
    ensures
        capped_slash(b.bonded_amount, b.slashed_amount, amount) == b.bonded_amount,
        slashed_bond(b, amount).slashed_amount == slashed_bond(b, amount).bonded_amount,
        !slashed_bond(b, amount).active,
{
}

} // verus!
