//! The reentrancy guard and the guarded, fund-moving entry points.
//!
//! Each guarded operation follows checks–effects–interactions: it acquires
//! the lock (failing with `ReentrancyDetected` when it is already held),
//! validates, commits the new state, and returns with the lock still held.
//! The host then runs the registered callback, if any, and calls
//! [`CredenceBond::release_lock`]; a reentrant call made from inside the
//! callback finds the lock held and fails, observing exactly the state the
//! outer call committed. A validation failure after acquisition releases
//! the lock before the error propagates, so every error leaves the ledger
//! exactly as it was.

use vstd::prelude::*;

use crate::bond::IdentityBond;
use crate::errors::BondError;
use crate::state::CredenceBond;

verus! {

impl CredenceBond {
    /// Whether the reentrancy lock is currently held.
    pub fn is_locked(&self) -> (r: bool)
        ensures
            r == self.locked,
    {
        self.locked
    }

    /// Releases the reentrancy lock. The host calls this after the
    /// callback of a guarded operation returns.
    pub fn release_lock(&mut self)
        ensures
            *final(self) == (CredenceBond { locked: false, ..*old(self) }),
    {
        self.locked = false;
    }

    /// Withdraws the whole available balance back to the bond's owner and
    /// retires the bond; the slashed amount stays on the record. On
    /// success the lock is left held for the callback window.
    pub fn withdraw_bond(&mut self, identity: u64) -> (r: Result<i128, BondError>)
        requires
            old(self).wf(),
            !old(self).locked ==> old(self).bond is Some,
        ensures
            old(self).locked ==> (r matches Err(e) && e == BondError::ReentrancyDetected && *final(self) == *old(self)),
            !old(self).locked && old(self).bond_spec().identity != identity ==> (r matches Err(e)
                && e == BondError::NotOwner && *final(self) == *old(self)),
            !old(self).locked && old(self).bond_spec().identity == identity && !old(self).bond_spec().active ==> (r matches Err(e) && e == BondError::NotActive && *final(self)
                == *old(self)),
            !old(self).locked && old(self).bond_spec().identity == identity && old(self).bond_spec().active ==> ({
                &&& r == Ok::<i128, BondError>(old(self).bond_spec().available() as i128)
                &&& *final(self) == (CredenceBond {
                    bond: Some(
                        (IdentityBond {
                            bonded_amount: 0,
                            active: false,
                            ..old(self).bond_spec()
                        }),
                    ),
                    locked: true,
                    ..*old(self)
                })
            }),
            final(self).wf(),
    {
        if self.locked {
            return Err(BondError::ReentrancyDetected);
        }
        let mut bond = self.get_identity_state();
        if bond.identity != identity {
            return Err(BondError::NotOwner);
        }
        if !bond.active {
            return Err(BondError::NotActive);
        }
        let withdraw_amount = bond.bonded_amount - bond.slashed_amount;
        bond.bonded_amount = 0;
        bond.active = false;
        self.bond = Some(bond);
        self.locked = true;
        Ok(withdraw_amount)
    }

    /// Slashes the bond by exactly `slash_amount` on the administrator's
    /// sole authority. Unlike the governed path this does not cap: an
    /// amount beyond the remaining balance is refused with
    /// `SlashExceedsBond`. A slash that reaches the remaining balance
    /// exactly retires the bond, as every full slash does. On success the
    /// lock is left held for the callback window.
    pub fn slash_bond(&mut self, admin: u64, slash_amount: i128) -> (r: Result<i128, BondError>)
        requires
            old(self).wf(),
            !old(self).locked ==> old(self).admin is Some,
            !old(self).locked && old(self).admin == Some(admin) ==> old(self).bond is Some,
            !old(self).locked && old(self).admin == Some(admin) && old(self).bond_spec().active
                ==> 0 <= slash_amount,
        ensures
            old(self).locked ==> (r matches Err(e) && e == BondError::ReentrancyDetected && *final(self) == *old(self)),
            !old(self).locked && admin != old(self).admin->0 ==> (r matches Err(e) && e
                == BondError::NotAdmin && *final(self) == *old(self)),
            !old(self).locked && admin == old(self).admin->0 && !old(self).bond_spec().active ==> (
            r matches Err(e) && e == BondError::NotActive && *final(self) == *old(self)),
            !old(self).locked && admin == old(self).admin->0 && old(self).bond_spec().active
                && slash_amount > old(self).bond_spec().available() ==> (r matches Err(e) && e
                == BondError::SlashExceedsBond && *final(self) == *old(self)),
            !old(self).locked && admin == old(self).admin->0 && old(self).bond_spec().active
                && slash_amount <= old(self).bond_spec().available() ==> ({
                &&& r == Ok::<i128, BondError>(
                    (old(self).bond_spec().slashed_amount + slash_amount) as i128,
                )
                &&& *final(self) == (CredenceBond {
                    bond: Some(
                        (IdentityBond {
                            slashed_amount: (old(self).bond_spec().slashed_amount
                                + slash_amount) as i128,
                            active: old(self).bond_spec().slashed_amount + slash_amount != old(self).bond_spec().bonded_amount,
                            ..old(self).bond_spec()
                        }),
                    ),
                    locked: true,
                    ..*old(self)
                })
            }),
            final(self).wf(),
            old(self).bond is Some && old(self).bond_spec().bond_invariant() && r is Ok ==> final(self).bond_spec().bond_invariant() && final(self).bond_spec().full_slash_inactive(),
            old(self).bond is Some && old(self).bond_spec().bond_invariant() && old(self).bond_spec().full_slash_inactive() ==> final(self).bond is Some && final(self).bond_spec().full_slash_inactive(),
    {
        if self.locked {
            return Err(BondError::ReentrancyDetected);
        }
        let stored_admin = self.get_admin();
        if stored_admin != admin {
            return Err(BondError::NotAdmin);
        }
        let mut bond = self.get_identity_state();
        if !bond.active {
            return Err(BondError::NotActive);
        }
        let available = bond.bonded_amount - bond.slashed_amount;
        if slash_amount > available {
            return Err(BondError::SlashExceedsBond);
        }
        let new_slashed = bond.slashed_amount + slash_amount;
        bond.slashed_amount = new_slashed;
        if new_slashed == bond.bonded_amount {
            bond.active = false;
        }
        self.bond = Some(bond);
        self.locked = true;
        Ok(new_slashed)
    }

    /// Adds `amount` to the fee accumulator.
    pub fn deposit_fees(&mut self, amount: i128)
        requires
            old(self).wf(),
            0 <= amount,
            old(self).fees + amount <= i128::MAX,
        ensures
            *final(self) == (CredenceBond { fees: (old(self).fees + amount) as i128, ..*old(self) }),
            final(self).wf(),
    {
        self.fees = self.fees + amount;
    }

    /// Collects the accumulated fees on the administrator's authority: the
    /// accumulator is zeroed before any external interaction, and the
    /// collected total is returned. On success the lock is left held for
    /// the callback window.
    pub fn collect_fees(&mut self, admin: u64) -> (r: Result<i128, BondError>)
        requires
            old(self).wf(),
            !old(self).locked ==> old(self).admin is Some,
        ensures
            old(self).locked ==> (r matches Err(e) && e == BondError::ReentrancyDetected && *final(self) == *old(self)),
            !old(self).locked && admin != old(self).admin->0 ==> (r matches Err(e) && e
                == BondError::NotAdmin && *final(self) == *old(self)),
            !old(self).locked && admin == old(self).admin->0 ==> ({
                &&& r == Ok::<i128, BondError>(old(self).fees)
                &&& *final(self) == (CredenceBond { fees: 0, locked: true, ..*old(self) })
            }),
            final(self).wf(),
    {
        if self.locked {
            return Err(BondError::ReentrancyDetected);
        }
        let stored_admin = self.get_admin();
        if stored_admin != admin {
            return Err(BondError::NotAdmin);
        }
        let fees = self.fees;
        self.fees = 0;
        self.locked = true;
        Ok(fees)
    }
}

} // verus!
