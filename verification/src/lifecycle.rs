//! The bond lifecycle: creation, top-up, extension, withdrawal, and
//! rolling renewal.
//!
//! Every operation takes the current time as a plain value where it needs
//! one; the host reads the clock and hands it in. Tier-change and penalty
//! notifications are fire-and-forget messages to external collaborators and
//! never change the bond arithmetic, so they stay with the host.

use vstd::prelude::*;

use crate::bond::IdentityBond;
use crate::errors::BondError;
use crate::state::CredenceBond;

verus! {

impl CredenceBond {
    /// Creates a fresh, non-rolling bond, replacing any existing one.
    pub fn create_bond(&mut self, identity: u64, amount: i128, duration: u64, now: u64) -> (r:
        Result<IdentityBond, BondError>)
        requires
            old(self).wf(),
            0 <= amount,
        ensures
            now + duration > u64::MAX ==> (r matches Err(e) && e == BondError::Overflow && *final(self) == *old(self)),
            now + duration <= u64::MAX ==> ({
                &&& r matches Ok(b)
                &&& b == (IdentityBond {
                    identity,
                    bonded_amount: amount,
                    bond_start: now,
                    bond_duration: duration,
                    slashed_amount: 0,
                    active: true,
                    is_rolling: false,
                    withdrawal_requested_at: 0,
                    notice_period: 0,
                })
                &&& *final(self) == old(self).with_bond(b)
            }),
            final(self).wf(),
            r matches Ok(b) ==> b.bond_invariant(),
    {
        self.create_bond_with_rolling(identity, amount, duration, false, 0, now)
    }

    /// Creates a fresh bond with rolling parameters, replacing any existing
    /// one. Fails with `Overflow` when the end of the lock-up period does
    /// not fit the timestamp domain.
    pub fn create_bond_with_rolling(
        &mut self,
        identity: u64,
        amount: i128,
        duration: u64,
        is_rolling: bool,
        notice_period: u64,
        now: u64,
    ) -> (r: Result<IdentityBond, BondError>)
        requires
            old(self).wf(),
            0 <= amount,
        ensures
            now + duration > u64::MAX ==> (r matches Err(e) && e == BondError::Overflow && *final(self) == *old(self)),
            now + duration <= u64::MAX ==> ({
                &&& r matches Ok(b)
                &&& b == (IdentityBond {
                    identity,
                    bonded_amount: amount,
                    bond_start: now,
                    bond_duration: duration,
                    slashed_amount: 0,
                    active: true,
                    is_rolling,
                    withdrawal_requested_at: 0,
                    notice_period,
                })
                &&& *final(self) == old(self).with_bond(b)
            }),
            final(self).wf(),
            r matches Ok(b) ==> b.bond_invariant(),
    {
        if now.checked_add(duration).is_none() {
            return Err(BondError::Overflow);
        }
        let bond = IdentityBond {
            identity,
            bonded_amount: amount,
            bond_start: now,
            bond_duration: duration,
            slashed_amount: 0,
            active: true,
            is_rolling,
            withdrawal_requested_at: 0,
            notice_period,
        };
        self.bond = Some(bond);
        Ok(bond)
    }

    /// Adds `amount` to the bonded balance; fails with `Overflow` when the
    /// checked addition would wrap.
    pub fn top_up(&mut self, amount: i128) -> (r: Result<IdentityBond, BondError>)
        requires
            old(self).wf(),
            old(self).bond is Some,
            0 <= amount,
        ensures
            old(self).bond_spec().bonded_amount + amount > i128::MAX ==> (r matches Err(e) && e
                == BondError::Overflow && *final(self) == *old(self)),
            old(self).bond_spec().bonded_amount + amount <= i128::MAX ==> ({
                &&& r matches Ok(b)
                &&& b == (IdentityBond {
                    bonded_amount: (old(self).bond_spec().bonded_amount + amount) as i128,
                    ..old(self).bond_spec()
                })
                &&& *final(self) == old(self).with_bond(b)
            }),
            final(self).wf(),
            old(self).bond_spec().bond_invariant() && r is Ok ==> final(self).bond_spec().bond_invariant(),
    {
        let mut bond = self.get_identity_state();
        match bond.bonded_amount.checked_add(amount) {
            Some(new_amount) => {
                bond.bonded_amount = new_amount;
                self.bond = Some(bond);
                Ok(bond)
            },
            None => Err(BondError::Overflow),
        }
    }

    /// Lengthens the lock-up period by `additional_duration`; fails with
    /// `Overflow` when the new duration or the new end of the period does
    /// not fit.
    pub fn extend_duration(&mut self, additional_duration: u64) -> (r: Result<
        IdentityBond,
        BondError,
    >)
        requires
            old(self).wf(),
            old(self).bond is Some,
        ensures
            old(self).bond_spec().bond_duration + additional_duration > u64::MAX || old(self).bond_spec().end_time() + additional_duration > u64::MAX ==> (r matches Err(e) && e
                == BondError::Overflow && *final(self) == *old(self)),
            old(self).bond_spec().bond_duration + additional_duration <= u64::MAX && old(self).bond_spec().end_time() + additional_duration <= u64::MAX ==> ({
                &&& r matches Ok(b)
                &&& b == (IdentityBond {
                    bond_duration: (old(self).bond_spec().bond_duration
                        + additional_duration) as u64,
                    ..old(self).bond_spec()
                })
                &&& *final(self) == old(self).with_bond(b)
            }),
            final(self).wf(),
    {
        let mut bond = self.get_identity_state();
        match bond.bond_duration.checked_add(additional_duration) {
            Some(new_duration) => {
                if bond.bond_start.checked_add(new_duration).is_none() {
                    return Err(BondError::Overflow);
                }
                bond.bond_duration = new_duration;
                self.bond = Some(bond);
                Ok(bond)
            },
            None => Err(BondError::Overflow),
        }
    }

    /// Withdraws `amount` from the available balance (bonded minus
    /// slashed); fails with `InsufficientBalance` when more is asked than
    /// is available.
    pub fn withdraw(&mut self, amount: i128) -> (r: Result<IdentityBond, BondError>)
        requires
            old(self).wf(),
            old(self).bond is Some,
        ensures
            amount > old(self).bond_spec().available() ==> (r matches Err(e) && e
                == BondError::InsufficientBalance && *final(self) == *old(self)),
            amount <= old(self).bond_spec().available() && old(self).bond_spec().bonded_amount
                - amount > i128::MAX ==> (r matches Err(e) && e == BondError::Overflow && *final(self) == *old(self)),
            amount <= old(self).bond_spec().available() && old(self).bond_spec().bonded_amount
                - amount <= i128::MAX ==> ({
                &&& r matches Ok(b)
                &&& b == (IdentityBond {
                    bonded_amount: (old(self).bond_spec().bonded_amount - amount) as i128,
                    ..old(self).bond_spec()
                })
                &&& *final(self) == old(self).with_bond(b)
            }),
            final(self).wf(),
            old(self).bond_spec().bond_invariant() && r is Ok ==> final(self).bond_spec().bond_invariant(),
    {
        let mut bond = self.get_identity_state();
        let available = match bond.bonded_amount.checked_sub(bond.slashed_amount) {
            Some(a) => a,
            None => { return Err(BondError::InvariantViolation) },
        };
        if amount > available {
            return Err(BondError::InsufficientBalance);
        }
        match bond.bonded_amount.checked_sub(amount) {
            Some(new_amount) => {
                bond.bonded_amount = new_amount;
                if bond.slashed_amount > bond.bonded_amount {
                    return Err(BondError::InvariantViolation);
                }
                self.bond = Some(bond);
                Ok(bond)
            },
            None => Err(BondError::Overflow),
        }
    }

    /// Withdraws `amount` before the lock-up period ends; after that
    /// instant the call fails with `UseRegularWithdraw`, directing the
    /// caller to the regular withdrawal. The early-exit penalty is computed
    /// and routed to the treasury by external collaborators and never
    /// touches the bond arithmetic: the bonded balance drops by the full
    /// `amount`.
    pub fn withdraw_early(&mut self, amount: i128, now: u64) -> (r: Result<
        IdentityBond,
        BondError,
    >)
        requires
            old(self).wf(),
            old(self).bond is Some,
        ensures
            amount > old(self).bond_spec().available() ==> (r matches Err(e) && e
                == BondError::InsufficientBalance && *final(self) == *old(self)),
            amount <= old(self).bond_spec().available() && now >= old(self).bond_spec().end_time()
                ==> (r matches Err(e) && e == BondError::UseRegularWithdraw && *final(self) == *old(self)),
            amount <= old(self).bond_spec().available() && now < old(self).bond_spec().end_time()
                && old(self).bond_spec().bonded_amount - amount > i128::MAX ==> (r matches Err(e)
                && e == BondError::Overflow && *final(self) == *old(self)),
            amount <= old(self).bond_spec().available() && now < old(self).bond_spec().end_time()
                && old(self).bond_spec().bonded_amount - amount <= i128::MAX ==> ({
                &&& r matches Ok(b)
                &&& b == (IdentityBond {
                    bonded_amount: (old(self).bond_spec().bonded_amount - amount) as i128,
                    ..old(self).bond_spec()
                })
                &&& *final(self) == old(self).with_bond(b)
            }),
            final(self).wf(),
            old(self).bond_spec().bond_invariant() && r is Ok ==> final(self).bond_spec().bond_invariant(),
    {
        let mut bond = self.get_identity_state();
        let available = match bond.bonded_amount.checked_sub(bond.slashed_amount) {
            Some(a) => a,
            None => { return Err(BondError::InvariantViolation) },
        };
        if amount > available {
            return Err(BondError::InsufficientBalance);
        }
        let end = bond.bond_start.saturating_add(bond.bond_duration);
        if now >= end {
            return Err(BondError::UseRegularWithdraw);
        }
        match bond.bonded_amount.checked_sub(amount) {
            Some(new_amount) => {
                bond.bonded_amount = new_amount;
                if bond.slashed_amount > bond.bonded_amount {
                    return Err(BondError::InvariantViolation);
                }
                self.bond = Some(bond);
                Ok(bond)
            },
            None => Err(BondError::Overflow),
        }
    }

    /// Stamps the time a rolling bond's withdrawal was requested; fails
    /// with `NotRolling` for a fixed-term bond and with `AlreadyRequested`
    /// when a request was already stamped.
    pub fn request_withdrawal(&mut self, now: u64) -> (r: Result<IdentityBond, BondError>)
        requires
            old(self).wf(),
            old(self).bond is Some,
        ensures
            !old(self).bond_spec().is_rolling ==> (r matches Err(e) && e == BondError::NotRolling
                && *final(self) == *old(self)),
            old(self).bond_spec().is_rolling && old(self).bond_spec().withdrawal_requested_at != 0
                ==> (r matches Err(e) && e == BondError::AlreadyRequested && *final(self) == *old(self)),
            old(self).bond_spec().is_rolling && old(self).bond_spec().withdrawal_requested_at == 0
                ==> ({
                &&& r matches Ok(b)
                &&& b == (IdentityBond { withdrawal_requested_at: now, ..old(self).bond_spec() })
                &&& *final(self) == old(self).with_bond(b)
            }),
            final(self).wf(),
    {
        let mut bond = self.get_identity_state();
        if !bond.is_rolling {
            return Err(BondError::NotRolling);
        }
        if bond.withdrawal_requested_at != 0 {
            return Err(BondError::AlreadyRequested);
        }
        bond.withdrawal_requested_at = now;
        self.bond = Some(bond);
        Ok(bond)
    }

    /// Starts a new period for a rolling bond whose current period has
    /// ended; otherwise returns the bond unchanged.
    pub fn renew_if_rolling(&mut self, now: u64) -> (r: IdentityBond)
        requires
            old(self).wf(),
            old(self).bond is Some,
            old(self).bond_spec().is_rolling && now >= old(self).bond_spec().end_time() ==> now
                + old(self).bond_spec().bond_duration <= u64::MAX,
        ensures
            !(old(self).bond_spec().is_rolling && now >= old(self).bond_spec().end_time()) ==> (r
                == old(self).bond_spec() && *final(self) == *old(self)),
            old(self).bond_spec().is_rolling && now >= old(self).bond_spec().end_time() ==> (r == (
            IdentityBond { bond_start: now, ..old(self).bond_spec() }) && *final(self) == old(self).with_bond(r)),
            final(self).wf(),
    {
        let mut bond = self.get_identity_state();
        if !bond.is_rolling {
            return bond;
        }
        let end = bond.bond_start.saturating_add(bond.bond_duration);
        if now < end {
            return bond;
        }
        bond.bond_start = now;
        self.bond = Some(bond);
        bond
    }
}

} // verus!
