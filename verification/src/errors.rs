//! The error taxonomy shared by every fallible operation.

use vstd::prelude::*;

verus! {

/// Why an operation was refused. Every failure is fatal to the call and
/// leaves the ledger untouched.
#[derive(Clone, Copy, Debug, PartialEq, Eq, Structural)]
pub enum BondError {
    /// The caller is not the bond's owning identity.
    NotOwner,
    /// The caller is not the configured administrator.
    NotAdmin,
    /// The caller is not one of the governance members.
    NotGovernanceMember,
    /// The slash request is not in the `Pending` state.
    NotPending,
    /// The slash request is not in the `Approved` state.
    NotApproved,
    /// The slash request is not in the `Disputed` state.
    NotDisputed,
    /// A withdrawal was already requested for this rolling bond.
    AlreadyRequested,
    /// The bond is not a rolling bond.
    NotRolling,
    /// The bond is not active.
    NotActive,
    /// The operation is not allowed in the request's current state.
    InvalidState,
    /// A checked addition or subtraction would wrap.
    Overflow,
    /// A defensive post-condition check failed; unreachable from a
    /// well-formed ledger.
    InvariantViolation,
    /// The requested amount exceeds the available balance.
    InsufficientBalance,
    /// A direct administrator slash would exceed the remaining bonded
    /// balance.
    SlashExceedsBond,
    /// The lock-up period has ended; use the regular withdrawal instead.
    UseRegularWithdraw,
    /// A guarded operation was invoked while the lock is held.
    ReentrancyDetected,
}

} // verus!
