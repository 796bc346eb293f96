//! A collateral-bond ledger with governed slashing.
//!
//! An identity locks collateral in a bond; an administrator or a quorum of
//! governance members may penalize ("slash") that stake, subject to dispute
//! and resolution. Fund-moving entry points that hand a result to an external
//! callback are serialized by a reentrancy lock. Every operation is a pure
//! state transition on [`CredenceBond`], specified by its contract; the host
//! around the library supplies timestamps, authenticates callers, and runs
//! the registered callbacks between the commit and the release of the lock.

use vstd::prelude::*;

pub mod access;
pub mod bond;
pub mod errors;
pub mod governance;
pub mod guard;
pub mod lifecycle;
pub mod slashing;
pub mod state;
pub mod validation;

verus! {

pub use access::AccessError;
pub use bond::IdentityBond;
pub use errors::BondError;
pub use governance::GovernanceConfig;
pub use governance::SlashRequest;
pub use governance::SlashRequestStatus;
pub use state::CredenceBond;
pub use validation::MAX_BOND_AMOUNT;
pub use validation::MIN_BOND_AMOUNT;
pub use validation::validate_bond_amount;

} // verus!
