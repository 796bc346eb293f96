//! The slash-request state machine: submission, quorum approval,
//! execution, rejection, dispute and resolution, and the unguarded capped
//! slash.

use vstd::prelude::*;

use crate::bond::apply_slash;
use crate::bond::slashed_bond;
use crate::bond::IdentityBond;
use crate::errors::BondError;
use crate::governance::lemma_distinct_push;
use crate::governance::SlashRequest;
use crate::governance::SlashRequestStatus;
use crate::state::vec_contains;
use crate::state::CredenceBond;

verus! {

impl CredenceBond {
    /// Submits a slash request against `identity`. Only a governance member
    /// may; the requester counts as the first approval, the new request is
    /// `Pending`, and it silently replaces any previous request.
    pub fn submit_slash_request(
        &mut self,
        requester: u64,
        identity: u64,
        amount: i128,
        reason: u64,
        now: u64,
    ) -> (r: Result<u32, BondError>)
        requires
            old(self).wf(),
            old(self).config is Some,
            old(self).config_spec().slash_request_counter < u32::MAX,
            0 <= amount,
        ensures
            !old(self).members().contains(requester) ==> (r matches Err(e) && e
                == BondError::NotGovernanceMember && *final(self) == *old(self)),
            old(self).members().contains(requester) ==> ({
                &&& r == Ok::<u32, BondError>(
                    (old(self).config_spec().slash_request_counter + 1) as u32,
                )
                &&& final(self).config matches Some(c2)
                &&& c2.slash_request_counter == old(self).config_spec().slash_request_counter + 1
                &&& c2.admin == old(self).config_spec().admin
                &&& c2.required_approvals == old(self).config_spec().required_approvals
                &&& c2.governance_members@ == old(self).config_spec().governance_members@
                &&& final(self).request matches Some(req)
                &&& req.id == old(self).config_spec().slash_request_counter + 1
                &&& req.requester == requester
                &&& req.identity == identity
                &&& req.amount == amount
                &&& req.reason == reason
                &&& req.status is Pending
                &&& req.approvals@ == seq![requester]
                &&& req.created_at == now
                &&& !req.disputed
                &&& req.dispute_reason == 0
                &&& final(self).admin == old(self).admin
                &&& final(self).bond == old(self).bond
                &&& final(self).verifiers == old(self).verifiers
                &&& final(self).fees == old(self).fees
                &&& final(self).locked == old(self).locked
            }),
            final(self).wf(),
    {
        if !self.is_governance_member(requester) {
            return Err(BondError::NotGovernanceMember);
        }
        let request_id = match &mut self.config {
            Some(c) => {
                c.slash_request_counter = c.slash_request_counter + 1;
                c.slash_request_counter
            },
            None => unreached(),
        };
        let mut approvals: Vec<u64> = Vec::new();
        approvals.push(requester);
        proof {
            assert(approvals@ =~= seq![requester]);
        }
        self.request = Some(
            SlashRequest {
                id: request_id,
                requester,
                identity,
                amount,
                reason,
                status: SlashRequestStatus::Pending,
                approvals,
                created_at: now,
                disputed: false,
                dispute_reason: 0,
            },
        );
        Ok(request_id)
    }

    /// Records one governance member's approval. A duplicate approval is a
    /// no-op returning `false`; otherwise the approver is appended, the
    /// request becomes `Approved` exactly when the approvals reach the
    /// quorum, and the result says whether it did.
    pub fn approve_slash_request(&mut self, approver: u64) -> (r: Result<bool, BondError>)
        requires
            old(self).wf(),
            old(self).config is Some,
            old(self).request is Some,
        ensures
            !old(self).members().contains(approver) ==> (r matches Err(e) && e
                == BondError::NotGovernanceMember && *final(self) == *old(self)),
            old(self).members().contains(approver) && !(old(self).request_spec().status is Pending)
                ==> (r matches Err(e) && e == BondError::NotPending && *final(self) == *old(self)),
            old(self).members().contains(approver) && old(self).request_spec().status is Pending
                && old(self).request_spec().approvals@.contains(approver) ==> (r == Ok::<
                bool,
                BondError,
            >(false) && *final(self) == *old(self)),
            old(self).members().contains(approver) && old(self).request_spec().status is Pending
                && !old(self).request_spec().approvals@.contains(approver) ==> ({
                &&& final(self).request matches Some(req)
                &&& req.approvals@ == old(self).request_spec().approvals@.push(approver)
                &&& req.status == (if req.approvals@.len() >= old(self).config_spec().required_approvals {
                    SlashRequestStatus::Approved
                } else {
                    SlashRequestStatus::Pending
                })
                &&& r == Ok::<bool, BondError>(req.status is Approved)
                &&& req.id == old(self).request_spec().id
                &&& req.requester == old(self).request_spec().requester
                &&& req.identity == old(self).request_spec().identity
                &&& req.amount == old(self).request_spec().amount
                &&& req.reason == old(self).request_spec().reason
                &&& req.created_at == old(self).request_spec().created_at
                &&& req.disputed == old(self).request_spec().disputed
                &&& req.dispute_reason == old(self).request_spec().dispute_reason
                &&& final(self).admin == old(self).admin
                &&& final(self).config == old(self).config
                &&& final(self).bond == old(self).bond
                &&& final(self).verifiers == old(self).verifiers
                &&& final(self).fees == old(self).fees
                &&& final(self).locked == old(self).locked
            }),
            r is Ok ==> final(self).request_spec().approvals@.len() >= old(self).request_spec().approvals@.len(),
            final(self).wf(),
    {
        if !self.is_governance_member(approver) {
            return Err(BondError::NotGovernanceMember);
        }
        let required = self.get_governance_config().required_approvals;
        match &mut self.request {
            Some(req) => {
                if !matches!(req.status, SlashRequestStatus::Pending) {
                    return Err(BondError::NotPending);
                }
                if vec_contains(&req.approvals, approver) {
                    return Ok(false);
                }
                proof {
                    lemma_distinct_push(req.approvals@, approver);
                }
                req.approvals.push(approver);
                let approved = req.approvals.len() >= required as usize;
                if approved {
                    req.status = SlashRequestStatus::Approved;
                }
                Ok(approved)
            },
            None => unreached(),
        }
    }

    /// Executes an approved slash request: the bond is slashed by the
    /// request's amount under the capping rule, and the request becomes
    /// `Executed`.
    pub fn execute_slash(&mut self) -> (r: Result<IdentityBond, BondError>)
        requires
            old(self).wf(),
            old(self).request is Some,
            old(self).request_spec().status is Approved ==> old(self).bond is Some,
        ensures
            !(old(self).request_spec().status is Approved) ==> (r matches Err(e) && e
                == BondError::NotApproved && *final(self) == *old(self)),
            old(self).request_spec().status is Approved && old(self).bond_spec().slashed_amount
                + old(self).request_spec().amount > i128::MAX ==> (r matches Err(e) && e
                == BondError::Overflow && *final(self) == *old(self)),
            old(self).request_spec().status is Approved && old(self).bond_spec().slashed_amount
                + old(self).request_spec().amount <= i128::MAX ==> ({
                &&& r matches Ok(b)
                &&& b == slashed_bond(old(self).bond_spec(), old(self).request_spec().amount)
                &&& *final(self) == old(self).with_bond(b).with_request(
                    (SlashRequest {
                        status: SlashRequestStatus::Executed,
                        ..old(self).request_spec()
                    }),
                )
            }),
            final(self).wf(),
            old(self).bond_spec().bond_invariant() && r is Ok ==> final(self).bond_spec().bond_invariant() && final(self).bond_spec().full_slash_inactive(),
            old(self).bond is Some && old(self).bond_spec().bond_invariant() && old(self).bond_spec().full_slash_inactive() ==> final(self).bond is Some && final(self).bond_spec().full_slash_inactive(),
    {
        match &self.request {
            Some(req) => {
                if !matches!(req.status, SlashRequestStatus::Approved) {
                    return Err(BondError::NotApproved);
                }
            },
            None => unreached(),
        }
        let amount = self.get_slash_request().amount;
        let bond = self.get_identity_state();
        let new_bond = match apply_slash(&bond, amount) {
            Ok(b) => b,
            Err(e) => { return Err(e) },
        };
        self.bond = Some(new_bond);
        match &mut self.request {
            Some(req) => {
                req.status = SlashRequestStatus::Executed;
            },
            None => unreached(),
        }
        Ok(new_bond)
    }

    /// Rejects a pending slash request; the bond is untouched.
    pub fn reject_slash_request(&mut self) -> (r: Result<SlashRequestStatus, BondError>)
        requires
            old(self).wf(),
            old(self).request is Some,
        ensures
            !(old(self).request_spec().status is Pending) ==> (r matches Err(e) && e
                == BondError::NotPending && *final(self) == *old(self)),
            old(self).request_spec().status is Pending ==> ({
                &&& r == Ok::<SlashRequestStatus, BondError>(SlashRequestStatus::Rejected)
                &&& *final(self) == old(self).with_request(
                    (SlashRequest {
                        status: SlashRequestStatus::Rejected,
                        ..old(self).request_spec()
                    }),
                )
            }),
            final(self).wf(),
    {
        match &mut self.request {
            Some(req) => {
                if !matches!(req.status, SlashRequestStatus::Pending) {
                    return Err(BondError::NotPending);
                }
                req.status = SlashRequestStatus::Rejected;
                Ok(SlashRequestStatus::Rejected)
            },
            None => unreached(),
        }
    }

    /// Disputes a pending or approved slash request. Only a governance
    /// member may; the request records the disputer's reason and becomes
    /// `Disputed`.
    pub fn dispute_slash_request(&mut self, disputer: u64, reason: u64) -> (r: Result<
        bool,
        BondError,
    >)
        requires
            old(self).wf(),
            old(self).config is Some,
            old(self).request is Some,
        ensures
            !old(self).members().contains(disputer) ==> (r matches Err(e) && e
                == BondError::NotGovernanceMember && *final(self) == *old(self)),
            old(self).members().contains(disputer) && !(old(self).request_spec().status is Pending
                || old(self).request_spec().status is Approved) ==> (r matches Err(e) && e
                == BondError::InvalidState && *final(self) == *old(self)),
            old(self).members().contains(disputer) && (old(self).request_spec().status is Pending
                || old(self).request_spec().status is Approved) ==> ({
                &&& r == Ok::<bool, BondError>(true)
                &&& *final(self) == old(self).with_request(
                    (SlashRequest {
                        status: SlashRequestStatus::Disputed,
                        disputed: true,
                        dispute_reason: reason,
                        ..old(self).request_spec()
                    }),
                )
            }),
            final(self).wf(),
    {
        if !self.is_governance_member(disputer) {
            return Err(BondError::NotGovernanceMember);
        }
        match &mut self.request {
            Some(req) => {
                let disputable = matches!(req.status, SlashRequestStatus::Pending) || matches!(
                    req.status,
                    SlashRequestStatus::Approved,
                );
                if !disputable {
                    return Err(BondError::InvalidState);
                }
                req.disputed = true;
                req.dispute_reason = reason;
                req.status = SlashRequestStatus::Disputed;
                Ok(true)
            },
            None => unreached(),
        }
    }

    /// Resolves a disputed request. Approving the resolution re-evaluates
    /// the quorum: the request returns to `Approved` when its approvals
    /// already reach the threshold, else to `Pending`; refusing the
    /// resolution rejects the request. Either way the dispute flag is
    /// cleared.
    pub fn resolve_dispute(&mut self, resolve_approved: bool) -> (r: Result<
        SlashRequestStatus,
        BondError,
    >)
        requires
            old(self).wf(),
            old(self).request is Some,
            resolve_approved ==> old(self).config is Some,
        ensures
            !(old(self).request_spec().status is Disputed) ==> (r matches Err(e) && e
                == BondError::NotDisputed && *final(self) == *old(self)),
            old(self).request_spec().status is Disputed ==> ({
                let status = if resolve_approved {
                    if old(self).request_spec().approvals@.len() >= old(self).config_spec().required_approvals {
                        SlashRequestStatus::Approved
                    } else {
                        SlashRequestStatus::Pending
                    }
                } else {
                    SlashRequestStatus::Rejected
                };
                &&& r == Ok::<SlashRequestStatus, BondError>(status)
                &&& *final(self) == old(self).with_request(
                    (SlashRequest {
                        status: status,
                        disputed: false,
                        ..old(self).request_spec()
                    }),
                )
            }),
            final(self).wf(),
    {
        let required = if resolve_approved {
            self.get_governance_config().required_approvals
        } else {
            0
        };
        match &mut self.request {
            Some(req) => {
                if !matches!(req.status, SlashRequestStatus::Disputed) {
                    return Err(BondError::NotDisputed);
                }
                if resolve_approved {
                    if req.approvals.len() >= required as usize {
                        req.status = SlashRequestStatus::Approved;
                    } else {
                        req.status = SlashRequestStatus::Pending;
                    }
                } else {
                    req.status = SlashRequestStatus::Rejected;
                }
                req.disputed = false;
                Ok(req.status)
            },
            None => unreached(),
        }
    }

    /// Slashes the bond by `amount` under the capping rule: the slashed
    /// amount grows to at most the bonded balance, and reaching the cap
    /// retires the bond.
    pub fn slash(&mut self, amount: i128) -> (r: Result<IdentityBond, BondError>)
        requires
            old(self).wf(),
            old(self).bond is Some,
            0 <= amount,
        ensures
            old(self).bond_spec().slashed_amount + amount > i128::MAX ==> (r matches Err(e) && e
                == BondError::Overflow && *final(self) == *old(self)),
            old(self).bond_spec().slashed_amount + amount <= i128::MAX ==> ({
                &&& r matches Ok(b)
                &&& b == slashed_bond(old(self).bond_spec(), amount)
                &&& *final(self) == old(self).with_bond(b)
            }),
            final(self).wf(),
            old(self).bond_spec().bond_invariant() && r is Ok ==> final(self).bond_spec().bond_invariant() && final(self).bond_spec().full_slash_inactive(),
            old(self).bond_spec().bond_invariant() && old(self).bond_spec().full_slash_inactive()
                ==> final(self).bond is Some && final(self).bond_spec().full_slash_inactive(),
    {
        let bond = self.get_identity_state();
        match apply_slash(&bond, amount) {
            Ok(b) => {
                self.bond = Some(b);
                Ok(b)
            },
            Err(e) => Err(e),
        }
    }
}

} // verus!
