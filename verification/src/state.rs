//! The ledger's root state and its read-side operations.

use vstd::prelude::*;

use crate::bond::IdentityBond;
use crate::errors::BondError;
use crate::governance::GovernanceConfig;
use crate::governance::SlashRequest;
use crate::governance::SlashRequestStatus;

verus! {

/// The whole persisted state of one ledger instance: the administrator,
/// the quorum policy, the single live bond, the single live slash request,
/// the registered verifier roles, the fee accumulator, and the reentrancy
/// lock.
pub struct CredenceBond {
    pub admin: Option<u64>,
    pub config: Option<GovernanceConfig>,
    pub bond: Option<IdentityBond>,
    pub request: Option<SlashRequest>,
    pub verifiers: Vec<u64>,
    pub fees: i128,
    pub locked: bool,
}

impl CredenceBond {
    /// Well-formedness of the whole ledger, established at construction and
    /// kept by every operation.
    pub open spec fn wf(self) -> bool {
        &&& (self.bond matches Some(b) ==> b.wf())
        &&& (self.request matches Some(r) ==> r.wf())
        &&& (self.config matches Some(c) ==> c.wf())
        &&& crate::governance::distinct_seq(self.verifiers@)
        &&& 0 <= self.fees
    }

    /// The live bond; meaningful only when one exists.
    pub open spec fn bond_spec(self) -> IdentityBond
        recommends
            self.bond is Some,
    {
        self.bond->0
    }

    /// The live slash request; meaningful only when one exists.
    pub open spec fn request_spec(self) -> SlashRequest
        recommends
            self.request is Some,
    {
        self.request->0
    }

    /// The quorum policy; meaningful only when one was configured.
    pub open spec fn config_spec(self) -> GovernanceConfig
        recommends
            self.config is Some,
    {
        self.config->0
    }

    /// The governance members, or the empty sequence before any policy was
    /// configured.
    pub open spec fn members(self) -> Seq<u64> {
        if self.config is Some {
            self.config->0.governance_members@
        } else {
            Seq::empty()
        }
    }

    /// This ledger with its bond replaced by `b`.
    pub open spec fn with_bond(self, b: IdentityBond) -> CredenceBond {
        CredenceBond { bond: Some(b), ..self }
    }

    /// This ledger with its slash request replaced by `r`.
    pub open spec fn with_request(self, r: SlashRequest) -> CredenceBond {
        CredenceBond { request: Some(r), ..self }
    }

    /// A fresh, uninitialized ledger.
    pub fn new() -> (r: CredenceBond)
        ensures
            r.admin is None,
            r.config is None,
            r.bond is None,
            r.request is None,
            r.verifiers@ == Seq::<u64>::empty(),
            r.fees == 0,
            !r.locked,
            r.wf(),
    {
        CredenceBond {
            admin: None,
            config: None,
            bond: None,
            request: None,
            verifiers: Vec::new(),
            fees: 0,
            locked: false,
        }
    }

    /// Records `admin` as the administrator. The host authenticates the
    /// caller before handing the address in.
    pub fn initialize(&mut self, admin: u64)
        ensures
            final(self).admin == Some(admin),
            final(self).config == old(self).config,
            final(self).bond == old(self).bond,
            final(self).request == old(self).request,
            final(self).verifiers == old(self).verifiers,
            final(self).fees == old(self).fees,
            final(self).locked == old(self).locked,
    {
        self.admin = Some(admin);
    }

    /// Records the administrator together with the quorum policy; the
    /// request counter starts at zero.
    pub fn initialize_with_governance(
        &mut self,
        admin: u64,
        required_approvals: u32,
        governance_members: Vec<u64>,
    )
        requires
            1 <= required_approvals,
        ensures
            final(self).admin == Some(admin),
            final(self).config matches Some(c) && c.admin == admin && c.required_approvals
                == required_approvals && c.governance_members@ == governance_members@
                && c.slash_request_counter == 0,
            final(self).bond == old(self).bond,
            final(self).request == old(self).request,
            final(self).verifiers == old(self).verifiers,
            final(self).fees == old(self).fees,
            final(self).locked == old(self).locked,
            old(self).wf() ==> final(self).wf(),
    {
        self.admin = Some(admin);
        self.config = Some(
            GovernanceConfig {
                admin,
                required_approvals,
                governance_members,
                slash_request_counter: 0,
            },
        );
    }

    /// Replaces the quorum policy; only the recorded administrator may, and
    /// the request counter starts over at zero.
    pub fn set_governance_config(
        &mut self,
        admin: u64,
        required_approvals: u32,
        governance_members: Vec<u64>,
    ) -> (r: Result<(), BondError>)
        requires
            old(self).admin is Some,
            1 <= required_approvals,
        ensures
            admin != old(self).admin->0 ==> (r matches Err(e) && e == BondError::NotAdmin
                && *final(self) == *old(self)),
            admin == old(self).admin->0 ==> ({
                &&& r is Ok
                &&& final(self).config matches Some(c)
                &&& c.admin == admin
                &&& c.required_approvals == required_approvals
                &&& c.governance_members@ == governance_members@
                &&& c.slash_request_counter == 0
                &&& final(self).admin == old(self).admin
                &&& final(self).bond == old(self).bond
                &&& final(self).request == old(self).request
                &&& final(self).verifiers == old(self).verifiers
                &&& final(self).fees == old(self).fees
                &&& final(self).locked == old(self).locked
            }),
            old(self).wf() ==> final(self).wf(),
    {
        let stored = self.get_admin();
        if admin != stored {
            return Err(BondError::NotAdmin);
        }
        self.config = Some(
            GovernanceConfig {
                admin,
                required_approvals,
                governance_members,
                slash_request_counter: 0,
            },
        );
        Ok(())
    }

    /// The recorded administrator.
    pub fn get_admin(&self) -> (r: u64)
        requires
            self.admin is Some,
        ensures
            r == self.admin->0,
    {
        match self.admin {
            Some(a) => a,
            None => unreached(),
        }
    }

    /// The current bond snapshot.
    pub fn get_identity_state(&self) -> (r: IdentityBond)
        requires
            self.bond is Some,
        ensures
            r == self.bond_spec(),
    {
        match self.bond {
            Some(b) => b,
            None => unreached(),
        }
    }

    /// The current slash request.
    pub fn get_slash_request(&self) -> (r: &SlashRequest)
        requires
            self.request is Some,
        ensures
            *r == self.request_spec(),
    {
        match &self.request {
            Some(r) => r,
            None => unreached(),
        }
    }

    /// The status of the current slash request.
    pub fn get_slash_request_status(&self) -> (r: SlashRequestStatus)
        requires
            self.request is Some,
        ensures
            r == self.request_spec().status,
    {
        match &self.request {
            Some(r) => r.status,
            None => unreached(),
        }
    }

    /// The current quorum policy.
    pub fn get_governance_config(&self) -> (r: &GovernanceConfig)
        requires
            self.config is Some,
        ensures
            *r == self.config_spec(),
    {
        match &self.config {
            Some(c) => c,
            None => unreached(),
        }
    }

    /// Whether `address` is one of the governance members; `false` before
    /// any policy was configured.
    pub fn is_governance_member(&self, address: u64) -> (r: bool)
        ensures
            r == self.members().contains(address),
    {
        match &self.config {
            Some(c) => vec_contains(&c.governance_members, address),
            None => false,
        }
    }
}

/// Whether `x` occurs in `v`.
pub fn vec_contains(v: &Vec<u64>, x: u64) -> (r: bool)
    ensures
        r == v@.contains(x),
{
    let mut i: usize = 0;
    while i < v.len()
        invariant
            0 <= i <= v@.len(),
            forall|k: int| 0 <= k < i ==> v@[k] != x,
        decreases v@.len() - i,
    {
        if v[i] == x {
            return true;
        }
        i = i + 1;
    }
    false
}

} // verus!
