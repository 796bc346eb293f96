//! Quorum policy and the slash-request record.

use vstd::prelude::*;

verus! {

/// The state of a slash request. `Executed` and `Rejected` are terminal;
/// a `Disputed` request returns to `Approved`, `Pending` or `Rejected`
/// through resolution.
#[derive(Clone, Copy, Debug, PartialEq, Eq, Structural)]
pub enum SlashRequestStatus {
    Pending,
    Approved,
    Executed,
    Rejected,
    Disputed,
}

/// A proposed penalty pending collective approval. The requester counts as
/// the first approval; `approvals` holds distinct approver addresses in the
/// order they approved. Reasons are caller-chosen numeric codes.
#[derive(Clone, Debug)]
pub struct SlashRequest {
    pub id: u32,
    pub requester: u64,
    pub identity: u64,
    pub amount: i128,
    pub reason: u64,
    pub status: SlashRequestStatus,
    pub approvals: Vec<u64>,
    pub created_at: u64,
    pub disputed: bool,
    pub dispute_reason: u64,
}

/// No address occurs twice in `s`.
pub open spec fn distinct_seq(s: Seq<u64>) -> bool {
    forall|i: int, j: int| 0 <= i < j < s.len() ==> s[i] != s[j]
}

impl SlashRequest {
    /// Well-formedness kept by every operation: the penalty is nonnegative
    /// and no member approved twice.
    pub open spec fn wf(self) -> bool {
        &&& 0 <= self.amount
        &&& distinct_seq(self.approvals@)
    }
}

/// The quorum policy: the administrator, the threshold of distinct
/// approvals that passes a slash request, the eligible voters, and the
/// source of request ids.
#[derive(Clone, Debug)]
pub struct GovernanceConfig {
    pub admin: u64,
    pub required_approvals: u32,
    pub governance_members: Vec<u64>,
    pub slash_request_counter: u32,
}

impl GovernanceConfig {
    /// Well-formedness: a quorum of at least one approval.
    pub open spec fn wf(self) -> bool {
        1 <= self.required_approvals
    }
}

/// Appending a fresh address keeps the approvals distinct.
pub proof fn lemma_distinct_push(s: Seq<u64>, a: u64)
    requires
        distinct_seq(s),
        !s.contains(a),
    ensures
        distinct_seq(s.push(a)),
{
    let t = s.push(a);
    assert forall|i: int, j: int| 0 <= i < j < t.len() implies t[i] != t[j] by {
        if j < s.len() {
            assert(t[i] == s[i] && t[j] == s[j]);
        } else {
            assert(t[j] == a);
            assert(t[i] == s[i]);
            assert(s.contains(s[i]));
        }
    }
}

} // verus!
