//! Slash request submission, quorum approval, execution, dispute and
//! resolution, and state consistency across operations.

use credence_bond::BondError;
use credence_bond::CredenceBond;
use credence_bond::SlashRequestStatus;

const NOW: u64 = 1_000;

const MEMBER_A: u64 = 1;
const MEMBER_B: u64 = 2;
const MEMBER_C: u64 = 3;
const ADMIN: u64 = 100;
const NON_MEMBER: u64 = 7;

const MISCONDUCT: u64 = 11;

fn create_test_env() -> CredenceBond {
    let mut c = CredenceBond::new();
    c.initialize_with_governance(ADMIN, 2, vec![MEMBER_A, MEMBER_B, MEMBER_C]);
    c
}

fn create_test_env_with_bond() -> CredenceBond {
    let mut c = create_test_env();
    c.create_bond(42, 1000, 86_400, NOW).unwrap();
    c
}

#[test]
fn test_slash_request_submission_by_governance_member() {
    let mut c = create_test_env_with_bond();

    let identity: u64 = 43;
    c.create_bond(identity, 1000, 86_400, NOW).unwrap();

    let request_id = c
        .submit_slash_request(MEMBER_A, identity, 500, MISCONDUCT, NOW)
        .unwrap();
    assert_eq!(request_id, 1);

    let request = c.get_slash_request();
    assert_eq!(request.id, 1);
    assert_eq!(request.identity, identity);
    assert_eq!(request.amount, 500);
    assert_eq!(request.status, SlashRequestStatus::Pending);
    assert!(!request.disputed);
}

#[test]
fn test_slash_request_submission_by_non_member_panics() {
    let mut c = create_test_env();

    let identity: u64 = 43;
    c.create_bond(identity, 1000, 86_400, NOW).unwrap();

    let r = c.submit_slash_request(NON_MEMBER, identity, 500, MISCONDUCT, NOW);
    assert_eq!(r, Err(BondError::NotGovernanceMember));
}

#[test]
fn test_slash_request_different_reasons() {
    let mut c = create_test_env();

    let identity: u64 = 43;
    c.create_bond(identity, 1000, 86_400, NOW).unwrap();

    let reasons: [u64; 4] = [21, 22, 23, 24];
    for (i, reason) in reasons.iter().enumerate() {
        let request_id = c
            .submit_slash_request(MEMBER_A, identity, 100 * (i as i128 + 1), *reason, NOW)
            .unwrap();
        assert_eq!(request_id, (i + 1) as u32);

        let request = c.get_slash_request();
        assert_eq!(request.reason, *reason);
    }
}

#[test]
fn test_slash_request_counter_increments() {
    let mut c = create_test_env();

    let identity: u64 = 43;
    c.create_bond(identity, 1000, 86_400, NOW).unwrap();

    c.submit_slash_request(MEMBER_A, identity, 100, 31, NOW).unwrap();
    c.submit_slash_request(MEMBER_A, identity, 200, 32, NOW).unwrap();

    let config = c.get_governance_config();
    assert_eq!(config.slash_request_counter, 2);
}

#[test]
fn test_single_approval_does_not_meet_threshold() {
    let mut c = create_test_env_with_bond();

    let identity: u64 = 43;
    c.create_bond(identity, 1000, 86_400, NOW).unwrap();

    c.submit_slash_request(MEMBER_A, identity, 500, MISCONDUCT, NOW).unwrap();

    // With 2 required approvals, the requester's self-approval plus one
    // more reaches the threshold.
    let approved = c.approve_slash_request(MEMBER_B).unwrap();
    assert!(approved);

    let request = c.get_slash_request();
    assert_eq!(request.status, SlashRequestStatus::Approved);
}

#[test]
fn test_multiple_approvals_meet_threshold() {
    let mut c = create_test_env_with_bond();

    let identity: u64 = 43;
    c.create_bond(identity, 1000, 86_400, NOW).unwrap();

    c.submit_slash_request(MEMBER_A, identity, 500, MISCONDUCT, NOW).unwrap();

    let approved1 = c.approve_slash_request(MEMBER_B).unwrap();
    assert!(approved1);

    let request1 = c.get_slash_request();
    assert_eq!(request1.status, SlashRequestStatus::Approved);
    assert_eq!(request1.approvals.len(), 2);
}

#[test]
fn test_duplicate_approval_rejected() {
    let mut c = create_test_env_with_bond();

    let identity: u64 = 43;
    c.create_bond(identity, 1000, 86_400, NOW).unwrap();

    c.submit_slash_request(MEMBER_A, identity, 500, MISCONDUCT, NOW).unwrap();

    // The requester already self-approved.
    let approved = c.approve_slash_request(MEMBER_A).unwrap();
    assert!(!approved);

    let request = c.get_slash_request();
    assert_eq!(request.approvals.len(), 1);
}

#[test]
fn test_non_member_approval_panics() {
    let mut c = create_test_env_with_bond();

    let identity: u64 = 43;
    c.create_bond(identity, 1000, 86_400, NOW).unwrap();

    c.submit_slash_request(MEMBER_A, identity, 500, MISCONDUCT, NOW).unwrap();

    let r = c.approve_slash_request(NON_MEMBER);
    assert_eq!(r, Err(BondError::NotGovernanceMember));
}

#[test]
fn test_approval_on_executed_request_panics() {
    let mut c = create_test_env_with_bond();

    let identity: u64 = 43;
    c.create_bond(identity, 1000, 86_400, NOW).unwrap();

    c.submit_slash_request(MEMBER_A, identity, 500, MISCONDUCT, NOW).unwrap();
    c.approve_slash_request(MEMBER_B).unwrap();
    c.execute_slash().unwrap();

    let r = c.approve_slash_request(MEMBER_C);
    assert_eq!(r, Err(BondError::NotPending));
}

#[test]
fn test_is_governance_member() {
    let c = create_test_env();

    assert!(c.is_governance_member(MEMBER_A));
    assert!(c.is_governance_member(MEMBER_B));
    assert!(c.is_governance_member(MEMBER_C));
    assert!(!c.is_governance_member(NON_MEMBER));
}

#[test]
fn test_slash_execution_after_approval() {
    let mut c = create_test_env_with_bond();

    let identity: u64 = 43;
    c.create_bond(identity, 1000, 86_400, NOW).unwrap();

    let initial_bond = c.get_identity_state();
    assert_eq!(initial_bond.slashed_amount, 0);
    assert!(initial_bond.active);

    c.submit_slash_request(MEMBER_A, identity, 500, MISCONDUCT, NOW).unwrap();
    c.approve_slash_request(MEMBER_B).unwrap();

    let slashed_bond = c.execute_slash().unwrap();
    assert_eq!(slashed_bond.slashed_amount, 500);
    assert!(slashed_bond.active);
    assert_eq!(slashed_bond.bonded_amount, 1000);

    let current_bond = c.get_identity_state();
    assert_eq!(current_bond.slashed_amount, 500);
    assert!(current_bond.active);
}

#[test]
fn test_full_bond_slash() {
    let mut c = create_test_env_with_bond();

    let identity: u64 = 43;
    c.create_bond(identity, 1000, 86_400, NOW).unwrap();

    c.submit_slash_request(MEMBER_A, identity, 1000, 41, NOW).unwrap();
    c.approve_slash_request(MEMBER_B).unwrap();

    let slashed_bond = c.execute_slash().unwrap();
    assert!(!slashed_bond.active);
    assert_eq!(slashed_bond.slashed_amount, 1000);
}

#[test]
fn test_slash_execution_without_approval_panics() {
    let mut c = create_test_env_with_bond();

    let identity: u64 = 43;
    c.create_bond(identity, 1000, 86_400, NOW).unwrap();

    c.submit_slash_request(MEMBER_A, identity, 500, MISCONDUCT, NOW).unwrap();

    let r = c.execute_slash();
    assert_eq!(r, Err(BondError::NotApproved));
}

#[test]
fn test_request_status_after_execution() {
    let mut c = create_test_env_with_bond();

    let identity: u64 = 43;
    c.create_bond(identity, 1000, 86_400, NOW).unwrap();

    c.submit_slash_request(MEMBER_A, identity, 500, MISCONDUCT, NOW).unwrap();
    assert_eq!(c.get_slash_request_status(), SlashRequestStatus::Pending);

    c.approve_slash_request(MEMBER_B).unwrap();
    assert_eq!(c.get_slash_request_status(), SlashRequestStatus::Approved);

    c.execute_slash().unwrap();
    assert_eq!(c.get_slash_request_status(), SlashRequestStatus::Executed);
}

#[test]
fn test_dispute_on_pending_request() {
    let mut c = create_test_env_with_bond();

    let identity: u64 = 43;
    c.create_bond(identity, 1000, 86_400, NOW).unwrap();

    c.submit_slash_request(MEMBER_A, identity, 500, MISCONDUCT, NOW).unwrap();

    let disputed = c.dispute_slash_request(MEMBER_B, 51).unwrap();
    assert!(disputed);

    let request = c.get_slash_request();
    assert!(request.disputed);
    assert_eq!(request.status, SlashRequestStatus::Disputed);
}

#[test]
fn test_dispute_on_approved_request() {
    let mut c = create_test_env_with_bond();

    let identity: u64 = 43;
    c.create_bond(identity, 1000, 86_400, NOW).unwrap();

    c.submit_slash_request(MEMBER_A, identity, 500, MISCONDUCT, NOW).unwrap();
    c.approve_slash_request(MEMBER_B).unwrap();

    let disputed = c.dispute_slash_request(MEMBER_C, 52).unwrap();
    assert!(disputed);

    let request = c.get_slash_request();
    assert!(request.disputed);
    assert_eq!(request.status, SlashRequestStatus::Disputed);
}

#[test]
fn test_dispute_resolution_approved() {
    let mut c = create_test_env_with_bond();

    let identity: u64 = 43;
    c.create_bond(identity, 1000, 86_400, NOW).unwrap();

    c.submit_slash_request(MEMBER_A, identity, 500, MISCONDUCT, NOW).unwrap();
    c.approve_slash_request(MEMBER_B).unwrap();
    c.dispute_slash_request(MEMBER_C, 53).unwrap();

    let resolved_status = c.resolve_dispute(true).unwrap();
    assert_eq!(resolved_status, SlashRequestStatus::Approved);

    let request = c.get_slash_request();
    assert!(!request.disputed);
}

#[test]
fn test_dispute_resolution_rejected() {
    let mut c = create_test_env_with_bond();

    let identity: u64 = 43;
    c.create_bond(identity, 1000, 86_400, NOW).unwrap();

    c.submit_slash_request(MEMBER_A, identity, 500, MISCONDUCT, NOW).unwrap();
    c.dispute_slash_request(MEMBER_B, 51).unwrap();

    let resolved_status = c.resolve_dispute(false).unwrap();
    assert_eq!(resolved_status, SlashRequestStatus::Rejected);

    let request = c.get_slash_request();
    assert!(!request.disputed);
    assert_eq!(request.status, SlashRequestStatus::Rejected);
}

#[test]
fn test_non_member_dispute_panics() {
    let mut c = create_test_env_with_bond();

    let identity: u64 = 43;
    c.create_bond(identity, 1000, 86_400, NOW).unwrap();

    c.submit_slash_request(MEMBER_A, identity, 500, MISCONDUCT, NOW).unwrap();

    let r = c.dispute_slash_request(NON_MEMBER, 51);
    assert_eq!(r, Err(BondError::NotGovernanceMember));
}

#[test]
fn test_cannot_dispute_executed_request() {
    let mut c = create_test_env_with_bond();

    let identity: u64 = 43;
    c.create_bond(identity, 1000, 86_400, NOW).unwrap();

    c.submit_slash_request(MEMBER_A, identity, 500, MISCONDUCT, NOW).unwrap();
    c.approve_slash_request(MEMBER_B).unwrap();
    c.execute_slash().unwrap();

    let r = c.dispute_slash_request(MEMBER_C, 54);
    assert_eq!(r, Err(BondError::InvalidState));
}

#[test]
fn test_bond_state_consistency() {
    let mut c = create_test_env();

    let identity: u64 = 43;
    c.create_bond(identity, 1000, 86_400, NOW).unwrap();

    c.submit_slash_request(MEMBER_A, identity, 300, 61, NOW).unwrap();
    c.approve_slash_request(MEMBER_B).unwrap();
    c.execute_slash().unwrap();

    let bond1 = c.get_identity_state();
    assert_eq!(bond1.slashed_amount, 300);
    assert!(bond1.active);

    c.submit_slash_request(MEMBER_A, identity, 400, 62, NOW).unwrap();
    c.approve_slash_request(MEMBER_B).unwrap();
    c.execute_slash().unwrap();

    let bond2 = c.get_identity_state();
    assert_eq!(bond2.slashed_amount, 700);
    assert!(bond2.active);

    c.submit_slash_request(MEMBER_A, identity, 500, 63, NOW).unwrap();
    c.approve_slash_request(MEMBER_B).unwrap();
    c.execute_slash().unwrap();

    let bond3 = c.get_identity_state();
    assert_eq!(bond3.slashed_amount, 1000);
    assert!(!bond3.active);
}

#[test]
fn test_governance_config_consistency() {
    let mut c = create_test_env();

    {
        let config = c.get_governance_config();
        assert_eq!(config.admin, ADMIN);
        assert_eq!(config.required_approvals, 2);
        assert_eq!(config.governance_members.len(), 3);
        assert_eq!(config.slash_request_counter, 0);
    }

    let identity: u64 = 43;
    c.create_bond(identity, 1000, 86_400, NOW).unwrap();
    c.submit_slash_request(MEMBER_A, identity, 100, 64, NOW).unwrap();

    let config_after = c.get_governance_config();
    assert_eq!(config_after.slash_request_counter, 1);
    assert_eq!(config_after.admin, ADMIN);
    assert_eq!(config_after.required_approvals, 2);
}

#[test]
fn test_slash_request_state_consistency() {
    let mut c = create_test_env_with_bond();

    let identity: u64 = 43;
    c.create_bond(identity, 1000, 86_400, NOW).unwrap();

    let request_id = c
        .submit_slash_request(MEMBER_A, identity, 500, MISCONDUCT, NOW)
        .unwrap();

    {
        let request1 = c.get_slash_request();
        assert_eq!(request1.id, request_id);
        assert_eq!(request1.status, SlashRequestStatus::Pending);
        assert_eq!(request1.approvals.len(), 1);
    }

    c.approve_slash_request(MEMBER_B).unwrap();

    {
        let request2 = c.get_slash_request();
        assert_eq!(request2.status, SlashRequestStatus::Approved);
        assert_eq!(request2.approvals.len(), 2);
    }

    c.execute_slash().unwrap();

    let request3 = c.get_slash_request();
    assert_eq!(request3.status, SlashRequestStatus::Executed);
    assert_eq!(request3.id, request_id);
    assert_eq!(request3.amount, 500);
    assert_eq!(request3.identity, identity);
}

#[test]
fn test_reject_slash_request() {
    let mut c = create_test_env_with_bond();

    let identity: u64 = 43;
    c.create_bond(identity, 1000, 86_400, NOW).unwrap();

    c.submit_slash_request(MEMBER_A, identity, 500, MISCONDUCT, NOW).unwrap();

    let status = c.reject_slash_request().unwrap();
    assert_eq!(status, SlashRequestStatus::Rejected);

    let request_status = c.get_slash_request_status();
    assert_eq!(request_status, SlashRequestStatus::Rejected);

    let bond = c.get_identity_state();
    assert_eq!(bond.slashed_amount, 0);
    assert!(bond.active);
}

#[test]
fn test_multiple_slash_requests_sequence() {
    let mut c = create_test_env();

    let identity1: u64 = 43;
    c.create_bond(identity1, 1000, 86_400, NOW).unwrap();

    c.submit_slash_request(MEMBER_A, identity1, 300, 61, NOW).unwrap();
    c.approve_slash_request(MEMBER_B).unwrap();
    c.execute_slash().unwrap();

    let bond1 = c.get_identity_state();
    assert_eq!(bond1.slashed_amount, 300);

    let config = c.get_governance_config();
    assert_eq!(config.slash_request_counter, 1);
}

#[test]
fn test_zero_amount_slash() {
    let mut c = create_test_env_with_bond();

    let identity: u64 = 43;
    c.create_bond(identity, 1000, 86_400, NOW).unwrap();

    c.submit_slash_request(MEMBER_A, identity, 0, 65, NOW).unwrap();
    c.approve_slash_request(MEMBER_B).unwrap();

    let bond = c.execute_slash().unwrap();
    assert_eq!(bond.slashed_amount, 0);
    assert!(bond.active);
}

#[test]
fn test_governance_initialization() {
    let mut c = CredenceBond::new();
    c.initialize_with_governance(ADMIN, 1, vec![MEMBER_A, MEMBER_B]);

    let config = c.get_governance_config();
    assert_eq!(config.admin, ADMIN);
    assert_eq!(config.required_approvals, 1);
    assert_eq!(config.governance_members.len(), 2);
    assert_eq!(config.slash_request_counter, 0);
}

#[test]
fn test_approval_count_tracking() {
    let mut c = create_test_env_with_bond();

    let identity: u64 = 43;
    c.create_bond(identity, 1000, 86_400, NOW).unwrap();

    c.submit_slash_request(MEMBER_A, identity, 500, MISCONDUCT, NOW).unwrap();

    {
        let request1 = c.get_slash_request();
        assert_eq!(request1.approvals.len(), 1);
    }

    c.approve_slash_request(MEMBER_B).unwrap();

    let request2 = c.get_slash_request();
    assert_eq!(request2.approvals.len(), 2);
    assert_eq!(request2.status, SlashRequestStatus::Approved);
}

#[test]
fn test_slash_amount_exceeds_bond() {
    let mut c = create_test_env();

    let identity: u64 = 43;
    c.create_bond(identity, 500, 86_400, NOW).unwrap();

    c.submit_slash_request(MEMBER_A, identity, 1000, 41, NOW).unwrap();
    c.approve_slash_request(MEMBER_B).unwrap();

    let bond = c.execute_slash().unwrap();
    assert_eq!(bond.slashed_amount, 500);
    assert!(!bond.active);
}

#[test]
fn test_dispute_preserves_request_data() {
    let mut c = create_test_env_with_bond();

    let identity: u64 = 43;
    c.create_bond(identity, 1000, 86_400, NOW).unwrap();

    c.submit_slash_request(MEMBER_A, identity, 500, MISCONDUCT, NOW).unwrap();
    c.approve_slash_request(MEMBER_B).unwrap();
    c.dispute_slash_request(MEMBER_C, 55).unwrap();

    let request = c.get_slash_request();
    assert_eq!(request.amount, 500);
    assert_eq!(request.identity, identity);
    assert_eq!(request.reason, MISCONDUCT);
    assert!(request.disputed);
    assert_eq!(request.dispute_reason, 55);
}

#[test]
fn test_resolve_dispute_without_disputed_request_panics() {
    let mut c = create_test_env_with_bond();

    let identity: u64 = 43;
    c.create_bond(identity, 1000, 86_400, NOW).unwrap();

    c.submit_slash_request(MEMBER_A, identity, 500, MISCONDUCT, NOW).unwrap();

    let r = c.resolve_dispute(true);
    assert_eq!(r, Err(BondError::NotDisputed));
}

#[test]
fn test_state_after_rejection() {
    let mut c = create_test_env_with_bond();

    let identity: u64 = 43;
    c.create_bond(identity, 1000, 86_400, NOW).unwrap();

    c.submit_slash_request(MEMBER_A, identity, 500, MISCONDUCT, NOW).unwrap();
    c.reject_slash_request().unwrap();

    let bond = c.get_identity_state();
    assert_eq!(bond.slashed_amount, 0);
    assert!(bond.active);

    let status = c.get_slash_request_status();
    assert_eq!(status, SlashRequestStatus::Rejected);
}
