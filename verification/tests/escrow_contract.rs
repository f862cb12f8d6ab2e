use escrow_payments::escrow::state::EscrowContract;
use escrow_payments::escrow::types::{
    ActionType, Error, EscrowStatus, Participant, ParticipantRole, ReputationConfig, VestingMilestone,
};
use escrow_payments::ledger::{Party, TokenTransfer, TransferMode};

const CUSTOMER: u64 = 1;
const MERCHANT: u64 = 2;
const ADMIN: u64 = 3;
const TOKEN: u64 = 4;
const OTHER: u64 = 5;

fn config(win_reward: i64, loss_penalty: i64, completion_reward: i64, dispute_initiation_penalty: i64) -> ReputationConfig {
    ReputationConfig { win_reward, loss_penalty, completion_reward, dispute_initiation_penalty }
}

fn milestone(unlock_timestamp: u64, amount: i128, description: &str) -> VestingMilestone {
    VestingMilestone { unlock_timestamp, amount, released: false, description: String::from(description) }
}

fn participant(address: u64, share_bps: u32, role: ParticipantRole, required_approval: bool) -> Participant {
    Participant { address, share_bps, role, required_approval }
}

/// The proposal data of a release or resolution: the escrow id as 8
/// big-endian bytes, then the flag.
fn action_data(escrow_id: u64, flag: u8) -> Vec<u8> {
    let mut data = escrow_id.to_be_bytes().to_vec();
    data.push(flag);
    data
}

// ── reputation ──────────────────────────────────────────────────────────────

#[test]
fn test_new_address_starts_at_neutral_score() {
    let c = EscrowContract::new();
    let rep = c.get_reputation(OTHER);
    assert_eq!(rep.score, 5000);
    assert_eq!(rep.total_transactions, 0);
    assert_eq!(rep.disputes_won, 0);
    assert_eq!(rep.disputes_lost, 0);
}

#[test]
fn test_reputation_increases_on_escrow_completion() {
    let mut c = EscrowContract::new();
    let id = c.create_escrow(2000, CUSTOMER, MERCHANT, 1000, TOKEN, 1000, 0);
    c.release_escrow(2000, ADMIN, id, true).unwrap();
    assert_eq!(c.get_reputation(MERCHANT).score, 5100);
    let customer_rep = c.get_reputation(CUSTOMER);
    assert_eq!(customer_rep.score, 5100);
    assert_eq!(customer_rep.total_transactions, 1);
}

#[test]
fn test_reputation_config_overrides_defaults() {
    let mut c = EscrowContract::new();
    c.set_reputation_config(ADMIN, config(300, 400, 50, 0)).unwrap();
    let id = c.create_escrow(2000, CUSTOMER, MERCHANT, 1000, TOKEN, 1000, 0);
    c.release_escrow(2000, ADMIN, id, true).unwrap();
    assert_eq!(c.get_reputation(MERCHANT).score, 5050);
}

#[test]
fn test_reputation_after_dispute_win() {
    let mut c = EscrowContract::new();
    let id = c.create_escrow(0, CUSTOMER, MERCHANT, 1000, TOKEN, 5000, 0);
    c.dispute_escrow(0, CUSTOMER, id).unwrap();
    c.resolve_dispute(0, ADMIN, id, true).unwrap();
    let merchant_rep = c.get_reputation(MERCHANT);
    assert_eq!(merchant_rep.score, 5200);
    assert_eq!(merchant_rep.disputes_won, 1);
    let customer_rep = c.get_reputation(CUSTOMER);
    assert_eq!(customer_rep.score, 4800);
    assert_eq!(customer_rep.disputes_lost, 1);
}

#[test]
fn test_reputation_after_dispute_loss() {
    let mut c = EscrowContract::new();
    let id = c.create_escrow(0, CUSTOMER, MERCHANT, 1000, TOKEN, 5000, 0);
    c.dispute_escrow(0, MERCHANT, id).unwrap();
    c.resolve_dispute(0, ADMIN, id, false).unwrap();
    let customer_rep = c.get_reputation(CUSTOMER);
    assert_eq!(customer_rep.score, 5200);
    assert_eq!(customer_rep.disputes_won, 1);
    let merchant_rep = c.get_reputation(MERCHANT);
    assert_eq!(merchant_rep.score, 4800);
    assert_eq!(merchant_rep.disputes_lost, 1);
}

#[test]
fn test_score_clamped_at_10000() {
    let mut c = EscrowContract::new();
    c.set_reputation_config(ADMIN, config(6000, 200, 100, 0)).unwrap();
    let id = c.create_escrow(0, CUSTOMER, MERCHANT, 500, TOKEN, 5000, 0);
    c.dispute_escrow(0, CUSTOMER, id).unwrap();
    c.resolve_dispute(0, ADMIN, id, true).unwrap();
    assert_eq!(c.get_reputation(MERCHANT).score, 10000);
}

#[test]
fn test_score_clamped_at_zero() {
    let mut c = EscrowContract::new();
    c.set_reputation_config(ADMIN, config(200, 6000, 100, 0)).unwrap();
    let id = c.create_escrow(0, CUSTOMER, MERCHANT, 500, TOKEN, 5000, 0);
    c.dispute_escrow(0, CUSTOMER, id).unwrap();
    c.resolve_dispute(0, ADMIN, id, true).unwrap();
    assert_eq!(c.get_reputation(CUSTOMER).score, 0);
}

#[test]
fn test_weighted_auto_resolve_merchant_wins_higher_reputation() {
    let mut c = EscrowContract::new();
    c.set_reputation_config(ADMIN, config(3000, 3000, 0, 0)).unwrap();
    let id1 = c.create_escrow(0, CUSTOMER, MERCHANT, 500, TOKEN, 5000, 0);
    c.dispute_escrow(0, CUSTOMER, id1).unwrap();
    c.resolve_dispute(0, ADMIN, id1, true).unwrap();
    let id2 = c.create_escrow(100, CUSTOMER, MERCHANT, 500, TOKEN, 5000, 0);
    c.dispute_escrow(100, CUSTOMER, id2).unwrap();
    c.submit_evidence(200, CUSTOMER, id2, String::from("ipfs://cust")).unwrap();
    c.submit_evidence(200, MERCHANT, id2, String::from("ipfs://merch")).unwrap();
    c.auto_resolve_dispute(800, id2).unwrap();
    assert_eq!(c.get_escrow(id2).status, EscrowStatus::Released);
}

#[test]
fn test_weighted_auto_resolve_customer_wins_higher_reputation() {
    let mut c = EscrowContract::new();
    c.set_reputation_config(ADMIN, config(3000, 3000, 0, 0)).unwrap();
    let id1 = c.create_escrow(0, CUSTOMER, MERCHANT, 500, TOKEN, 5000, 0);
    c.dispute_escrow(0, MERCHANT, id1).unwrap();
    c.resolve_dispute(0, ADMIN, id1, false).unwrap();
    let id2 = c.create_escrow(100, CUSTOMER, MERCHANT, 500, TOKEN, 5000, 0);
    c.dispute_escrow(100, MERCHANT, id2).unwrap();
    c.submit_evidence(200, CUSTOMER, id2, String::from("ipfs://cust")).unwrap();
    c.submit_evidence(200, MERCHANT, id2, String::from("ipfs://merch")).unwrap();
    c.auto_resolve_dispute(800, id2).unwrap();
    assert_eq!(c.get_escrow(id2).status, EscrowStatus::Resolved);
}

#[test]
fn test_get_and_set_reputation_config() {
    let mut c = EscrowContract::new();
    c.set_reputation_config(ADMIN, config(500, 300, 150, 75)).unwrap();
    let retrieved = c.get_reputation_config();
    assert_eq!(retrieved.win_reward, 500);
    assert_eq!(retrieved.loss_penalty, 300);
    assert_eq!(retrieved.completion_reward, 150);
    assert_eq!(retrieved.dispute_initiation_penalty, 75);
}

// ── two-party escrows ───────────────────────────────────────────────────────

#[test]
fn test_create_escrow() {
    let mut c = EscrowContract::new();
    let id = c.create_escrow(0, CUSTOMER, MERCHANT, 1000, TOKEN, 1000, 10);
    assert_eq!(id, 1);
    let e = c.get_escrow(id);
    assert_eq!(e.id, 1);
    assert_eq!(e.customer, CUSTOMER);
    assert_eq!(e.merchant, MERCHANT);
    assert_eq!(e.amount, 1000);
    assert_eq!(e.token, TOKEN);
    assert_eq!(e.status, EscrowStatus::Locked);
    assert_eq!(e.release_timestamp, 1000);
    assert_eq!(e.min_hold_period, 10);
}

#[test]
fn test_get_escrow() {
    let mut c = EscrowContract::new();
    let id = c.create_escrow(0, CUSTOMER, MERCHANT, 5000, TOKEN, 2000, 10);
    let e = c.get_escrow(id);
    assert_eq!(e.id, id);
    assert_eq!(e.customer, CUSTOMER);
    assert_eq!(e.merchant, MERCHANT);
    assert_eq!(e.amount, 5000);
    assert_eq!(e.token, TOKEN);
    assert_eq!(e.status, EscrowStatus::Locked);
    assert_eq!(e.release_timestamp, 2000);
    assert_eq!(e.min_hold_period, 10);
}

#[test]
#[should_panic]
fn test_get_escrow_not_found() {
    let c = EscrowContract::new();
    c.get_escrow(999);
}

#[test]
fn test_release_escrow_success() {
    let mut c = EscrowContract::new();
    let id = c.create_escrow(2000, CUSTOMER, MERCHANT, 1000, TOKEN, 1000, 0);
    c.release_escrow(2000, ADMIN, id, false).unwrap();
    assert_eq!(c.get_escrow(id).status, EscrowStatus::Released);
}

#[test]
#[should_panic]
fn test_release_escrow_before_release_timestamp() {
    let mut c = EscrowContract::new();
    let id = c.create_escrow(500, CUSTOMER, MERCHANT, 1000, TOKEN, 1000, 0);
    c.release_escrow(500, ADMIN, id, false).unwrap();
}

#[test]
#[should_panic]
fn test_release_escrow_not_found() {
    let mut c = EscrowContract::new();
    c.release_escrow(0, ADMIN, 999, false).unwrap();
}

#[test]
#[should_panic]
fn test_release_already_released_escrow() {
    let mut c = EscrowContract::new();
    let id = c.create_escrow(2000, CUSTOMER, MERCHANT, 1000, TOKEN, 1000, 0);
    c.release_escrow(2000, ADMIN, id, false).unwrap();
    c.release_escrow(2000, ADMIN, id, false).unwrap();
}

#[test]
#[should_panic]
fn test_release_disputed_escrow() {
    let mut c = EscrowContract::new();
    let id = c.create_escrow(0, CUSTOMER, MERCHANT, 1000, TOKEN, 1000, 0);
    c.dispute_escrow(0, CUSTOMER, id).unwrap();
    c.release_escrow(0, ADMIN, id, false).unwrap();
}

#[test]
fn test_dispute_escrow_by_customer() {
    let mut c = EscrowContract::new();
    let id = c.create_escrow(0, CUSTOMER, MERCHANT, 1000, TOKEN, 1000, 0);
    c.dispute_escrow(0, CUSTOMER, id).unwrap();
    assert_eq!(c.get_escrow(id).status, EscrowStatus::Disputed);
}

#[test]
fn test_dispute_escrow_by_merchant() {
    let mut c = EscrowContract::new();
    let id = c.create_escrow(0, CUSTOMER, MERCHANT, 1000, TOKEN, 1000, 0);
    c.dispute_escrow(0, MERCHANT, id).unwrap();
    assert_eq!(c.get_escrow(id).status, EscrowStatus::Disputed);
}

#[test]
#[should_panic]
fn test_dispute_escrow_by_unauthorized() {
    let mut c = EscrowContract::new();
    let id = c.create_escrow(0, CUSTOMER, MERCHANT, 1000, TOKEN, 1000, 0);
    c.dispute_escrow(0, OTHER, id).unwrap();
}

#[test]
#[should_panic]
fn test_dispute_escrow_not_found() {
    let mut c = EscrowContract::new();
    c.dispute_escrow(0, CUSTOMER, 999).unwrap();
}

#[test]
#[should_panic]
fn test_dispute_already_disputed_escrow() {
    let mut c = EscrowContract::new();
    let id = c.create_escrow(0, CUSTOMER, MERCHANT, 1000, TOKEN, 1000, 0);
    c.dispute_escrow(0, CUSTOMER, id).unwrap();
    c.dispute_escrow(0, MERCHANT, id).unwrap();
}

#[test]
fn test_resolve_dispute_release_to_merchant() {
    let mut c = EscrowContract::new();
    let id = c.create_escrow(0, CUSTOMER, MERCHANT, 1000, TOKEN, 1000, 0);
    c.dispute_escrow(0, CUSTOMER, id).unwrap();
    c.resolve_dispute(0, ADMIN, id, true).unwrap();
    assert_eq!(c.get_escrow(id).status, EscrowStatus::Released);
}

#[test]
fn test_resolve_dispute_release_to_customer() {
    let mut c = EscrowContract::new();
    let id = c.create_escrow(0, CUSTOMER, MERCHANT, 1000, TOKEN, 1000, 0);
    c.dispute_escrow(0, CUSTOMER, id).unwrap();
    c.resolve_dispute(0, ADMIN, id, false).unwrap();
    assert_eq!(c.get_escrow(id).status, EscrowStatus::Resolved);
}

#[test]
#[should_panic]
fn test_resolve_dispute_not_found() {
    let mut c = EscrowContract::new();
    c.resolve_dispute(0, ADMIN, 999, true).unwrap();
}

#[test]
#[should_panic]
fn test_resolve_dispute_not_disputed() {
    let mut c = EscrowContract::new();
    let id = c.create_escrow(0, CUSTOMER, MERCHANT, 1000, TOKEN, 1000, 0);
    c.resolve_dispute(0, ADMIN, id, true).unwrap();
}

#[test]
#[should_panic]
fn test_resolve_already_resolved_dispute() {
    let mut c = EscrowContract::new();
    let id = c.create_escrow(0, CUSTOMER, MERCHANT, 1000, TOKEN, 1000, 0);
    c.dispute_escrow(0, CUSTOMER, id).unwrap();
    c.resolve_dispute(0, ADMIN, id, true).unwrap();
    c.resolve_dispute(0, ADMIN, id, false).unwrap();
}

#[test]
fn test_multiple_escrows() {
    let mut c = EscrowContract::new();
    let merchant1 = 20;
    let merchant2 = 21;
    let id1 = c.create_escrow(0, CUSTOMER, merchant1, 1000, TOKEN, 1000, 0);
    assert_eq!(id1, 1);
    let id2 = c.create_escrow(0, CUSTOMER, merchant2, 2000, TOKEN, 1000, 0);
    assert_eq!(id2, 2);
    let e1 = c.get_escrow(id1);
    assert_eq!(e1.merchant, merchant1);
    assert_eq!(e1.amount, 1000);
    let e2 = c.get_escrow(id2);
    assert_eq!(e2.merchant, merchant2);
    assert_eq!(e2.amount, 2000);
}

#[test]
fn test_submit_evidence_by_both_parties() {
    let mut c = EscrowContract::new();
    let id = c.create_escrow(0, CUSTOMER, MERCHANT, 1000, TOKEN, 1500, 0);
    c.dispute_escrow(1000, CUSTOMER, id).unwrap();
    c.submit_evidence(1200, CUSTOMER, id, String::from("ipfs://hash1")).unwrap();
    c.submit_evidence(1300, MERCHANT, id, String::from("ipfs://hash2")).unwrap();
    assert_eq!(c.get_evidence_count(id), 2);
    let items = c.get_evidence(id, 10, 0);
    assert_eq!(items.len(), 2);
    assert_eq!(items[0].submitter, CUSTOMER);
    assert_eq!(items[1].submitter, MERCHANT);
}

#[test]
fn test_auto_resolve_to_customer_on_timeout() {
    let mut c = EscrowContract::new();
    let id = c.create_escrow(0, CUSTOMER, MERCHANT, 1000, TOKEN, 1500, 0);
    c.dispute_escrow(1000, CUSTOMER, id).unwrap();
    c.submit_evidence(1200, CUSTOMER, id, String::from("ipfs://cust")).unwrap();
    c.auto_resolve_dispute(1801, id).unwrap();
    assert_eq!(c.get_escrow(id).status, EscrowStatus::Resolved);
}

#[test]
fn test_auto_resolve_to_merchant_on_timeout() {
    let mut c = EscrowContract::new();
    let id = c.create_escrow(0, CUSTOMER, MERCHANT, 1000, TOKEN, 1500, 0);
    c.dispute_escrow(1000, MERCHANT, id).unwrap();
    c.submit_evidence(1200, MERCHANT, id, String::from("ipfs://merch")).unwrap();
    c.auto_resolve_dispute(1801, id).unwrap();
    assert_eq!(c.get_escrow(id).status, EscrowStatus::Released);
}

#[test]
#[should_panic]
fn test_release_blocked_by_min_hold_period() {
    let mut c = EscrowContract::new();
    let id = c.create_escrow(1000, CUSTOMER, MERCHANT, 1000, TOKEN, 900, 500);
    c.release_escrow(1000, ADMIN, id, false).unwrap();
}

#[test]
fn test_early_release_by_admin() {
    let mut c = EscrowContract::new();
    let id = c.create_escrow(1000, CUSTOMER, MERCHANT, 2000, TOKEN, 5000, 5000);
    c.release_escrow(1000, ADMIN, id, true).unwrap();
    assert_eq!(c.get_escrow(id).status, EscrowStatus::Released);
}

#[test]
fn test_release_after_min_hold_period() {
    let mut c = EscrowContract::new();
    let id = c.create_escrow(1000, CUSTOMER, MERCHANT, 3000, TOKEN, 1100, 200);
    c.release_escrow(1300, ADMIN, id, false).unwrap();
    assert_eq!(c.get_escrow(id).status, EscrowStatus::Released);
}

#[test]
fn test_release_exact_hold_period_boundary() {
    let mut c = EscrowContract::new();
    let id = c.create_escrow(1000, CUSTOMER, MERCHANT, 1000, TOKEN, 900, 500);
    c.release_escrow(1500, ADMIN, id, false).unwrap();
    assert_eq!(c.get_escrow(id).status, EscrowStatus::Released);
}

#[test]
fn test_escalate_dispute() {
    let mut c = EscrowContract::new();
    let id = c.create_escrow(0, CUSTOMER, MERCHANT, 1000, TOKEN, 1500, 0);
    c.dispute_escrow(1000, CUSTOMER, id).unwrap();
    c.escalate_dispute(1000, CUSTOMER, id).unwrap();
    assert_eq!(c.get_escrow(id).escalation_level, 1);
    c.escalate_dispute(1000, MERCHANT, id).unwrap();
    assert_eq!(c.get_escrow(id).escalation_level, 2);
}

#[test]
#[should_panic]
fn test_release_when_only_release_timestamp_passed() {
    let mut c = EscrowContract::new();
    let id = c.create_escrow(2000, CUSTOMER, MERCHANT, 500, TOKEN, 1000, 3000);
    c.release_escrow(2000, ADMIN, id, false).unwrap();
}

// ── vesting escrows ─────────────────────────────────────────────────────────

#[test]
fn test_create_vesting_escrow_with_milestones() {
    let mut c = EscrowContract::new();
    let ms = vec![milestone(2000, 3000, "Milestone 1"), milestone(3000, 4000, "Milestone 2"), milestone(4000, 3000, "Milestone 3")];
    let id = c.create_vesting_escrow(1000, CUSTOMER, MERCHANT, 10000, TOKEN, 1500, 4000, ms).unwrap();
    assert_eq!(id, 1);
    let s = c.get_vesting_schedule(id).unwrap();
    assert_eq!(s.total_amount, 10000);
    assert_eq!(s.released_amount, 0);
    assert_eq!(s.cliff_timestamp, 1500);
    assert_eq!(s.end_timestamp, 4000);
    assert_eq!(s.milestones.len(), 3);
}

#[test]
fn test_create_vesting_escrow_time_linear() {
    let mut c = EscrowContract::new();
    let id = c.create_vesting_escrow(1000, CUSTOMER, MERCHANT, 10000, TOKEN, 2000, 10000, Vec::new()).unwrap();
    let s = c.get_vesting_schedule(id).unwrap();
    assert_eq!(s.total_amount, 10000);
    assert_eq!(s.milestones.len(), 0);
}

#[test]
#[should_panic]
fn test_create_vesting_escrow_invalid_milestone_sum() {
    let mut c = EscrowContract::new();
    let ms = vec![milestone(2000, 3000, "Milestone 1"), milestone(3000, 6000, "Milestone 2")];
    c.create_vesting_escrow(1000, CUSTOMER, MERCHANT, 10000, TOKEN, 1500, 4000, ms).unwrap();
}

#[test]
#[should_panic]
fn test_create_vesting_escrow_cliff_before_current_time() {
    let mut c = EscrowContract::new();
    c.create_vesting_escrow(1000, CUSTOMER, MERCHANT, 10000, TOKEN, 500, 4000, Vec::new()).unwrap();
}

#[test]
#[should_panic]
fn test_create_vesting_escrow_end_before_cliff() {
    let mut c = EscrowContract::new();
    c.create_vesting_escrow(1000, CUSTOMER, MERCHANT, 10000, TOKEN, 5000, 4000, Vec::new()).unwrap();
}

#[test]
fn test_get_vested_amount_before_cliff() {
    let mut c = EscrowContract::new();
    let id = c.create_vesting_escrow(1000, CUSTOMER, MERCHANT, 10000, TOKEN, 2000, 10000, Vec::new()).unwrap();
    assert_eq!(c.get_vested_amount(1500, id), 0);
}

#[test]
fn test_get_vested_amount_after_cliff_linear() {
    let mut c = EscrowContract::new();
    let id = c.create_vesting_escrow(1000, CUSTOMER, MERCHANT, 10000, TOKEN, 2000, 10000, Vec::new()).unwrap();
    assert_eq!(c.get_vested_amount(2000, id), 0);
    assert_eq!(c.get_vested_amount(6000, id), 5000);
    assert_eq!(c.get_vested_amount(11000, id), 10000);
}

#[test]
fn test_get_vested_amount_milestone_based() {
    let mut c = EscrowContract::new();
    let ms = vec![milestone(2000, 3000, "Milestone 1"), milestone(3000, 4000, "Milestone 2"), milestone(4000, 3000, "Milestone 3")];
    let id = c.create_vesting_escrow(1000, CUSTOMER, MERCHANT, 10000, TOKEN, 1500, 4000, ms).unwrap();
    assert_eq!(c.get_vested_amount(1800, id), 0);
    assert_eq!(c.get_vested_amount(2500, id), 3000);
    assert_eq!(c.get_vested_amount(3500, id), 7000);
    assert_eq!(c.get_vested_amount(4500, id), 10000);
}

#[test]
fn test_get_releasable_amount() {
    let mut c = EscrowContract::new();
    let ms = vec![milestone(2000, 3000, "Milestone 1"), milestone(3000, 7000, "Milestone 2")];
    let id = c.create_vesting_escrow(1000, CUSTOMER, MERCHANT, 10000, TOKEN, 1500, 3000, ms).unwrap();
    assert_eq!(c.get_releasable_amount(2500, id), 3000);
    c.release_vested_amount(2500, ADMIN, id).unwrap();
    assert_eq!(c.get_releasable_amount(2500, id), 0);
    assert_eq!(c.get_releasable_amount(3500, id), 7000);
}

#[test]
fn test_release_vested_amount_milestone() {
    let mut c = EscrowContract::new();
    let ms = vec![milestone(2000, 3000, "Milestone 1"), milestone(3000, 7000, "Milestone 2")];
    let id = c.create_vesting_escrow(1000, CUSTOMER, MERCHANT, 10000, TOKEN, 1500, 3000, ms).unwrap();
    assert!(c.release_vested_amount(1400, ADMIN, id).is_err());
    assert_eq!(c.release_vested_amount(2500, ADMIN, id).unwrap(), 3000);
    assert_eq!(c.get_vesting_schedule(id).unwrap().released_amount, 3000);
    assert_eq!(c.release_vested_amount(3500, ADMIN, id).unwrap(), 7000);
    assert_eq!(c.get_vesting_schedule(id).unwrap().released_amount, 10000);
}

#[test]
#[should_panic]
fn test_release_vested_amount_before_cliff() {
    let mut c = EscrowContract::new();
    let id = c.create_vesting_escrow(1000, CUSTOMER, MERCHANT, 10000, TOKEN, 2000, 10000, Vec::new()).unwrap();
    c.release_vested_amount(1500, ADMIN, id).unwrap();
}

#[test]
#[should_panic]
fn test_release_vested_amount_nothing_to_release() {
    let mut c = EscrowContract::new();
    let ms = vec![milestone(2000, 10000, "Milestone 1")];
    let id = c.create_vesting_escrow(1000, CUSTOMER, MERCHANT, 10000, TOKEN, 1500, 2000, ms).unwrap();
    c.release_vested_amount(1800, ADMIN, id).unwrap();
}

#[test]
fn test_full_vesting_completion() {
    let mut c = EscrowContract::new();
    let ms = vec![
        milestone(2000, 2500, "Phase 1"),
        milestone(3000, 2500, "Phase 2"),
        milestone(4000, 2500, "Phase 3"),
        milestone(5000, 2500, "Phase 4"),
    ];
    let id = c.create_vesting_escrow(1000, CUSTOMER, MERCHANT, 10000, TOKEN, 1500, 5000, ms).unwrap();
    assert_eq!(c.release_vested_amount(2500, ADMIN, id).unwrap(), 2500);
    assert_eq!(c.release_vested_amount(3500, ADMIN, id).unwrap(), 2500);
    assert_eq!(c.release_vested_amount(4500, ADMIN, id).unwrap(), 2500);
    assert_eq!(c.release_vested_amount(5500, ADMIN, id).unwrap(), 2500);
    let s = c.get_vesting_schedule(id).unwrap();
    assert_eq!(s.released_amount, 10000);
    assert_eq!(s.total_amount, 10000);
}

#[test]
fn test_partial_milestone_release() {
    let mut c = EscrowContract::new();
    let ms = vec![milestone(2000, 5000, "First half"), milestone(3000, 5000, "Second half")];
    let id = c.create_vesting_escrow(1000, CUSTOMER, MERCHANT, 10000, TOKEN, 1500, 3000, ms).unwrap();
    assert_eq!(c.release_vested_amount(2500, ADMIN, id).unwrap(), 5000);
    assert!(c.release_vested_amount(2500, ADMIN, id).is_err());
    assert_eq!(c.release_vested_amount(3500, ADMIN, id).unwrap(), 5000);
}

// ── multi-party escrows ─────────────────────────────────────────────────────

#[test]
fn test_create_multi_party_escrow_success() {
    let mut c = EscrowContract::new();
    let ps = vec![
        participant(11, 5000, ParticipantRole::Merchant, true),
        participant(12, 3000, ParticipantRole::ServiceProvider, true),
        participant(13, 2000, ParticipantRole::Arbitrator, false),
    ];
    let id = c.create_multi_party_escrow(0, CUSTOMER, ps, 10000, TOKEN, 1000).unwrap();
    let e = c.get_multi_party_escrow(id).unwrap();
    assert_eq!(e.id, 1);
    assert_eq!(e.total_amount, 10000);
    assert_eq!(e.required_approvals, 2);
    assert_eq!(e.status, EscrowStatus::Locked);
    assert_eq!(
        c.transfers,
        vec![TokenTransfer { token: TOKEN, from: Party::Account(CUSTOMER), to: Party::Contract, amount: 10000, mode: TransferMode::Transfer }]
    );
}

#[test]
#[should_panic]
fn test_create_multi_party_escrow_invalid_shares() {
    let mut c = EscrowContract::new();
    let ps = vec![participant(11, 5000, ParticipantRole::Merchant, true), participant(12, 4000, ParticipantRole::Merchant, true)];
    c.create_multi_party_escrow(0, CUSTOMER, ps, 1000, TOKEN, 1000).unwrap();
}

#[test]
fn test_approve_release_success() {
    let mut c = EscrowContract::new();
    let ps = vec![participant(11, 5000, ParticipantRole::Merchant, true), participant(12, 5000, ParticipantRole::ServiceProvider, true)];
    let id = c.create_multi_party_escrow(0, CUSTOMER, ps, 10000, TOKEN, 1000).unwrap();
    c.approve_release(11, id).unwrap();
    let e = c.get_multi_party_escrow(id).unwrap();
    assert_eq!(e.approvals.len(), 1);
    assert_eq!(e.approvals[0], 11);
    c.approve_release(12, id).unwrap();
    assert_eq!(c.get_multi_party_escrow(id).unwrap().approvals.len(), 2);
}

#[test]
fn test_release_multi_party_escrow_success() {
    let mut c = EscrowContract::new();
    let ps = vec![
        participant(11, 5000, ParticipantRole::Merchant, true),
        participant(12, 3000, ParticipantRole::ServiceProvider, true),
        participant(13, 2000, ParticipantRole::Arbitrator, false),
    ];
    let id = c.create_multi_party_escrow(500, CUSTOMER, ps, 10000, TOKEN, 1000).unwrap();
    c.approve_release(11, id).unwrap();
    c.approve_release(12, id).unwrap();
    c.release_multi_party_escrow(1001, id).unwrap();
    assert_eq!(c.get_multi_party_escrow(id).unwrap().status, EscrowStatus::Released);
    let paid = |to: u64| -> i128 {
        c.transfers.iter().filter(|t| t.to == Party::Account(to)).map(|t| t.amount).sum()
    };
    assert_eq!(paid(11), 5000);
    assert_eq!(paid(12), 3000);
    assert_eq!(paid(13), 2000);
    let into_contract: i128 = c.transfers.iter().filter(|t| t.to == Party::Contract).map(|t| t.amount).sum();
    let out_of_contract: i128 = c.transfers.iter().filter(|t| t.from == Party::Contract).map(|t| t.amount).sum();
    assert_eq!(into_contract - out_of_contract, 0);
}

#[test]
#[should_panic]
fn test_release_multi_party_escrow_threshold_not_met() {
    let mut c = EscrowContract::new();
    let ps = vec![participant(11, 5000, ParticipantRole::Merchant, true), participant(12, 5000, ParticipantRole::ServiceProvider, true)];
    let id = c.create_multi_party_escrow(0, CUSTOMER, ps, 10000, TOKEN, 1000).unwrap();
    c.approve_release(11, id).unwrap();
    c.release_multi_party_escrow(1001, id).unwrap();
}

// ── multi-signature administration ──────────────────────────────────────────

#[test]
fn test_multisig_initialize() {
    let mut c = EscrowContract::new();
    c.initialize(ADMIN);
    let cfg = c.get_multisig_config();
    assert_eq!(cfg.total_admins, 1);
    assert_eq!(cfg.required_signatures, 1);
    assert!(cfg.admins.contains(&ADMIN));
}

#[test]
fn test_multisig_propose_release_escrow() {
    let mut c = EscrowContract::new();
    c.initialize(ADMIN);
    let id = c.create_escrow(2000, CUSTOMER, MERCHANT, 1000, TOKEN, 1000, 0);
    let proposal_id = c.propose_action(2000, ADMIN, ActionType::ReleaseEscrow, MERCHANT, action_data(id, 1)).unwrap();
    assert_eq!(proposal_id, "1");
}

#[test]
fn test_multisig_approve_and_execute() {
    let mut c = EscrowContract::new();
    c.initialize(ADMIN);
    let id = c.create_escrow(2000, CUSTOMER, MERCHANT, 1000, TOKEN, 1000, 0);
    let proposal_id = c.propose_action(2000, ADMIN, ActionType::ReleaseEscrow, MERCHANT, action_data(id, 1)).unwrap();
    c.execute_action(2000, proposal_id).unwrap();
    assert_eq!(c.get_escrow(id).status, EscrowStatus::Released);
}

#[test]
#[should_panic]
fn test_multisig_duplicate_approval_rejected() {
    let mut c = EscrowContract::new();
    let admin2 = 30;
    c.initialize(ADMIN);
    c.add_admin(ADMIN, admin2).unwrap();
    c.update_required_signatures(ADMIN, 2).unwrap();
    let proposal_id = c.propose_action(0, ADMIN, ActionType::ReleaseEscrow, admin2, vec![0u8; 9]).unwrap();
    c.approve_action(0, ADMIN, proposal_id).unwrap();
}

#[test]
fn test_multisig_proposal_expires() {
    let mut c = EscrowContract::new();
    let admin2 = 30;
    c.initialize(ADMIN);
    c.add_admin(ADMIN, admin2).unwrap();
    c.update_required_signatures(ADMIN, 2).unwrap();
    let proposal_id = c.propose_action(1000, ADMIN, ActionType::ReleaseEscrow, admin2, vec![0u8; 9]).unwrap();
    assert!(c.approve_action(1000 + 604801, admin2, proposal_id).is_err());
}

#[test]
#[should_panic]
fn test_multisig_threshold_not_met() {
    let mut c = EscrowContract::new();
    let admin2 = 30;
    c.initialize(ADMIN);
    c.add_admin(ADMIN, admin2).unwrap();
    c.update_required_signatures(ADMIN, 2).unwrap();
    let proposal_id = c.propose_action(0, ADMIN, ActionType::ReleaseEscrow, admin2, vec![0u8; 9]).unwrap();
    c.execute_action(0, proposal_id).unwrap();
}

#[test]
fn test_multisig_add_admin() {
    let mut c = EscrowContract::new();
    let new_admin = 30;
    c.initialize(ADMIN);
    c.add_admin(ADMIN, new_admin).unwrap();
    let cfg = c.get_multisig_config();
    assert_eq!(cfg.total_admins, 2);
    assert!(cfg.admins.contains(&new_admin));
}

#[test]
#[should_panic]
fn test_multisig_remove_admin_drops_below_threshold() {
    let mut c = EscrowContract::new();
    c.initialize(ADMIN);
    c.remove_admin(ADMIN, ADMIN).unwrap();
}

#[test]
fn test_multisig_reject_action() {
    let mut c = EscrowContract::new();
    let admin2 = 30;
    c.initialize(ADMIN);
    c.add_admin(ADMIN, admin2).unwrap();
    c.update_required_signatures(ADMIN, 2).unwrap();
    let proposal_id = c.propose_action(0, ADMIN, ActionType::ReleaseEscrow, admin2, vec![0u8; 9]).unwrap();
    c.reject_action(admin2, proposal_id.clone()).unwrap();
    assert!(c.execute_action(0, proposal_id).is_err());
}

#[test]
fn test_multisig_resolve_dispute_via_proposal() {
    let mut c = EscrowContract::new();
    c.initialize(ADMIN);
    let id = c.create_escrow(2000, CUSTOMER, MERCHANT, 1000, TOKEN, 5000, 0);
    c.dispute_escrow(2000, CUSTOMER, id).unwrap();
    let proposal_id = c.propose_action(2000, ADMIN, ActionType::ResolveDispute, CUSTOMER, action_data(id, 0)).unwrap();
    c.execute_action(2000, proposal_id).unwrap();
    assert_eq!(c.get_escrow(id).status, EscrowStatus::Resolved);
}

// The exact errors of refused escrow requests.
#[test]
fn escrow_errors_are_answered_exactly() {
    let mut c = EscrowContract::new();
    assert_eq!(c.release_escrow(0, ADMIN, 999, false), Err(Error::EscrowNotFound));
    let id = c.create_escrow(500, CUSTOMER, MERCHANT, 1000, TOKEN, 1000, 0);
    assert_eq!(c.release_escrow(500, ADMIN, id, false), Err(Error::ReleaseNotYetAvailable));
    assert_eq!(c.dispute_escrow(500, OTHER, id), Err(Error::Unauthorized));
    c.dispute_escrow(500, CUSTOMER, id).unwrap();
    assert_eq!(c.release_escrow(500, ADMIN, id, false), Err(Error::InvalidStatus));
    assert_eq!(c.dispute_escrow(500, MERCHANT, id), Err(Error::AlreadyProcessed));
}

#[test]
fn dispute_resolution_pays_the_winner() {
    let payout = |to: u64, amount: i128| TokenTransfer {
        token: TOKEN,
        from: Party::Contract,
        to: Party::Account(to),
        amount,
        mode: TransferMode::IfTokenContract,
    };
    let mut c = EscrowContract::new();
    let id = c.create_escrow(0, CUSTOMER, MERCHANT, 1000, TOKEN, 9999, 0);
    c.dispute_escrow(0, CUSTOMER, id).unwrap();
    c.resolve_dispute(0, ADMIN, id, false).unwrap();
    assert_eq!(c.transfers, vec![payout(CUSTOMER, 1000)]);

    let id2 = c.create_escrow(0, CUSTOMER, MERCHANT, 300, TOKEN, 9999, 0);
    c.dispute_escrow(0, MERCHANT, id2).unwrap();
    c.resolve_dispute(0, ADMIN, id2, true).unwrap();
    assert_eq!(c.transfers.last(), Some(&payout(MERCHANT, 300)));

    // Without evidence the customer wins an automatic resolution.
    let id3 = c.create_escrow(0, CUSTOMER, MERCHANT, 40, TOKEN, 9999, 0);
    c.dispute_escrow(10, CUSTOMER, id3).unwrap();
    assert_eq!(c.auto_resolve_dispute(509, id3), Err(Error::TimeoutNotReached));
    c.auto_resolve_dispute(510, id3).unwrap();
    assert_eq!(c.transfers.last(), Some(&payout(CUSTOMER, 40)));
    assert_eq!(c.transfers.len(), 3);
}
