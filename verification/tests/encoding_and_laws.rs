use escrow_payments::encoding::{read_u64_from_bytes, u64_to_string};
use escrow_payments::escrow::state::EscrowContract;
use escrow_payments::escrow::types::{Error, Participant, ParticipantRole, VestingMilestone};
use escrow_payments::ledger::Party;
use escrow_payments::payment::state::PaymentContract;
use escrow_payments::payment::types::{Currency, Error as PaymentError, SubscriptionStatus};

#[test]
fn decimal_notation() {
    assert_eq!(u64_to_string(0), "0");
    assert_eq!(u64_to_string(7), "7");
    assert_eq!(u64_to_string(10), "10");
    assert_eq!(u64_to_string(1234567890), "1234567890");
    assert_eq!(u64_to_string(u64::MAX), "18446744073709551615");
    assert_ne!(u64_to_string(12), u64_to_string(21));
}

#[test]
fn big_endian_words() {
    let data: Vec<u8> = vec![0, 0, 0, 0, 0, 0, 1, 2, 9];
    assert_eq!(read_u64_from_bytes(&data, 0), 0x0102);
    assert_eq!(read_u64_from_bytes(&data, 1), 0x010209);
    // Bytes past the end count as zero.
    assert_eq!(read_u64_from_bytes(&vec![0xff], 0), 0xff00_0000_0000_0000);
    assert_eq!(read_u64_from_bytes(&Vec::new(), 3), 0);
}

#[test]
fn proposal_ids_differ() {
    let mut c = EscrowContract::new();
    c.initialize(3);
    let a = c.propose_action(0, 3, escrow_payments::escrow::types::ActionType::AddAdmin, 9, Vec::new()).unwrap();
    let b = c.propose_action(0, 3, escrow_payments::escrow::types::ActionType::AddAdmin, 9, Vec::new()).unwrap();
    assert_eq!(a, "1");
    assert_eq!(b, "2");
}

#[test]
fn released_escrow_is_final() {
    let mut c = EscrowContract::new();
    let id = c.create_escrow(10, 1, 2, 100, 4, 0, 0);
    c.release_escrow(10, 3, id, false).unwrap();
    assert_eq!(c.release_escrow(20, 3, id, true), Err(Error::AlreadyProcessed));
    assert_eq!(c.refund_escrow(1, id), Err(Error::AlreadyProcessed));
    assert_eq!(c.dispute_escrow(20, 2, id), Err(Error::AlreadyProcessed));
}

#[test]
fn vested_amount_never_decreases() {
    let mut c = EscrowContract::new();
    let id = c.create_vesting_escrow(0, 1, 2, 999, 4, 100, 1100, Vec::new()).unwrap();
    let mut last = 0;
    for t in (0..1300).step_by(37) {
        let v = c.get_vested_amount(t, id);
        assert!(0 <= v && v <= 999);
        assert!(last <= v);
        last = v;
    }
    assert_eq!(c.get_vested_amount(1100, id), 999);
    // Halfway through, rounded down.
    assert_eq!(c.get_vested_amount(600, id), 499);
}

#[test]
fn a_release_takes_all_that_vested() {
    let mut c = EscrowContract::new();
    let ms = vec![
        VestingMilestone { unlock_timestamp: 200, amount: 40, released: false, description: String::from("a") },
        VestingMilestone { unlock_timestamp: 300, amount: 60, released: false, description: String::from("b") },
    ];
    let id = c.create_vesting_escrow(0, 1, 2, 100, 4, 100, 300, ms).unwrap();
    assert_eq!(c.release_vested_amount(250, 3, id), Ok(40));
    assert_eq!(c.release_vested_amount(250, 3, id), Err(Error::InsufficientVestedAmount));
    let s = c.get_vesting_schedule(id).unwrap();
    assert!(s.milestones[0].released);
    assert!(!s.milestones[1].released);
}

#[test]
fn multi_party_payouts_stay_within_total() {
    let mut c = EscrowContract::new();
    let ps = vec![
        Participant { address: 11, share_bps: 3333, role: ParticipantRole::Merchant, required_approval: true },
        Participant { address: 12, share_bps: 3333, role: ParticipantRole::Custom(String::from("x")), required_approval: false },
        Participant { address: 13, share_bps: 3334, role: ParticipantRole::Arbitrator, required_approval: false },
    ];
    let id = c.create_multi_party_escrow(0, 1, ps, 100, 4, 0).unwrap();
    c.approve_release(11, id).unwrap();
    assert_eq!(c.approve_release(11, id), Err(Error::DuplicateApproval));
    assert_eq!(c.approve_release(12, id), Err(Error::Unauthorized));
    c.release_multi_party_escrow(0, id).unwrap();
    let paid: i128 = c.transfers.iter().filter(|t| t.from == Party::Contract).map(|t| t.amount).sum();
    assert_eq!(paid, 99);
    assert!(paid <= 100);
}

#[test]
fn reputation_stays_in_range() {
    let mut c = EscrowContract::new();
    for _ in 0..60 {
        let id = c.create_escrow(0, 1, 2, 1, 4, 0, 0);
        c.release_escrow(0, 3, id, false).unwrap();
    }
    assert_eq!(c.get_reputation(2).score, 10000);
    assert_eq!(c.get_reputation(1).total_transactions, 60);
}

#[test]
fn no_double_collection_of_a_subscription() {
    let mut c = PaymentContract::new();
    c.initialize(3);
    let id = c.create_subscription(0, 1, 2, 10, 4, Currency::USDC, 50, 0, 0, String::new()).unwrap();
    assert_eq!(c.execute_recurring_payment(50, id, true), Ok(()));
    assert_eq!(c.recurring_charge(50, id), None);
    assert_eq!(c.execute_recurring_payment(50, id, true), Err(PaymentError::PaymentNotDue));
    assert_eq!(c.get_subscription(id).status, SubscriptionStatus::Active);
    assert_eq!(c.get_subscription(id).payment_count, 1);
}
