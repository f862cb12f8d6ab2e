use escrow_payments::ledger::{Party, TokenTransfer, TransferMode};
use escrow_payments::payment::state::PaymentContract;
use escrow_payments::payment::types::{
    Currency, DunningConfig, Error, PaymentEvent, PaymentStatus, RateLimitConfig, SubscriptionStatus,
};

const CUSTOMER: u64 = 1;
const MERCHANT: u64 = 2;
const ADMIN: u64 = 3;
const TOKEN: u64 = 4;
const OTHER: u64 = 5;
const ESCROW: u64 = 6;

fn contract() -> PaymentContract {
    let mut c = PaymentContract::new();
    c.initialize(ADMIN);
    c
}

fn pay(c: &mut PaymentContract, now: u64, amount: i128, expiration: u64) -> Result<u64, Error> {
    c.create_payment(now, CUSTOMER, MERCHANT, amount, TOKEN, Currency::USDC, expiration, String::from("order"))
}

fn subscribe(c: &mut PaymentContract, now: u64, interval: u64, duration: u64) -> u64 {
    c.create_subscription(now, CUSTOMER, MERCHANT, 500, TOKEN, Currency::XLM, interval, duration, 0, String::from("plan"))
        .unwrap()
}

// ── one-off payments ────────────────────────────────────────────────────────

#[test]
fn payment_ids_count_up_and_are_listed() {
    let mut c = contract();
    assert_eq!(pay(&mut c, 100, 1000, 0), Ok(1));
    assert_eq!(pay(&mut c, 100, 2000, 0), Ok(2));
    let p = c.get_payment(2);
    assert_eq!(p.amount, 2000);
    assert_eq!(p.status, PaymentStatus::Pending);
    assert_eq!(p.created_at, 100);
    assert_eq!(p.expires_at, 0);
    assert_eq!(p.refunded_amount, 0);
    assert_eq!(c.get_payment_count_by_customer(CUSTOMER), 2);
    assert_eq!(c.get_payment_count_by_merchant(MERCHANT), 2);
    assert_eq!(c.get_payment_count_by_customer(OTHER), 0);
    let page = c.get_payments_by_customer(CUSTOMER, 1, 1);
    assert_eq!(page.len(), 1);
    assert_eq!(page[0].id, 2);
    assert_eq!(c.get_payments_by_merchant(MERCHANT, 10, 0).len(), 2);
    assert_eq!(c.get_payments_by_merchant(MERCHANT, 10, 5).len(), 0);
}

#[test]
fn payment_metadata_is_limited_to_512_bytes() {
    let mut c = contract();
    let long = "x".repeat(513);
    let r = c.create_payment(0, CUSTOMER, MERCHANT, 10, TOKEN, Currency::BTC, 0, long);
    assert_eq!(r, Err(Error::MetadataTooLarge));
    let fits = "x".repeat(512);
    assert!(c.create_payment(0, CUSTOMER, MERCHANT, 10, TOKEN, Currency::BTC, 0, fits).is_ok());
}

#[test]
fn payment_expiry() {
    let mut c = contract();
    let id = pay(&mut c, 100, 1000, 50).unwrap();
    assert_eq!(c.get_payment(id).expires_at, 150);
    assert!(!c.is_payment_expired(150, id));
    assert!(c.is_payment_expired(151, id));
    assert_eq!(c.expire_payment(150, id), Err(Error::NotExpired));
    assert_eq!(c.complete_payment(151, ADMIN, id), Err(Error::PaymentExpired));
    assert_eq!(c.expire_payment(151, id), Ok(()));
    assert_eq!(c.get_payment(id).status, PaymentStatus::Cancelled);
    let forever = pay(&mut c, 100, 1000, 0).unwrap();
    assert_eq!(c.expire_payment(1_000_000, forever), Err(Error::NoExpiration));
    assert_eq!(c.expire_payment(0, 99), Err(Error::PaymentNotFound));
}

#[test]
fn payment_completion_moves_the_funds_once() {
    let mut c = contract();
    let id = pay(&mut c, 0, 1000, 0).unwrap();
    assert_eq!(c.complete_payment(0, OTHER, id), Err(Error::Unauthorized));
    assert_eq!(c.complete_payment(0, ADMIN, id), Ok(()));
    assert_eq!(c.get_payment(id).status, PaymentStatus::Completed);
    assert_eq!(
        c.transfers,
        vec![TokenTransfer {
            token: TOKEN,
            from: Party::Account(CUSTOMER),
            to: Party::Account(MERCHANT),
            amount: 1000,
            mode: TransferMode::TransferFrom,
        }]
    );
    assert_eq!(c.complete_payment(0, ADMIN, id), Err(Error::AlreadyProcessed));
    assert_eq!(c.refund_payment(0, ADMIN, id), Err(Error::InvalidStatus));
    assert_eq!(c.cancel_payment(0, CUSTOMER, id), Err(Error::InvalidStatus));
    assert_eq!(c.transfers.len(), 1);
}

#[test]
fn payment_refunds() {
    let mut c = contract();
    let id = pay(&mut c, 0, 1000, 0).unwrap();
    assert_eq!(c.partial_refund(0, ADMIN, id, 400), Ok(()));
    assert_eq!(c.get_payment(id).status, PaymentStatus::PartialRefunded);
    assert_eq!(c.get_payment(id).refunded_amount, 400);
    assert_eq!(c.partial_refund(0, ADMIN, id, 601), Err(Error::RefundExceedsPayment));
    assert_eq!(c.partial_refund(0, ADMIN, id, 600), Ok(()));
    assert_eq!(c.get_payment(id).status, PaymentStatus::Refunded);
    assert_eq!(c.get_payment(id).refunded_amount, 1000);
    assert_eq!(c.partial_refund(0, ADMIN, id, 1), Err(Error::InvalidStatus));
    let full = pay(&mut c, 0, 300, 0).unwrap();
    assert_eq!(c.refund_payment(0, ADMIN, full), Ok(()));
    assert_eq!(c.refund_payment(0, ADMIN, full), Err(Error::AlreadyProcessed));
}

#[test]
fn payment_cancellation_and_notes() {
    let mut c = contract();
    let id = pay(&mut c, 0, 1000, 0).unwrap();
    assert_eq!(c.cancel_payment(5, OTHER, id), Err(Error::Unauthorized));
    assert_eq!(c.update_payment_notes(CUSTOMER, id, String::from("n")), Err(Error::Unauthorized));
    assert_eq!(c.update_payment_notes(MERCHANT, id, "y".repeat(1025)), Err(Error::NotesTooLarge));
    assert_eq!(c.update_payment_notes(MERCHANT, id, String::from("shipped")), Ok(()));
    assert_eq!(c.get_payment(id).notes, "shipped");
    assert_eq!(c.cancel_payment(5, MERCHANT, id), Ok(()));
    assert_eq!(c.get_payment(id).status, PaymentStatus::Cancelled);
    assert_eq!(c.cancel_payment(5, CUSTOMER, id), Err(Error::InvalidStatus));
}

#[test]
fn conversion_rates() {
    let mut c = contract();
    assert!(PaymentContract::is_valid_currency(&Currency::ETH));
    assert_eq!(c.get_conversion_rate(Currency::USDT), 10_000_000);
    assert_eq!(c.set_conversion_rate(OTHER, Currency::USDT, 5), Err(Error::Unauthorized));
    assert_eq!(c.set_conversion_rate(ADMIN, Currency::USDT, 9_990_000), Ok(()));
    assert_eq!(c.get_conversion_rate(Currency::USDT), 9_990_000);
    assert_eq!(c.get_conversion_rate(Currency::USDC), 10_000_000);
}

#[test]
fn escrowed_payments() {
    let mut c = contract();
    let r = c.create_escrowed_payment(0, CUSTOMER, MERCHANT, 700, TOKEN, Currency::USDC, ESCROW, String::from("m"), true, Some(77));
    assert_eq!(r, Ok((1, 77)));
    let b = c.get_escrowed_payment(1).unwrap();
    assert_eq!(b.escrow_id, 77);
    assert_eq!(b.escrow_contract, ESCROW);
    assert!(b.auto_release_on_complete);
    assert_eq!(
        c.transfers.last(),
        Some(&TokenTransfer {
            token: TOKEN,
            from: Party::Account(CUSTOMER),
            to: Party::Account(ESCROW),
            amount: 700,
            mode: TransferMode::TransferFrom,
        })
    );
    assert_eq!(c.complete_escrowed_payment(ADMIN, 1, false), Err(Error::EscrowBridgeFailed));
    assert_eq!(c.complete_escrowed_payment(ADMIN, 1, true), Ok(()));
    assert_eq!(c.get_payment(1).status, PaymentStatus::Completed);
    assert_eq!(c.cancel_escrowed_payment(CUSTOMER, 1, true), Err(Error::InvalidStatus));
    let failed = c.create_escrowed_payment(0, CUSTOMER, MERCHANT, 700, TOKEN, Currency::USDC, ESCROW, String::from("m"), false, None);
    assert_eq!(failed, Err(Error::EscrowBridgeFailed));
    assert_eq!(c.get_escrowed_payment(2), Err(Error::EscrowMappingNotFound));
    let r = c.create_escrowed_payment(0, CUSTOMER, MERCHANT, 50, TOKEN, Currency::USDC, ESCROW, String::from("m"), false, Some(78));
    assert_eq!(r, Ok((3, 78)));
    assert_eq!(c.cancel_escrowed_payment(OTHER, 3, true), Err(Error::Unauthorized));
    assert_eq!(c.cancel_escrowed_payment(MERCHANT, 3, true), Ok(()));
    assert_eq!(c.get_payment(3).status, PaymentStatus::Cancelled);
}

// ── rate limits ─────────────────────────────────────────────────────────────

#[test]
fn rate_limit_on_payments_per_window() {
    let mut c = contract();
    let cfg = RateLimitConfig { max_payments_per_window: 2, window_duration: 3600, max_payment_amount: 0, max_daily_volume: 0 };
    assert_eq!(c.set_rate_limit_config(OTHER, cfg), Err(Error::Unauthorized));
    c.set_rate_limit_config(ADMIN, cfg).unwrap();
    assert_eq!(c.get_rate_limit_config(), cfg);
    assert!(pay(&mut c, 1000, 10, 0).is_ok());
    assert!(pay(&mut c, 1100, 10, 0).is_ok());
    assert_eq!(c.get_address_rate_limit(CUSTOMER).payment_count, 2);
    assert_eq!(pay(&mut c, 1200, 10, 0), Err(Error::RateLimitExceeded));
    assert!(matches!(c.events.last(), Some(PaymentEvent::RateLimitBreached(e)) if e.address == CUSTOMER && e.payment_count == 2));
    // The window rolls over an hour after it started.
    assert!(pay(&mut c, 4600, 10, 0).is_ok());
    assert_eq!(c.get_address_rate_limit(CUSTOMER).payment_count, 1);
    assert_eq!(c.get_address_rate_limit(CUSTOMER).window_start, 4600);
}

#[test]
fn rate_limit_on_amount_volume_and_flags() {
    let mut c = contract();
    let cfg = RateLimitConfig { max_payments_per_window: 0, window_duration: 0, max_payment_amount: 500, max_daily_volume: 800 };
    c.set_rate_limit_config(ADMIN, cfg).unwrap();
    assert_eq!(pay(&mut c, 1000, 501, 0), Err(Error::AmountExceedsLimit));
    assert!(pay(&mut c, 1000, 500, 0).is_ok());
    assert_eq!(pay(&mut c, 2000, 301, 0), Err(Error::DailyVolumeExceeded));
    assert!(pay(&mut c, 2000, 300, 0).is_ok());
    assert_eq!(c.get_address_rate_limit(CUSTOMER).daily_volume, 800);
    // The next calendar day starts a new volume.
    assert!(pay(&mut c, 86400 + 10, 500, 0).is_ok());
    assert_eq!(c.get_address_rate_limit(CUSTOMER).daily_volume, 500);
    c.flag_address(ADMIN, CUSTOMER, String::from("chargebacks")).unwrap();
    assert!(c.get_address_rate_limit(CUSTOMER).flagged);
    assert_eq!(pay(&mut c, 90000, 1, 0), Err(Error::AddressFlagged));
    c.unflag_address(ADMIN, CUSTOMER).unwrap();
    assert!(pay(&mut c, 90000, 1, 0).is_ok());
}

// ── subscriptions ───────────────────────────────────────────────────────────

#[test]
fn subscription_creation() {
    let mut c = contract();
    let id = subscribe(&mut c, 1000, 100, 1000);
    assert_eq!(id, 1);
    let s = c.get_subscription(id);
    assert_eq!(s.status, SubscriptionStatus::Active);
    assert_eq!(s.next_payment_at, 1100);
    assert_eq!(s.ends_at, 2000);
    assert_eq!(s.max_retries, 3);
    let forever = c
        .create_subscription(0, CUSTOMER, OTHER, 1, TOKEN, Currency::XLM, 10, 0, 7, String::new())
        .unwrap();
    assert_eq!(c.get_subscription(forever).ends_at, 0);
    assert_eq!(c.get_subscription(forever).max_retries, 7);
    assert_eq!(c.get_subscriptions_by_customer(CUSTOMER, 10, 0).len(), 2);
    assert_eq!(c.get_subscriptions_by_merchant(MERCHANT, 10, 0)[0].id, 1);
    assert_eq!(c.get_subscriptions_by_merchant(OTHER, 10, 0)[0].id, 2);
    let r = c.create_subscription(0, CUSTOMER, OTHER, 1, TOKEN, Currency::XLM, 10, 0, 0, "z".repeat(513));
    assert_eq!(r, Err(Error::MetadataTooLarge));
}

#[test]
fn subscription_collection_on_schedule() {
    let mut c = contract();
    let id = subscribe(&mut c, 1000, 100, 250);
    assert_eq!(c.recurring_charge(1099, id), None);
    assert_eq!(c.execute_recurring_payment(1099, id, true), Err(Error::PaymentNotDue));
    assert_eq!(
        c.recurring_charge(1100, id),
        Some(TokenTransfer {
            token: TOKEN,
            from: Party::Account(CUSTOMER),
            to: Party::Account(MERCHANT),
            amount: 500,
            mode: TransferMode::TransferFrom,
        })
    );
    assert_eq!(c.execute_recurring_payment(1100, id, true), Ok(()));
    let s = c.get_subscription(id);
    assert_eq!(s.payment_count, 1);
    assert_eq!(s.next_payment_at, 1200);
    assert_eq!(s.status, SubscriptionStatus::Active);
    // The next payment would fall due at or past the end: the subscription expires.
    assert_eq!(c.execute_recurring_payment(1200, id, true), Ok(()));
    assert_eq!(c.get_subscription(id).status, SubscriptionStatus::Expired);
    assert_eq!(c.execute_recurring_payment(1300, id, true), Err(Error::SubscriptionNotActive));
}

#[test]
fn subscription_ended_is_marked_expired() {
    let mut c = contract();
    let id = subscribe(&mut c, 0, 100, 150);
    assert_eq!(c.execute_recurring_payment(150, id, true), Err(Error::SubscriptionEnded));
    assert_eq!(c.get_subscription(id).status, SubscriptionStatus::Expired);
    assert_eq!(c.execute_recurring_payment(150, 42, true), Err(Error::SubscriptionNotFound));
}

#[test]
fn subscription_pause_resume_cancel() {
    let mut c = contract();
    let id = subscribe(&mut c, 0, 100, 0);
    assert_eq!(c.pause_subscription(MERCHANT, id), Err(Error::Unauthorized));
    assert_eq!(c.pause_subscription(CUSTOMER, id), Ok(()));
    assert_eq!(c.recurring_charge(500, id), None);
    assert_eq!(c.execute_recurring_payment(500, id, true), Err(Error::SubscriptionNotActive));
    assert_eq!(c.pause_subscription(CUSTOMER, id), Err(Error::SubscriptionNotActive));
    assert_eq!(c.resume_subscription(700, CUSTOMER, id), Ok(()));
    assert_eq!(c.get_subscription(id).next_payment_at, 800);
    assert_eq!(c.resume_subscription(700, CUSTOMER, id), Err(Error::InvalidStatus));
    assert_eq!(c.execute_recurring_payment(700, id, true), Err(Error::PaymentNotDue));
    assert_eq!(c.cancel_subscription(OTHER, id), Err(Error::Unauthorized));
    assert_eq!(c.cancel_subscription(ADMIN, id), Ok(()));
    assert_eq!(c.get_subscription(id).status, SubscriptionStatus::Cancelled);
    assert_eq!(c.cancel_subscription(CUSTOMER, id), Err(Error::InvalidStatus));
}

// ── dunning ─────────────────────────────────────────────────────────────────

#[test]
fn dunning_default_configuration() {
    let c = contract();
    let cfg = c.get_dunning_config();
    assert_eq!(cfg.grace_period, 604800);
    assert_eq!(cfg.retry_intervals, vec![3600, 21600, 86400, 259200]);
    assert_eq!(cfg.max_dunning_attempts, 5);
    assert_eq!(cfg.suspend_after_attempts, 4);
}

#[test]
fn failed_collection_enters_dunning() {
    let mut c = contract();
    let id = subscribe(&mut c, 0, 100, 0);
    assert_eq!(c.execute_recurring_payment(100, id, false), Err(Error::TransferFailed));
    assert_eq!(c.get_subscription(id).status, SubscriptionStatus::InDunning);
    let ds = c.get_dunning_state(id).unwrap();
    assert_eq!(ds.attempts, 1);
    assert_eq!(ds.next_retry_at, 3700);
    assert_eq!(ds.grace_period_ends_at, 604900);
    assert!(!ds.suspended);
    assert_eq!(ds.last_failure_reason, "Payment transfer failed");
    assert!(matches!(&c.events[c.events.len() - 2], PaymentEvent::SubscriptionEnteredDunning(e) if e.attempt == 1 && e.next_retry_at == 3700));
    assert!(matches!(c.events.last(), Some(PaymentEvent::RecurringPaymentFailed(e)) if e.retry_count == 1));
    assert_eq!(c.execute_recurring_payment(200, id, true), Err(Error::SubscriptionNotActive));
    assert_eq!(c.retry_charge(3699, id), None);
    assert_eq!(c.retry_failed_payment(3699, id, true), Err(Error::RetryNotDue));
    assert!(c.retry_charge(3700, id).is_some());
    assert_eq!(c.retry_failed_payment(3700, id, true), Ok(()));
    let s = c.get_subscription(id);
    assert_eq!(s.status, SubscriptionStatus::Active);
    assert_eq!(s.payment_count, 1);
    assert_eq!(s.next_payment_at, 3800);
    assert_eq!(c.get_dunning_state(id), None);
}

#[test]
fn dunning_suspends_after_configured_attempts() {
    let mut c = contract();
    let cfg = DunningConfig { grace_period: 10_000, retry_intervals: vec![10], max_dunning_attempts: 4, suspend_after_attempts: 2 };
    assert_eq!(c.set_dunning_config(OTHER, cfg.clone()), Err(Error::Unauthorized));
    c.set_dunning_config(ADMIN, cfg).unwrap();
    let id = subscribe(&mut c, 0, 100, 0);
    c.execute_recurring_payment(100, id, false).unwrap_err();
    assert_eq!(c.get_dunning_state(id).unwrap().next_retry_at, 110);
    assert_eq!(c.get_dunning_state(id).unwrap().grace_period_ends_at, 10_100);
    // The second attempt reaches the suspension threshold.
    assert_eq!(c.retry_failed_payment(110, id, false), Err(Error::TransferFailed));
    assert_eq!(c.get_subscription(id).status, SubscriptionStatus::Suspended);
    let ds = c.get_dunning_state(id).unwrap();
    assert!(ds.suspended);
    assert_eq!(ds.attempts, 2);
    assert!(matches!(c.events.last(), Some(PaymentEvent::DunningRetryScheduled(e)) if e.retry_at == 110));
    assert!(matches!(&c.events[c.events.len() - 2], PaymentEvent::SubscriptionSuspended(e) if e.reason == "Suspend threshold reached"));
    // A suspended subscription is not retried; the admin resolves it.
    assert_eq!(c.retry_failed_payment(200, id, true), Err(Error::SubscriptionNotInDunning));
    assert_eq!(c.resolve_dunning(500, OTHER, id), Err(Error::Unauthorized));
    assert_eq!(c.resolve_dunning(500, ADMIN, id), Ok(()));
    let s = c.get_subscription(id);
    assert_eq!(s.status, SubscriptionStatus::Active);
    assert_eq!(s.next_payment_at, 600);
    assert_eq!(c.get_dunning_state(id), None);
    assert_eq!(c.resolve_dunning(500, ADMIN, id), Err(Error::SubscriptionNotInDunning));
}

#[test]
fn dunning_retry_below_thresholds_changes_nothing() {
    let mut c = contract();
    let id = subscribe(&mut c, 0, 100, 0);
    c.execute_recurring_payment(100, id, false).unwrap_err();
    let events = c.events.len();
    assert_eq!(c.retry_failed_payment(3700, id, false), Err(Error::TransferFailed));
    assert_eq!(c.get_dunning_state(id).unwrap().attempts, 1);
    assert_eq!(c.get_subscription(id).status, SubscriptionStatus::InDunning);
    assert_eq!(c.events.len(), events);
}

#[test]
fn dunning_gives_up_at_max_attempts_or_after_grace() {
    let mut c = contract();
    let cfg = DunningConfig { grace_period: 604800, retry_intervals: vec![], max_dunning_attempts: 2, suspend_after_attempts: 2 };
    c.set_dunning_config(ADMIN, cfg).unwrap();
    let id = subscribe(&mut c, 0, 100, 0);
    c.execute_recurring_payment(100, id, false).unwrap_err();
    assert_eq!(c.get_dunning_state(id).unwrap().next_retry_at, 3700);
    assert_eq!(c.retry_failed_payment(3700, id, false), Err(Error::MaxRetriesExceeded));
    assert_eq!(c.get_subscription(id).status, SubscriptionStatus::Suspended);
    assert_eq!(c.get_dunning_state(id).unwrap().attempts, 2);
    assert!(matches!(c.events.last(), Some(PaymentEvent::SubscriptionSuspended(e)) if e.reason == "Maximum dunning attempts exceeded"));

    let other = subscribe(&mut c, 0, 100, 0);
    c.execute_recurring_payment(100, other, false).unwrap_err();
    assert_eq!(c.retry_charge(604901, other), None);
    assert_eq!(c.retry_failed_payment(604901, other, true), Err(Error::GracePeriodExpired));
    assert_eq!(c.get_subscription(other).status, SubscriptionStatus::Suspended);
    assert!(c.get_dunning_state(other).unwrap().suspended);
    assert!(matches!(c.events.last(), Some(PaymentEvent::SubscriptionSuspended(e)) if e.reason == "Grace period expired"));
    assert_eq!(c.retry_failed_payment(604901, 99, true), Err(Error::SubscriptionNotFound));
}

#[test]
fn escrow_calls_are_owed_only_after_the_checks() {
    let mut c = contract();
    let call = c.escrow_creation_call(0, CUSTOMER, MERCHANT, 700, TOKEN, 1000, 60, &String::from("m")).unwrap();
    assert_eq!((call.customer, call.merchant, call.amount, call.token), (CUSTOMER, MERCHANT, 700, TOKEN));
    assert_eq!((call.release_timestamp, call.min_hold_period), (1000, 60));
    assert_eq!(c.escrow_creation_call(0, CUSTOMER, MERCHANT, 700, TOKEN, 1000, 60, &"m".repeat(513)), Err(Error::MetadataTooLarge));
    c.flag_address(ADMIN, CUSTOMER, String::from("fraud")).unwrap();
    c.set_rate_limit_config(ADMIN, RateLimitConfig { max_payments_per_window: 0, window_duration: 0, max_payment_amount: 0, max_daily_volume: 0 })
        .unwrap();
    assert_eq!(c.escrow_creation_call(0, CUSTOMER, MERCHANT, 700, TOKEN, 1000, 60, &String::from("m")), Err(Error::AddressFlagged));
    c.unflag_address(ADMIN, CUSTOMER).unwrap();
    c.create_escrowed_payment(0, CUSTOMER, MERCHANT, 700, TOKEN, Currency::USDC, ESCROW, String::from("m"), true, Some(77))
        .unwrap();
    let bridge = c.escrow_release_call(ADMIN, 1).unwrap();
    assert_eq!(bridge.escrow_id, 77);
    assert_eq!(c.escrow_release_call(OTHER, 1), Err(Error::Unauthorized));
    assert_eq!(c.escrow_release_call(ADMIN, 9), Err(Error::PaymentNotFound));
    assert_eq!(c.escrow_refund_call(OTHER, 1), Err(Error::Unauthorized));
    assert_eq!(c.escrow_refund_call(CUSTOMER, 1).unwrap().escrow_contract, ESCROW);
    let plain = pay(&mut c, 0, 5, 0).unwrap();
    assert_eq!(c.escrow_release_call(ADMIN, plain), Err(Error::EscrowMappingNotFound));
    assert_eq!(c.escrow_refund_call(CUSTOMER, plain), Err(Error::EscrowMappingNotFound));
    c.complete_escrowed_payment(ADMIN, 1, true).unwrap();
    assert_eq!(c.escrow_release_call(ADMIN, 1), Err(Error::InvalidStatus));
    assert_eq!(c.escrow_refund_call(CUSTOMER, 1), Err(Error::InvalidStatus));
}
