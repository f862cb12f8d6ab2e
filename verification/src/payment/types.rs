//! The records the payment contract keeps, its errors and the events it publishes.
use vstd::prelude::*;
use crate::ledger::Address;

verus! {

/// The currencies a payment may be denominated in.
#[derive(Clone, Copy, Debug, PartialEq, Eq, Structural)]
pub enum Currency {
    XLM,
    USDC,
    USDT,
    BTC,
    ETH,
}

/// Where a payment stands.
#[derive(Clone, Copy, Debug, PartialEq, Eq, Structural)]
pub enum PaymentStatus {
    Pending,
    Completed,
    Refunded,
    PartialRefunded,
    Cancelled,
}

/// Where a subscription stands.
#[derive(Clone, Copy, Debug, PartialEq, Eq, Structural)]
pub enum SubscriptionStatus {
    Active,
    Paused,
    Cancelled,
    Expired,
    InDunning,
    Suspended,
}

/// A recurring payment from a customer to a merchant.
#[derive(Clone, Debug, PartialEq, Eq)]
pub struct Subscription {
    pub id: u64,
    pub customer: Address,
    pub merchant: Address,
    pub amount: i128,
    pub token: Address,
    pub currency: Currency,
    /// Seconds between payments.
    pub interval: u64,
    /// Seconds the subscription lives, 0 for no end.
    pub duration: u64,
    pub status: SubscriptionStatus,
    pub created_at: u64,
    pub next_payment_at: u64,
    /// When the subscription ends, 0 for no end.
    pub ends_at: u64,
    /// Payments made so far.
    pub payment_count: u64,
    /// Consecutive failed attempts in the current cycle.
    pub retry_count: u64,
    pub max_retries: u64,
    pub metadata: String,
}

/// The payment contract's errors.
#[derive(Clone, Copy, Debug, PartialEq, Eq, Structural)]
pub enum Error {
    PaymentNotFound,
    InvalidStatus,
    AlreadyProcessed,
    Unauthorized,
    PaymentExpired,
    NotExpired,
    NoExpiration,
    TransferFailed,
    MetadataTooLarge,
    NotesTooLarge,
    InvalidCurrency,
    RefundExceedsPayment,
    SubscriptionNotFound,
    SubscriptionNotActive,
    PaymentNotDue,
    MaxRetriesExceeded,
    SubscriptionEnded,
    RateLimitExceeded,
    DailyVolumeExceeded,
    AddressFlagged,
    AmountExceedsLimit,
    DunningNotFound,
    SubscriptionNotInDunning,
    RetryNotDue,
    GracePeriodExpired,
    EscrowMappingNotFound,
    EscrowBridgeFailed,
}

/// The limits on the payments one address may create.
#[derive(Clone, Copy, Debug, PartialEq, Eq, Structural)]
pub struct RateLimitConfig {
    /// Payments per window, 0 for no limit.
    pub max_payments_per_window: u32,
    /// Seconds per window, 0 for a window that never rolls over.
    pub window_duration: u64,
    /// Largest single payment, 0 for no limit.
    pub max_payment_amount: i128,
    /// Largest volume per calendar day, 0 for no limit.
    pub max_daily_volume: i128,
}

/// What the rate limiting records of one address.
#[derive(Clone, Copy, Debug, PartialEq, Eq, Structural)]
pub struct AddressRateLimit {
    pub address: Address,
    pub payment_count: u32,
    pub window_start: u64,
    pub daily_volume: i128,
    pub last_payment_at: u64,
    pub flagged: bool,
}

/// How failed subscription payments are retried.
#[derive(Clone, Debug, PartialEq, Eq)]
pub struct DunningConfig {
    pub grace_period: u64,
    pub retry_intervals: Vec<u64>,
    pub max_dunning_attempts: u32,
    pub suspend_after_attempts: u32,
}

/// The retry state of a subscription whose payment failed.
#[derive(Clone, Debug, PartialEq, Eq)]
pub struct DunningState {
    pub subscription_id: u64,
    pub attempts: u32,
    pub next_retry_at: u64,
    pub grace_period_ends_at: u64,
    pub suspended: bool,
    pub last_failure_reason: String,
}

/// A one-off payment from a customer to a merchant.
#[derive(Clone, Debug, PartialEq, Eq)]
pub struct Payment {
    pub id: u64,
    pub customer: Address,
    pub merchant: Address,
    pub amount: i128,
    pub token: Address,
    pub currency: Currency,
    pub status: PaymentStatus,
    pub created_at: u64,
    /// When the payment expires, 0 for never.
    pub expires_at: u64,
    pub metadata: String,
    pub notes: String,
    pub refunded_amount: i128,
}

/// The escrow a payment's funds are held in.
#[derive(Clone, Copy, Debug, PartialEq, Eq, Structural)]
pub struct EscrowedPayment {
    pub payment_id: u64,
    pub escrow_id: u64,
    pub escrow_contract: Address,
    pub auto_release_on_complete: bool,
}

/// The request to the escrow contract to create the escrow that holds an
/// escrowed payment's funds.
#[derive(Clone, Copy, Debug, PartialEq, Eq, Structural)]
pub struct EscrowCreation {
    pub customer: Address,
    pub merchant: Address,
    pub amount: i128,
    pub token: Address,
    pub release_timestamp: u64,
    pub min_hold_period: u64,
}

/// A payment was created.
#[derive(Clone, Copy, Debug, PartialEq, Eq, Structural)]
pub struct PaymentCreated {
    pub payment_id: u64,
    pub customer: Address,
    pub merchant: Address,
    pub amount: i128,
}

/// A payment went to its merchant.
#[derive(Clone, Copy, Debug, PartialEq, Eq, Structural)]
pub struct PaymentCompleted {
    pub payment_id: u64,
    pub merchant: Address,
    pub amount: i128,
}

/// A payment was refunded in full or in part.
#[derive(Clone, Copy, Debug, PartialEq, Eq, Structural)]
pub struct PaymentRefunded {
    pub payment_id: u64,
    pub customer: Address,
    pub amount: i128,
}

/// A payment was cancelled.
#[derive(Clone, Copy, Debug, PartialEq, Eq, Structural)]
pub struct PaymentCancelled {
    pub payment_id: u64,
    pub cancelled_by: Address,
    pub timestamp: u64,
}

/// A payment expired.
#[derive(Clone, Copy, Debug, PartialEq, Eq, Structural)]
pub struct PaymentExpired {
    pub payment_id: u64,
    pub expiration_timestamp: u64,
}

/// A payment was created with its funds in an escrow.
#[derive(Clone, Copy, Debug, PartialEq, Eq, Structural)]
pub struct EscrowedPaymentCreated {
    pub payment_id: u64,
    pub escrow_id: u64,
    pub escrow_contract: Address,
}

/// An escrowed payment was completed.
#[derive(Clone, Copy, Debug, PartialEq, Eq, Structural)]
pub struct EscrowedPaymentCompleted {
    pub payment_id: u64,
    pub escrow_id: u64,
}

/// An escrowed payment was cancelled.
#[derive(Clone, Copy, Debug, PartialEq, Eq, Structural)]
pub struct EscrowedPaymentCancelled {
    pub payment_id: u64,
    pub escrow_id: u64,
}

/// A subscription was created.
#[derive(Clone, Copy, Debug, PartialEq, Eq, Structural)]
pub struct SubscriptionCreated {
    pub subscription_id: u64,
    pub customer: Address,
    pub merchant: Address,
    pub amount: i128,
    pub interval: u64,
}

/// A subscription payment was made.
#[derive(Clone, Copy, Debug, PartialEq, Eq, Structural)]
pub struct RecurringPaymentExecuted {
    pub subscription_id: u64,
    pub payment_count: u64,
    pub amount: i128,
    pub next_payment_at: u64,
}

/// A subscription payment failed.
#[derive(Clone, Copy, Debug, PartialEq, Eq, Structural)]
pub struct RecurringPaymentFailed {
    pub subscription_id: u64,
    pub retry_count: u64,
}

/// A subscription was cancelled.
#[derive(Clone, Copy, Debug, PartialEq, Eq, Structural)]
pub struct SubscriptionCancelled {
    pub subscription_id: u64,
    pub cancelled_by: Address,
}

/// A subscription was paused.
#[derive(Clone, Copy, Debug, PartialEq, Eq, Structural)]
pub struct SubscriptionPaused {
    pub subscription_id: u64,
}

/// A subscription was resumed.
#[derive(Clone, Copy, Debug, PartialEq, Eq, Structural)]
pub struct SubscriptionResumed {
    pub subscription_id: u64,
    pub next_payment_at: u64,
}

/// An address was flagged.
#[derive(Clone, Debug, PartialEq, Eq)]
pub struct AddressFlagged {
    pub address: Address,
    pub reason: String,
}

/// An address was unflagged.
#[derive(Clone, Copy, Debug, PartialEq, Eq, Structural)]
pub struct AddressUnflagged {
    pub address: Address,
}

/// An address reached its payment limit.
#[derive(Clone, Copy, Debug, PartialEq, Eq, Structural)]
pub struct RateLimitBreached {
    pub address: Address,
    pub payment_count: u32,
}

/// A subscription entered dunning.
#[derive(Clone, Copy, Debug, PartialEq, Eq, Structural)]
pub struct SubscriptionEnteredDunning {
    pub subscription_id: u64,
    pub attempt: u32,
    pub next_retry_at: u64,
}

/// A dunning retry was scheduled.
#[derive(Clone, Copy, Debug, PartialEq, Eq, Structural)]
pub struct DunningRetryScheduled {
    pub subscription_id: u64,
    pub retry_at: u64,
}

/// A subscription was suspended.
#[derive(Clone, Debug, PartialEq, Eq)]
pub struct SubscriptionSuspended {
    pub subscription_id: u64,
    pub reason: String,
}

/// An admin resolved a subscription's dunning.
#[derive(Clone, Copy, Debug, PartialEq, Eq, Structural)]
pub struct DunningResolved {
    pub subscription_id: u64,
    pub admin: Address,
}

/// The events the payment contract publishes, in the order it publishes them.
#[derive(Clone, Debug, PartialEq, Eq)]
pub enum PaymentEvent {
    PaymentCreated(PaymentCreated),
    PaymentCompleted(PaymentCompleted),
    PaymentRefunded(PaymentRefunded),
    PaymentCancelled(PaymentCancelled),
    PaymentExpired(PaymentExpired),
    EscrowedPaymentCreated(EscrowedPaymentCreated),
    EscrowedPaymentCompleted(EscrowedPaymentCompleted),
    EscrowedPaymentCancelled(EscrowedPaymentCancelled),
    SubscriptionCreated(SubscriptionCreated),
    RecurringPaymentExecuted(RecurringPaymentExecuted),
    RecurringPaymentFailed(RecurringPaymentFailed),
    SubscriptionCancelled(SubscriptionCancelled),
    SubscriptionPaused(SubscriptionPaused),
    SubscriptionResumed(SubscriptionResumed),
    AddressFlagged(AddressFlagged),
    AddressUnflagged(AddressUnflagged),
    RateLimitBreached(RateLimitBreached),
    SubscriptionEnteredDunning(SubscriptionEnteredDunning),
    DunningRetryScheduled(DunningRetryScheduled),
    SubscriptionSuspended(SubscriptionSuspended),
    DunningResolved(DunningResolved),
}

} // verus!
