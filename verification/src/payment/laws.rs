//! Properties of the payment contract that span its operations.
use vstd::prelude::*;
use crate::ledger::Address;
use crate::payment::types::{
    AddressRateLimit, Error, PaymentStatus, RateLimitConfig, Subscription, SubscriptionStatus,
};
use crate::payment::state::PaymentContract;
use crate::payment::payments::{
    cancel_outcome, complete_outcome, expire_outcome, partial_refund_outcome, refund_outcome,
};
use crate::payment::subscriptions::{
    cancel_subscription_outcome, pause_outcome, resume_outcome, subscription_stored,
};
use crate::payment::dunning::{
    after_collection, collection_due, collection_outcome, entered_dunning, first_retry_interval,
    resolve_outcome, retry_due, retry_outcome,
};
use crate::payment::rate_limit::{rate_limit_result, recorded};

verus! {

/// A payment that was completed, refunded in full or cancelled can be
/// neither completed, refunded, partly refunded, cancelled nor expired.
pub proof fn lemma_processed_payment_is_final(
    c: PaymentContract,
    id: u64,
    now: u64,
    admin: Address,
    caller: Address,
    refund: i128,
)
    requires
        c.book.payments@.contains_key(id),
        c.book.payments@[id].status == PaymentStatus::Completed
            || c.book.payments@[id].status == PaymentStatus::Refunded
            || c.book.payments@[id].status == PaymentStatus::Cancelled,
    ensures
        complete_outcome(c, now, admin, id) is Err,
        refund_outcome(c, now, admin, id) is Err,
        partial_refund_outcome(c, now, admin, id, refund) is Err,
        cancel_outcome(c, caller, id) is Err,
        expire_outcome(c, now, id) is Err,
{
}

/// The refunds of a payment never add up to more than its amount: a partial
/// refund is accepted only if they still do not.
pub proof fn lemma_refunds_within_amount(c: PaymentContract, now: u64, admin: Address, id: u64, refund: i128)
    requires
        partial_refund_outcome(c, now, admin, id, refund) is Ok,
    ensures
        c.book.payments@[id].refunded_amount + refund <= c.book.payments@[id].amount,
{
}

/// A collected payment is not collected twice: right after it, at the same
/// time, the next one is not due (the subscription has a positive interval).
pub proof fn lemma_no_double_collection(
    old: PaymentContract,
    new: PaymentContract,
    id: u64,
    now: u64,
    transfer_ok: bool,
)
    requires
        collection_outcome(old, now, id, true) is Ok,
        old.subscriptions.subscriptions@[id].interval > 0,
        now + old.subscriptions.subscriptions@[id].interval <= u64::MAX,
        subscription_stored(old, new, id, after_collection(old.subscriptions.subscriptions@[id], now)),
    ensures
        !collection_due(new, now, id),
        collection_outcome(new, now, id, transfer_ok) is Err,
{
}

/// A paused subscription is charged neither on schedule nor by a retry.
pub proof fn lemma_paused_subscription_is_not_charged(
    old: PaymentContract,
    new: PaymentContract,
    customer: Address,
    id: u64,
    later: u64,
    transfer_ok: bool,
)
    requires
        pause_outcome(old, customer, id) is Ok,
        subscription_stored(old, new, id, Subscription {
            status: SubscriptionStatus::Paused,
            ..old.subscriptions.subscriptions@[id]
        }),
    ensures
        !collection_due(new, later, id),
        collection_outcome(new, later, id, transfer_ok) == Err::<(), Error>(Error::SubscriptionNotActive),
        !retry_due(new, later, id),
{
}

/// A resumed subscription owes its next payment a full interval later: at
/// the time of resumption, none is due.
pub proof fn lemma_resumed_subscription_is_not_due(
    old: PaymentContract,
    new: PaymentContract,
    customer: Address,
    id: u64,
    now: u64,
    transfer_ok: bool,
)
    requires
        resume_outcome(old, customer, id) is Ok,
        old.subscriptions.subscriptions@[id].interval > 0,
        now + old.subscriptions.subscriptions@[id].interval <= u64::MAX,
        subscription_stored(old, new, id, Subscription {
            status: SubscriptionStatus::Active,
            next_payment_at: (now + old.subscriptions.subscriptions@[id].interval) as u64,
            ..old.subscriptions.subscriptions@[id]
        }),
        !(old.subscriptions.subscriptions@[id].ends_at > 0 && now >= old.subscriptions.subscriptions@[id].ends_at),
    ensures
        collection_outcome(new, now, id, transfer_ok) == Err::<(), Error>(Error::PaymentNotDue),
{
}

/// A cancelled subscription is never charged, and can be neither cancelled,
/// paused nor resumed again.
pub proof fn lemma_cancelled_subscription_is_final(
    old: PaymentContract,
    new: PaymentContract,
    caller: Address,
    id: u64,
    someone: Address,
    later: u64,
    transfer_ok: bool,
)
    requires
        cancel_subscription_outcome(old, caller, id) is Ok,
        subscription_stored(old, new, id, Subscription {
            status: SubscriptionStatus::Cancelled,
            ..old.subscriptions.subscriptions@[id]
        }),
    ensures
        collection_outcome(new, later, id, transfer_ok) is Err,
        !collection_due(new, later, id),
        !retry_due(new, later, id),
        cancel_subscription_outcome(new, someone, id) is Err,
        pause_outcome(new, someone, id) is Err,
        resume_outcome(new, someone, id) is Err,
{
}

/// After a failed collection the subscription is in dunning: it is not
/// charged on schedule any more, and its first retry waits the first retry
/// interval.
pub proof fn lemma_dunning_waits_before_retry(
    old: PaymentContract,
    new: PaymentContract,
    id: u64,
    now: u64,
    reason: Seq<char>,
    later: u64,
    transfer_ok: bool,
)
    requires
        collection_outcome(old, now, id, false) == Err::<(), Error>(Error::TransferFailed),
        subscription_stored(old, new, id, Subscription {
            status: SubscriptionStatus::InDunning,
            ..old.subscriptions.subscriptions@[id]
        }),
        new.subscriptions.dunning_states@.contains_key(id),
        entered_dunning(old, now, id, reason, new.subscriptions.dunning_states@[id]),
        now <= later < now + first_retry_interval(old),
    ensures
        collection_outcome(new, later, id, transfer_ok) == Err::<(), Error>(Error::SubscriptionNotActive),
        retry_outcome(new, later, id, transfer_ok) == Err::<(), Error>(Error::RetryNotDue),
{
}

/// Once the admin resolved a subscription's dunning, it is active again and
/// no longer in dunning: it is neither retried nor resolved again.
pub proof fn lemma_resolved_dunning_is_over(
    old: PaymentContract,
    new: PaymentContract,
    admin: Address,
    id: u64,
    now: u64,
    someone: Address,
    later: u64,
    transfer_ok: bool,
)
    requires
        resolve_outcome(old, admin, id) is Ok,
        subscription_stored(old, new, id, Subscription {
            status: SubscriptionStatus::Active,
            retry_count: 0,
            next_payment_at: (now + old.subscriptions.subscriptions@[id].interval) as u64,
            ..old.subscriptions.subscriptions@[id]
        }),
        new.subscriptions.dunning_states@ == old.subscriptions.dunning_states@.remove(id),
    ensures
        new.subscriptions.subscriptions@[id].status == SubscriptionStatus::Active,
        !new.subscriptions.dunning_states@.contains_key(id),
        retry_outcome(new, later, id, transfer_ok) == Err::<(), Error>(Error::SubscriptionNotInDunning),
        resolve_outcome(new, someone, id) is Err,
{
}

/// The rate limits hold: a flagged address is refused, and after a payment
/// they allow, the count of payments in the window and the day's volume stay
/// within their limits, where those are set.
pub proof fn lemma_rate_limits_hold(cfg: RateLimitConfig, r: AddressRateLimit, now: u64, amount: i128)
    ensures
        r.flagged ==> rate_limit_result(cfg, r, now, amount) == Err::<(), Error>(Error::AddressFlagged),
        rate_limit_result(cfg, r, now, amount) is Ok && cfg.max_payments_per_window > 0
            ==> recorded(cfg, r, now, amount).payment_count <= cfg.max_payments_per_window,
        rate_limit_result(cfg, r, now, amount) is Ok && cfg.max_daily_volume > 0
            ==> recorded(cfg, r, now, amount).daily_volume <= cfg.max_daily_volume,
        rate_limit_result(cfg, r, now, amount) is Ok && cfg.max_payment_amount > 0
            ==> amount <= cfg.max_payment_amount,
{
}

/// Only a pending payment is completed, refunded in full or cancelled; a
/// payment that was partly refunded is never completed, and an admin asking
/// to complete one before it expires is refused for its status.
pub proof fn lemma_only_pending_payments_complete(
    c: PaymentContract,
    now: u64,
    admin: Address,
    caller: Address,
    id: u64,
)
    ensures
        complete_outcome(c, now, admin, id) is Ok
            ==> c.book.payments@.contains_key(id) && c.book.payments@[id].status == PaymentStatus::Pending,
        refund_outcome(c, now, admin, id) is Ok
            ==> c.book.payments@.contains_key(id) && c.book.payments@[id].status == PaymentStatus::Pending,
        cancel_outcome(c, caller, id) is Ok
            ==> c.book.payments@.contains_key(id) && c.book.payments@[id].status == PaymentStatus::Pending,
        c.book.payments@.contains_key(id) && c.book.payments@[id].status == PaymentStatus::PartialRefunded
            ==> complete_outcome(c, now, admin, id) is Err,
        c.admin == Some(admin) && c.book.payments@.contains_key(id)
            && c.book.payments@[id].status == PaymentStatus::PartialRefunded
            && !(c.book.payments@[id].expires_at > 0 && now > c.book.payments@[id].expires_at)
            ==> complete_outcome(c, now, admin, id) == Err::<(), Error>(Error::InvalidStatus),
{
}

} // verus!
