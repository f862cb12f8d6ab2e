//! Collecting subscription payments, and the dunning that follows a failed
//! one: retries on a schedule, suspension, and resolution by the admin.
//!
//! A collection is attempted by the host: `recurring_charge` and
//! `retry_charge` name the transfer to attempt, if any, and the host hands
//! whether it succeeded to `execute_recurring_payment` or
//! `retry_failed_payment`.
use vstd::prelude::*;
use crate::ledger::{copy_addresses, Address, Party, TokenTransfer, TransferMode};
use crate::payment::types::{
    DunningConfig, DunningResolved, DunningRetryScheduled, DunningState, Error, PaymentEvent,
    RecurringPaymentExecuted, RecurringPaymentFailed, Subscription, SubscriptionEnteredDunning,
    SubscriptionStatus, SubscriptionSuspended,
};
use crate::payment::state::PaymentContract;
use crate::payment::subscriptions::{copy_subscription, subscription_stored};

verus! {

/// The grace period of the default dunning configuration: seven days.
pub const DEFAULT_GRACE_PERIOD: u64 = 604800;

/// The dunning attempts after which the default configuration gives up.
pub const DEFAULT_MAX_DUNNING_ATTEMPTS: u32 = 5;

/// The dunning attempts after which the default configuration suspends.
pub const DEFAULT_SUSPEND_AFTER_ATTEMPTS: u32 = 4;

/// The wait before the first retry when the configuration lists no interval.
pub const FALLBACK_RETRY_INTERVAL: u64 = 3600;

/// The retry intervals of the default configuration: an hour, six hours, a
/// day and three days.
pub open spec fn default_retry_intervals() -> Seq<u64> {
    seq![3600u64, 21600u64, 86400u64, 259200u64]
}

/// The grace period in force.
pub open spec fn grace_period_of(c: PaymentContract) -> u64 {
    match c.subscriptions.dunning_config {
        Some(cfg) => cfg.grace_period,
        None => DEFAULT_GRACE_PERIOD,
    }
}

/// The retry intervals in force.
pub open spec fn retry_intervals_of(c: PaymentContract) -> Seq<u64> {
    match c.subscriptions.dunning_config {
        Some(cfg) => cfg.retry_intervals@,
        None => default_retry_intervals(),
    }
}

/// The number of dunning attempts in force after which a subscription is given up.
pub open spec fn max_attempts_of(c: PaymentContract) -> u32 {
    match c.subscriptions.dunning_config {
        Some(cfg) => cfg.max_dunning_attempts,
        None => DEFAULT_MAX_DUNNING_ATTEMPTS,
    }
}

/// The number of dunning attempts in force after which a subscription is suspended.
pub open spec fn suspend_after_of(c: PaymentContract) -> u32 {
    match c.subscriptions.dunning_config {
        Some(cfg) => cfg.suspend_after_attempts,
        None => DEFAULT_SUSPEND_AFTER_ATTEMPTS,
    }
}

/// The wait before the first retry: the first interval in force, if any.
pub open spec fn first_retry_interval(c: PaymentContract) -> u64 {
    let iv = retry_intervals_of(c);
    if iv.len() > 0 { iv[0] } else { FALLBACK_RETRY_INTERVAL }
}

/// `s` after a payment collected at `now`: one more payment, no retries, the
/// next one due an interval later, and active unless that is at or past its end.
pub open spec fn after_collection(s: Subscription, now: u64) -> Subscription {
    let next = (now + s.interval) as u64;
    Subscription {
        payment_count: (s.payment_count + 1) as u64,
        retry_count: 0,
        next_payment_at: next,
        status: if s.ends_at > 0 && next >= s.ends_at { SubscriptionStatus::Expired } else { SubscriptionStatus::Active },
        ..s
    }
}

/// The event that publishes the collection of a payment that left subscription `s`.
pub open spec fn collected_event(id: u64, s: Subscription) -> PaymentEvent {
    PaymentEvent::RecurringPaymentExecuted(RecurringPaymentExecuted {
        subscription_id: id,
        payment_count: s.payment_count,
        amount: s.amount,
        next_payment_at: s.next_payment_at,
    })
}

/// Whether `ev` publishes that subscription `id` was suspended for `reason`.
pub open spec fn is_suspension(ev: PaymentEvent, id: u64, reason: Seq<char>) -> bool {
    ev matches PaymentEvent::SubscriptionSuspended(e) && e.subscription_id == id && e.reason@ == reason
}

/// The transfer that collects a payment of subscription `s`: its amount,
/// from its customer's allowance to its merchant.
pub open spec fn collection_transfer(s: Subscription) -> TokenTransfer {
    TokenTransfer {
        token: s.token,
        from: Party::Account(s.customer),
        to: Party::Account(s.merchant),
        amount: s.amount,
        mode: TransferMode::TransferFrom,
    }
}

/// Whether a scheduled payment of subscription `id` is to be attempted at
/// `now`: the subscription is active, has not ended, and the payment is due.
pub open spec fn collection_due(c: PaymentContract, now: u64, id: u64) -> bool {
    &&& c.subscriptions.subscriptions@.contains_key(id)
    &&& c.subscriptions.subscriptions@[id].status == SubscriptionStatus::Active
    &&& !(c.subscriptions.subscriptions@[id].ends_at > 0 && now >= c.subscriptions.subscriptions@[id].ends_at)
    &&& now >= c.subscriptions.subscriptions@[id].next_payment_at
}

/// What a scheduled payment of subscription `id` at `now` answers, given
/// whether the transfer, when attempted, succeeded.
pub open spec fn collection_outcome(c: PaymentContract, now: u64, id: u64, transfer_ok: bool) -> Result<(), Error> {
    if !c.subscriptions.subscriptions@.contains_key(id) {
        Err(Error::SubscriptionNotFound)
    } else {
        let s = c.subscriptions.subscriptions@[id];
        if s.status != SubscriptionStatus::Active {
            Err(Error::SubscriptionNotActive)
        } else if s.ends_at > 0 && now >= s.ends_at {
            Err(Error::SubscriptionEnded)
        } else if now < s.next_payment_at {
            Err(Error::PaymentNotDue)
        } else if transfer_ok {
            Ok(())
        } else {
            Err(Error::TransferFailed)
        }
    }
}

/// The numbers a scheduled payment of subscription `id` at `now` computes
/// fit their types.
pub open spec fn collection_fits(c: PaymentContract, now: u64, id: u64) -> bool {
    let s = c.subscriptions.subscriptions@[id];
    &&& now + s.interval <= u64::MAX
    &&& s.payment_count < u64::MAX
    &&& s.retry_count < u64::MAX
    &&& now + first_retry_interval(c) <= u64::MAX
    &&& now + grace_period_of(c) <= u64::MAX
}

/// The dunning state a subscription `id` enters at `now` for `reason`.
pub open spec fn entered_dunning(c: PaymentContract, now: u64, id: u64, reason: Seq<char>, ds: DunningState) -> bool {
    &&& ds.subscription_id == id
    &&& ds.attempts == 1
    &&& ds.next_retry_at == now + first_retry_interval(c)
    &&& ds.grace_period_ends_at == now + grace_period_of(c)
    &&& !ds.suspended
    &&& ds.last_failure_reason@ == reason
}

/// Whether a retry of subscription `id` is to be attempted at `now`: it is
/// in dunning, the retry is due, and the grace period has not run out.
pub open spec fn retry_due(c: PaymentContract, now: u64, id: u64) -> bool {
    &&& c.subscriptions.subscriptions@.contains_key(id)
    &&& c.subscriptions.subscriptions@[id].status == SubscriptionStatus::InDunning
    &&& c.subscriptions.dunning_states@.contains_key(id)
    &&& now >= c.subscriptions.dunning_states@[id].next_retry_at
    &&& now <= c.subscriptions.dunning_states@[id].grace_period_ends_at
}

/// What a retry of subscription `id` at `now` answers, given whether the
/// transfer, when attempted, succeeded.
pub open spec fn retry_outcome(c: PaymentContract, now: u64, id: u64, transfer_ok: bool) -> Result<(), Error> {
    if !c.subscriptions.subscriptions@.contains_key(id) {
        Err(Error::SubscriptionNotFound)
    } else if c.subscriptions.subscriptions@[id].status != SubscriptionStatus::InDunning {
        Err(Error::SubscriptionNotInDunning)
    } else if !c.subscriptions.dunning_states@.contains_key(id) {
        Err(Error::DunningNotFound)
    } else {
        let ds = c.subscriptions.dunning_states@[id];
        if now < ds.next_retry_at {
            Err(Error::RetryNotDue)
        } else if now > ds.grace_period_ends_at {
            Err(Error::GracePeriodExpired)
        } else if transfer_ok {
            Ok(())
        } else if ds.attempts + 1 >= max_attempts_of(c) {
            Err(Error::MaxRetriesExceeded)
        } else {
            Err(Error::TransferFailed)
        }
    }
}

/// The numbers a retry of subscription `id` at `now` computes fit their types.
pub open spec fn retry_fits(c: PaymentContract, now: u64, id: u64) -> bool {
    &&& now + c.subscriptions.subscriptions@[id].interval <= u64::MAX
    &&& c.subscriptions.subscriptions@[id].payment_count < u64::MAX
    &&& c.subscriptions.dunning_states@[id].attempts < u32::MAX
}

/// What a resolution of the dunning of subscription `id` by `admin` answers.
pub open spec fn resolve_outcome(c: PaymentContract, admin: Address, id: u64) -> Result<(), Error> {
    if c.admin != Some(admin) {
        Err(Error::Unauthorized)
    } else if !c.subscriptions.subscriptions@.contains_key(id) {
        Err(Error::SubscriptionNotFound)
    } else if c.subscriptions.subscriptions@[id].status != SubscriptionStatus::InDunning
        && c.subscriptions.subscriptions@[id].status != SubscriptionStatus::Suspended {
        Err(Error::SubscriptionNotInDunning)
    } else {
        Ok(())
    }
}

/// A copy of `d`.
pub fn copy_dunning_state(d: &DunningState) -> (r: DunningState)
    ensures
        r == *d,
{
    DunningState {
        subscription_id: d.subscription_id,
        attempts: d.attempts,
        next_retry_at: d.next_retry_at,
        grace_period_ends_at: d.grace_period_ends_at,
        suspended: d.suspended,
        last_failure_reason: d.last_failure_reason.clone(),
    }
}

impl PaymentContract {
    /// The admin sets the dunning configuration; the contract must have an admin.
    pub fn set_dunning_config(&mut self, admin: Address, config: DunningConfig) -> (r: Result<(), Error>)
        requires
            old(self).admin is Some,
        ensures
            r == match old(self).admin_error(admin) { Some(e) => Err::<(), Error>(e), None => Ok(()) },
            r is Err ==> *final(self) == *old(self),
            r is Ok ==> {
                &&& final(self).subscriptions.dunning_config == Some(config)
                &&& final(self).subscriptions.counter == old(self).subscriptions.counter
                &&& final(self).subscriptions.subscriptions == old(self).subscriptions.subscriptions
                &&& final(self).subscriptions.customer_subscriptions == old(self).subscriptions.customer_subscriptions
                &&& final(self).subscriptions.merchant_subscriptions == old(self).subscriptions.merchant_subscriptions
                &&& final(self).subscriptions.dunning_states == old(self).subscriptions.dunning_states
                &&& final(self).book == old(self).book
                &&& final(self).limits == old(self).limits
                &&& final(self).admin == old(self).admin
                &&& final(self).events == old(self).events
                &&& final(self).transfers == old(self).transfers
            },
    {
        if self.admin != Some(admin) {
            return Err(Error::Unauthorized);
        }
        self.subscriptions.dunning_config = Some(config);
        Ok(())
    }

    /// The dunning configuration in force: the one the admin set, or else a
    /// grace period of seven days, retries after an hour, six hours, a day and
    /// three days, suspension after 4 attempts and giving up after 5.
    pub fn get_dunning_config(&self) -> (r: DunningConfig)
        ensures
            r.grace_period == grace_period_of(*self),
            r.retry_intervals@ == retry_intervals_of(*self),
            r.max_dunning_attempts == max_attempts_of(*self),
            r.suspend_after_attempts == suspend_after_of(*self),
    {
        match &self.subscriptions.dunning_config {
            Some(cfg) => DunningConfig {
                grace_period: cfg.grace_period,
                retry_intervals: copy_addresses(&cfg.retry_intervals),
                max_dunning_attempts: cfg.max_dunning_attempts,
                suspend_after_attempts: cfg.suspend_after_attempts,
            },
            None => {
                let intervals: Vec<u64> = vec![3600, 21600, 86400, 259200];
                assert(intervals@ =~= default_retry_intervals());
                DunningConfig {
                    grace_period: DEFAULT_GRACE_PERIOD,
                    retry_intervals: intervals,
                    max_dunning_attempts: DEFAULT_MAX_DUNNING_ATTEMPTS,
                    suspend_after_attempts: DEFAULT_SUSPEND_AFTER_ATTEMPTS,
                }
            },
        }
    }

    /// The dunning state of subscription `subscription_id`, if it has one.
    pub fn get_dunning_state(&self, subscription_id: u64) -> (r: Option<DunningState>)
        ensures
            r == if self.subscriptions.dunning_states@.contains_key(subscription_id) {
                Some(self.subscriptions.dunning_states@[subscription_id])
            } else {
                None::<DunningState>
            },
    {
        match self.subscriptions.dunning_states.get(&subscription_id) {
            Some(d) => Some(copy_dunning_state(d)),
            None => None,
        }
    }

    /// The wait before the first retry under the configuration in force.
    fn first_retry_wait(&self) -> (r: u64)
        ensures
            r == first_retry_interval(*self),
    {
        match &self.subscriptions.dunning_config {
            Some(cfg) => {
                if cfg.retry_intervals.len() > 0 {
                    cfg.retry_intervals[0]
                } else {
                    FALLBACK_RETRY_INTERVAL
                }
            },
            None => 3600,
        }
    }

    /// Subscription `id`, which exists, enters dunning at `now` for `reason`:
    /// its first retry falls due after the first retry interval and its
    /// grace period starts.
    fn enter_dunning(&mut self, now: u64, id: u64, reason: String)
        requires
            old(self).wf(),
            old(self).subscriptions.subscriptions@.contains_key(id),
            now + first_retry_interval(*old(self)) <= u64::MAX,
            now + grace_period_of(*old(self)) <= u64::MAX,
        ensures
            final(self).wf(),
            subscription_stored(*old(self), *final(self), id, Subscription {
                status: SubscriptionStatus::InDunning,
                ..old(self).subscriptions.subscriptions@[id]
            }),
            final(self).subscriptions.dunning_states@.dom() == old(self).subscriptions.dunning_states@.dom().insert(id),
            forall|k: u64| k != id && old(self).subscriptions.dunning_states@.contains_key(k)
                ==> final(self).subscriptions.dunning_states@[k] == old(self).subscriptions.dunning_states@[k],
            entered_dunning(*old(self), now, id, reason@, final(self).subscriptions.dunning_states@[id]),
            final(self).events@ == old(self).events@.push(PaymentEvent::SubscriptionEnteredDunning(SubscriptionEnteredDunning {
                subscription_id: id,
                attempt: 1,
                next_retry_at: (now + first_retry_interval(*old(self))) as u64,
            })),
    {
        let first_interval = self.first_retry_wait();
        let grace = match &self.subscriptions.dunning_config {
            Some(cfg) => cfg.grace_period,
            None => DEFAULT_GRACE_PERIOD,
        };
        let next_retry_at = now + first_interval;
        let ds = DunningState {
            subscription_id: id,
            attempts: 1,
            next_retry_at,
            grace_period_ends_at: now + grace,
            suspended: false,
            last_failure_reason: reason,
        };
        self.subscriptions.dunning_states.insert(id, ds);
        let mut s = copy_subscription(self.subscriptions.subscriptions.get(&id).unwrap());
        s.status = SubscriptionStatus::InDunning;
        self.put_subscription(id, s);
        self.events.push(PaymentEvent::SubscriptionEnteredDunning(SubscriptionEnteredDunning {
            subscription_id: id,
            attempt: 1,
            next_retry_at,
        }));
        proof {
            assert(self.subscriptions.dunning_states@.dom() =~= old(self).subscriptions.dunning_states@.dom().insert(id));
        }
    }

    /// The transfer to attempt for the scheduled payment of subscription
    /// `subscription_id` at `now`, if one is to be attempted.
    pub fn recurring_charge(&self, now: u64, subscription_id: u64) -> (r: Option<TokenTransfer>)
        ensures
            r == if collection_due(*self, now, subscription_id) {
                Some(collection_transfer(self.subscriptions.subscriptions@[subscription_id]))
            } else {
                None::<TokenTransfer>
            },
    {
        let s = match self.subscriptions.subscriptions.get(&subscription_id) {
            Some(s) => s,
            None => return None,
        };
        if s.status != SubscriptionStatus::Active || (s.ends_at > 0 && now >= s.ends_at) || now < s.next_payment_at {
            return None;
        }
        Some(TokenTransfer {
            token: s.token,
            from: Party::Account(s.customer),
            to: Party::Account(s.merchant),
            amount: s.amount,
            mode: TransferMode::TransferFrom,
        })
    }

    /// Collects the scheduled payment of subscription `subscription_id` at
    /// `now`. `transfer_ok` says whether the transfer `recurring_charge`
    /// named succeeded; it is not consulted when there was none to attempt.
    ///
    /// An active subscription at or past its end is marked expired and the
    /// request fails with `SubscriptionEnded`. A collected payment is
    /// counted and the next one falls due an interval later; the subscription
    /// expires when that is at or past its end. A failed transfer puts the
    /// subscription into dunning and the request fails with `TransferFailed`.
    ///
    /// Where a request fails after writing, the state that comes back with
    /// the error is what was written before the failure; the caller discards
    /// it, as it discards the state of every failed request.
    pub fn execute_recurring_payment(&mut self, now: u64, subscription_id: u64, transfer_ok: bool) -> (r: Result<(), Error>)
        requires
            old(self).wf(),
            collection_due(*old(self), now, subscription_id) ==> collection_fits(*old(self), now, subscription_id),
        ensures
            final(self).wf(),
            r == collection_outcome(*old(self), now, subscription_id, transfer_ok),
            ({
                let s = old(self).subscriptions.subscriptions@[subscription_id];
                match r {
                    Err(Error::SubscriptionEnded) => {
                        &&& subscription_stored(*old(self), *final(self), subscription_id, Subscription { status: SubscriptionStatus::Expired, ..s })
                        &&& final(self).subscriptions.dunning_states == old(self).subscriptions.dunning_states
                        &&& final(self).events == old(self).events
                    },
                    Err(Error::TransferFailed) => {
                        let next_retry = (now + first_retry_interval(*old(self))) as u64;
                        &&& subscription_stored(*old(self), *final(self), subscription_id, Subscription { status: SubscriptionStatus::InDunning, ..s })
                        &&& final(self).subscriptions.dunning_states@.dom() == old(self).subscriptions.dunning_states@.dom().insert(subscription_id)
                        &&& forall|k: u64| k != subscription_id && old(self).subscriptions.dunning_states@.contains_key(k)
                            ==> final(self).subscriptions.dunning_states@[k] == old(self).subscriptions.dunning_states@[k]
                        &&& entered_dunning(*old(self), now, subscription_id, "Payment transfer failed"@, final(self).subscriptions.dunning_states@[subscription_id])
                        &&& final(self).events@ == old(self).events@
                            .push(PaymentEvent::SubscriptionEnteredDunning(SubscriptionEnteredDunning {
                                subscription_id,
                                attempt: 1,
                                next_retry_at: next_retry,
                            }))
                            .push(PaymentEvent::RecurringPaymentFailed(RecurringPaymentFailed {
                                subscription_id,
                                retry_count: (s.retry_count + 1) as u64,
                            }))
                    },
                    Err(_) => *final(self) == *old(self),
                    Ok(()) => {
                        &&& subscription_stored(*old(self), *final(self), subscription_id, after_collection(s, now))
                        &&& final(self).subscriptions.dunning_states == old(self).subscriptions.dunning_states
                        &&& final(self).events@ == old(self).events@.push(collected_event(subscription_id, after_collection(s, now)))
                    },
                }
            }),
    {
        let s = match self.subscriptions.subscriptions.get(&subscription_id) {
            Some(s) => copy_subscription(s),
            None => return Err(Error::SubscriptionNotFound),
        };
        if s.status != SubscriptionStatus::Active {
            return Err(Error::SubscriptionNotActive);
        }
        let mut s = s;
        if s.ends_at > 0 && now >= s.ends_at {
            s.status = SubscriptionStatus::Expired;
            self.put_subscription(subscription_id, s);
            return Err(Error::SubscriptionEnded);
        }
        if now < s.next_payment_at {
            return Err(Error::PaymentNotDue);
        }
        if transfer_ok {
            s.payment_count = s.payment_count + 1;
            s.retry_count = 0;
            s.next_payment_at = now + s.interval;
            if s.ends_at > 0 && s.next_payment_at >= s.ends_at {
                s.status = SubscriptionStatus::Expired;
            }
            let event = PaymentEvent::RecurringPaymentExecuted(RecurringPaymentExecuted {
                subscription_id,
                payment_count: s.payment_count,
                amount: s.amount,
                next_payment_at: s.next_payment_at,
            });
            self.put_subscription(subscription_id, s);
            self.events.push(event);
            Ok(())
        } else {
            let retry_count = s.retry_count + 1;
            self.enter_dunning(now, subscription_id, "Payment transfer failed".to_owned());
            self.events.push(PaymentEvent::RecurringPaymentFailed(RecurringPaymentFailed { subscription_id, retry_count }));
            Err(Error::TransferFailed)
        }
    }

    /// The transfer to attempt for a retry of subscription `subscription_id`
    /// at `now`, if one is to be attempted.
    pub fn retry_charge(&self, now: u64, subscription_id: u64) -> (r: Option<TokenTransfer>)
        ensures
            r == if retry_due(*self, now, subscription_id) {
                Some(collection_transfer(self.subscriptions.subscriptions@[subscription_id]))
            } else {
                None::<TokenTransfer>
            },
    {
        let s = match self.subscriptions.subscriptions.get(&subscription_id) {
            Some(s) => s,
            None => return None,
        };
        if s.status != SubscriptionStatus::InDunning {
            return None;
        }
        let ds = match self.subscriptions.dunning_states.get(&subscription_id) {
            Some(d) => d,
            None => return None,
        };
        if now < ds.next_retry_at || now > ds.grace_period_ends_at {
            return None;
        }
        Some(TokenTransfer {
            token: s.token,
            from: Party::Account(s.customer),
            to: Party::Account(s.merchant),
            amount: s.amount,
            mode: TransferMode::TransferFrom,
        })
    }

    /// Suspends subscription `id`, which exists, and stores `ds`, marked
    /// suspended, as its dunning state.
    fn suspend(&mut self, id: u64, ds: DunningState)
        requires
            old(self).wf(),
            old(self).subscriptions.subscriptions@.contains_key(id),
        ensures
            final(self).wf(),
            subscription_stored(*old(self), *final(self), id, Subscription {
                status: SubscriptionStatus::Suspended,
                ..old(self).subscriptions.subscriptions@[id]
            }),
            final(self).subscriptions.dunning_states@ == old(self).subscriptions.dunning_states@.insert(id, DunningState { suspended: true, ..ds }),
            final(self).events == old(self).events,
    {
        let mut s = copy_subscription(self.subscriptions.subscriptions.get(&id).unwrap());
        s.status = SubscriptionStatus::Suspended;
        self.put_subscription(id, s);
        let mut ds = ds;
        ds.suspended = true;
        self.subscriptions.dunning_states.insert(id, ds);
    }

    /// Retries the failed payment of subscription `subscription_id`, which
    /// is in dunning, at `now`. `transfer_ok` says whether the transfer
    /// `retry_charge` named succeeded; it is not consulted when there was
    /// none to attempt.
    ///
    /// Past the grace period the subscription is suspended and the request
    /// fails with `GracePeriodExpired`. A collected payment ends the dunning
    /// as a scheduled payment would have been collected. A failed transfer
    /// counts one more attempt: at the configured maximum the subscription
    /// is suspended and the request fails with `MaxRetriesExceeded`; at the
    /// suspension threshold it is suspended, the retry that stays scheduled
    /// is published, and the request fails with `TransferFailed`; below both
    /// nothing changes and the request fails with `TransferFailed`.
    ///
    /// Where a request fails after writing, the state that comes back with
    /// the error is what was written before the failure; the caller discards
    /// it, as it discards the state of every failed request.
    pub fn retry_failed_payment(&mut self, now: u64, subscription_id: u64, transfer_ok: bool) -> (r: Result<(), Error>)
        requires
            old(self).wf(),
            retry_due(*old(self), now, subscription_id) ==> retry_fits(*old(self), now, subscription_id),
        ensures
            final(self).wf(),
            r == retry_outcome(*old(self), now, subscription_id, transfer_ok),
            ({
                let s = old(self).subscriptions.subscriptions@[subscription_id];
                let ds = old(self).subscriptions.dunning_states@[subscription_id];
                let attempts = (ds.attempts + 1) as u32;
                let suspended = Subscription { status: SubscriptionStatus::Suspended, ..s };
                match r {
                    Err(Error::GracePeriodExpired) => {
                        &&& subscription_stored(*old(self), *final(self), subscription_id, suspended)
                        &&& final(self).subscriptions.dunning_states@ == old(self).subscriptions.dunning_states@.insert(
                            subscription_id, DunningState { suspended: true, ..ds })
                        &&& final(self).events@.len() == old(self).events@.len() + 1
                        &&& final(self).events@.drop_last() == old(self).events@
                        &&& is_suspension(final(self).events@.last(), subscription_id, "Grace period expired"@)
                    },
                    Err(Error::MaxRetriesExceeded) => {
                        &&& subscription_stored(*old(self), *final(self), subscription_id, suspended)
                        &&& final(self).subscriptions.dunning_states@ == old(self).subscriptions.dunning_states@.insert(
                            subscription_id, DunningState { attempts, suspended: true, ..ds })
                        &&& final(self).events@.len() == old(self).events@.len() + 1
                        &&& final(self).events@.drop_last() == old(self).events@
                        &&& is_suspension(final(self).events@.last(), subscription_id, "Maximum dunning attempts exceeded"@)
                    },
                    Err(Error::TransferFailed) => if attempts >= suspend_after_of(*old(self)) {
                        let n = old(self).events@.len();
                        &&& subscription_stored(*old(self), *final(self), subscription_id, suspended)
                        &&& final(self).subscriptions.dunning_states@ == old(self).subscriptions.dunning_states@.insert(
                            subscription_id, DunningState { attempts, suspended: true, ..ds })
                        &&& final(self).events@.len() == n + 2
                        &&& final(self).events@.subrange(0, n as int) == old(self).events@
                        &&& is_suspension(final(self).events@[n as int], subscription_id, "Suspend threshold reached"@)
                        &&& final(self).events@[n as int + 1] == PaymentEvent::DunningRetryScheduled(DunningRetryScheduled {
                            subscription_id,
                            retry_at: ds.next_retry_at,
                        })
                    } else {
                        *final(self) == *old(self)
                    },
                    Err(_) => *final(self) == *old(self),
                    Ok(()) => {
                        &&& subscription_stored(*old(self), *final(self), subscription_id, after_collection(s, now))
                        &&& final(self).subscriptions.dunning_states@ == old(self).subscriptions.dunning_states@.remove(subscription_id)
                        &&& final(self).events@ == old(self).events@.push(collected_event(subscription_id, after_collection(s, now)))
                    },
                }
            }),
    {
        let s = match self.subscriptions.subscriptions.get(&subscription_id) {
            Some(s) => copy_subscription(s),
            None => return Err(Error::SubscriptionNotFound),
        };
        if s.status != SubscriptionStatus::InDunning {
            return Err(Error::SubscriptionNotInDunning);
        }
        let ds = match self.subscriptions.dunning_states.get(&subscription_id) {
            Some(d) => copy_dunning_state(d),
            None => return Err(Error::DunningNotFound),
        };
        if now < ds.next_retry_at {
            return Err(Error::RetryNotDue);
        }
        if now > ds.grace_period_ends_at {
            self.suspend(subscription_id, ds);
            self.events.push(PaymentEvent::SubscriptionSuspended(SubscriptionSuspended {
                subscription_id,
                reason: "Grace period expired".to_owned(),
            }));
            return Err(Error::GracePeriodExpired);
        }
        if transfer_ok {
            let mut s = s;
            s.payment_count = s.payment_count + 1;
            s.retry_count = 0;
            s.next_payment_at = now + s.interval;
            s.status = SubscriptionStatus::Active;
            if s.ends_at > 0 && s.next_payment_at >= s.ends_at {
                s.status = SubscriptionStatus::Expired;
            }
            let event = PaymentEvent::RecurringPaymentExecuted(RecurringPaymentExecuted {
                subscription_id,
                payment_count: s.payment_count,
                amount: s.amount,
                next_payment_at: s.next_payment_at,
            });
            self.put_subscription(subscription_id, s);
            self.subscriptions.dunning_states.remove(&subscription_id);
            self.events.push(event);
            return Ok(());
        }
        let mut ds = ds;
        ds.attempts = ds.attempts + 1;
        let max_attempts = match &self.subscriptions.dunning_config {
            Some(cfg) => cfg.max_dunning_attempts,
            None => DEFAULT_MAX_DUNNING_ATTEMPTS,
        };
        let suspend_after = match &self.subscriptions.dunning_config {
            Some(cfg) => cfg.suspend_after_attempts,
            None => DEFAULT_SUSPEND_AFTER_ATTEMPTS,
        };
        if ds.attempts >= max_attempts {
            self.suspend(subscription_id, ds);
            self.events.push(PaymentEvent::SubscriptionSuspended(SubscriptionSuspended {
                subscription_id,
                reason: "Maximum dunning attempts exceeded".to_owned(),
            }));
            Err(Error::MaxRetriesExceeded)
        } else if ds.attempts >= suspend_after {
            let retry_at = ds.next_retry_at;
            self.suspend(subscription_id, ds);
            self.events.push(PaymentEvent::SubscriptionSuspended(SubscriptionSuspended {
                subscription_id,
                reason: "Suspend threshold reached".to_owned(),
            }));
            self.events.push(PaymentEvent::DunningRetryScheduled(DunningRetryScheduled { subscription_id, retry_at }));
            Err(Error::TransferFailed)
        } else {
            Err(Error::TransferFailed)
        }
    }

    /// The admin ends the dunning of subscription `subscription_id`, in
    /// dunning or suspended, at `now`: it is active again, with no retries,
    /// and its next payment falls due an interval after `now`. The contract
    /// must have an admin.
    pub fn resolve_dunning(&mut self, now: u64, admin: Address, subscription_id: u64) -> (r: Result<(), Error>)
        requires
            old(self).wf(),
            old(self).admin is Some,
            old(self).subscriptions.subscriptions@.contains_key(subscription_id)
                ==> now + old(self).subscriptions.subscriptions@[subscription_id].interval <= u64::MAX,
        ensures
            final(self).wf(),
            r == resolve_outcome(*old(self), admin, subscription_id),
            r is Err ==> *final(self) == *old(self),
            r is Ok ==> {
                let s = old(self).subscriptions.subscriptions@[subscription_id];
                &&& subscription_stored(*old(self), *final(self), subscription_id, Subscription {
                    status: SubscriptionStatus::Active,
                    retry_count: 0,
                    next_payment_at: (now + s.interval) as u64,
                    ..s
                })
                &&& final(self).subscriptions.dunning_states@ == old(self).subscriptions.dunning_states@.remove(subscription_id)
                &&& final(self).events@ == old(self).events@.push(PaymentEvent::DunningResolved(DunningResolved {
                    subscription_id,
                    admin,
                }))
            },
    {
        if self.admin != Some(admin) {
            return Err(Error::Unauthorized);
        }
        let s = match self.subscriptions.subscriptions.get(&subscription_id) {
            Some(s) => copy_subscription(s),
            None => return Err(Error::SubscriptionNotFound),
        };
        if s.status != SubscriptionStatus::InDunning && s.status != SubscriptionStatus::Suspended {
            return Err(Error::SubscriptionNotInDunning);
        }
        let mut s = s;
        s.status = SubscriptionStatus::Active;
        s.retry_count = 0;
        s.next_payment_at = now + s.interval;
        self.put_subscription(subscription_id, s);
        self.subscriptions.dunning_states.remove(&subscription_id);
        self.events.push(PaymentEvent::DunningResolved(DunningResolved { subscription_id, admin }));
        Ok(())
    }
}

} // verus!
