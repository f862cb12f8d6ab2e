//! Subscriptions: creation, cancellation, pausing and resuming, and lists.
use vstd::prelude::*;
use crate::ledger::Address;
use crate::index::{append_to_index, ids_of, index_appended, page_end};
use crate::payment::types::{
    Currency, Error, PaymentEvent, Subscription, SubscriptionCancelled, SubscriptionCreated,
    SubscriptionPaused, SubscriptionResumed, SubscriptionStatus,
};
use crate::payment::state::PaymentContract;
use crate::payment::payments::{byte_len, MAX_METADATA_SIZE};

verus! {

/// The retries a subscription created without a number of retries gets.
pub const DEFAULT_MAX_RETRIES: u64 = 3;

/// Whether `s` is the subscription that a creation with these values makes.
pub open spec fn is_new_subscription(
    s: Subscription,
    id: u64,
    customer: Address,
    merchant: Address,
    amount: i128,
    token: Address,
    currency: Currency,
    interval: u64,
    duration: u64,
    max_retries: u64,
    now: u64,
    metadata: Seq<char>,
) -> bool {
    &&& s.id == id
    &&& s.customer == customer
    &&& s.merchant == merchant
    &&& s.amount == amount
    &&& s.token == token
    &&& s.currency == currency
    &&& s.interval == interval
    &&& s.duration == duration
    &&& s.status == SubscriptionStatus::Active
    &&& s.created_at == now
    &&& s.next_payment_at == now + interval
    &&& s.ends_at == if duration > 0 { now + duration } else { 0 }
    &&& s.payment_count == 0
    &&& s.retry_count == 0
    &&& s.max_retries == if max_retries == 0 { DEFAULT_MAX_RETRIES } else { max_retries }
    &&& s.metadata@ == metadata
}

/// `new` is `old` with subscription `id` replaced by `s`; the events and
/// the dunning states are left to the caller.
pub open spec fn subscription_stored(old: PaymentContract, new: PaymentContract, id: u64, s: Subscription) -> bool {
    &&& new.subscriptions.subscriptions@ == old.subscriptions.subscriptions@.insert(id, s)
    &&& new.subscriptions.counter == old.subscriptions.counter
    &&& new.subscriptions.customer_subscriptions == old.subscriptions.customer_subscriptions
    &&& new.subscriptions.merchant_subscriptions == old.subscriptions.merchant_subscriptions
    &&& new.subscriptions.dunning_config == old.subscriptions.dunning_config
    &&& new.book == old.book
    &&& new.limits == old.limits
    &&& new.admin == old.admin
    &&& new.transfers == old.transfers
}

/// What a cancellation of subscription `id` by `caller` answers.
pub open spec fn cancel_subscription_outcome(c: PaymentContract, caller: Address, id: u64) -> Result<(), Error> {
    if !c.subscriptions.subscriptions@.contains_key(id) {
        Err(Error::SubscriptionNotFound)
    } else {
        let s = c.subscriptions.subscriptions@[id];
        if s.customer != caller && s.merchant != caller && c.admin != Some(caller) {
            Err(Error::Unauthorized)
        } else if s.status == SubscriptionStatus::Cancelled || s.status == SubscriptionStatus::Expired {
            Err(Error::InvalidStatus)
        } else {
            Ok(())
        }
    }
}

/// What a pause of subscription `id` by `customer` answers.
pub open spec fn pause_outcome(c: PaymentContract, customer: Address, id: u64) -> Result<(), Error> {
    if !c.subscriptions.subscriptions@.contains_key(id) {
        Err(Error::SubscriptionNotFound)
    } else if c.subscriptions.subscriptions@[id].customer != customer {
        Err(Error::Unauthorized)
    } else if c.subscriptions.subscriptions@[id].status != SubscriptionStatus::Active {
        Err(Error::SubscriptionNotActive)
    } else {
        Ok(())
    }
}

/// What a resumption of subscription `id` by `customer` answers.
pub open spec fn resume_outcome(c: PaymentContract, customer: Address, id: u64) -> Result<(), Error> {
    if !c.subscriptions.subscriptions@.contains_key(id) {
        Err(Error::SubscriptionNotFound)
    } else if c.subscriptions.subscriptions@[id].customer != customer {
        Err(Error::Unauthorized)
    } else if c.subscriptions.subscriptions@[id].status != SubscriptionStatus::Paused {
        Err(Error::InvalidStatus)
    } else {
        Ok(())
    }
}

/// The subscriptions named by a page of `ids`.
pub open spec fn subscription_page(ids: Seq<u64>, subs: Map<u64, Subscription>, offset: int, limit: int) -> Seq<Subscription> {
    let end = page_end(ids.len() as int, offset, limit);
    if offset < end {
        ids.subrange(offset, end).map_values(|id: u64| subs[id])
    } else {
        Seq::empty()
    }
}

/// A copy of `s`.
pub fn copy_subscription(s: &Subscription) -> (r: Subscription)
    ensures
        r == *s,
{
    Subscription {
        id: s.id,
        customer: s.customer,
        merchant: s.merchant,
        amount: s.amount,
        token: s.token,
        currency: s.currency,
        interval: s.interval,
        duration: s.duration,
        status: s.status,
        created_at: s.created_at,
        next_payment_at: s.next_payment_at,
        ends_at: s.ends_at,
        payment_count: s.payment_count,
        retry_count: s.retry_count,
        max_retries: s.max_retries,
        metadata: s.metadata.clone(),
    }
}

impl PaymentContract {
    /// Creates an active subscription under which `customer` pays `merchant`
    /// `amount` of `token` every `interval` seconds from `now`, and returns
    /// its id, one more than the last one. A positive `duration` ends it that
    /// many seconds after `now`; a `max_retries` of 0 stands for the default
    /// of 3. The metadata may hold at most 512 bytes.
    pub fn create_subscription(
        &mut self,
        now: u64,
        customer: Address,
        merchant: Address,
        amount: i128,
        token: Address,
        currency: Currency,
        interval: u64,
        duration: u64,
        max_retries: u64,
        metadata: String,
    ) -> (r: Result<u64, Error>)
        requires
            old(self).wf(),
            old(self).subscriptions.counter < u64::MAX,
            now + interval <= u64::MAX,
            duration > 0 ==> now + duration <= u64::MAX,
        ensures
            final(self).wf(),
            byte_len(metadata@) > 512 ==> r == Err::<u64, Error>(Error::MetadataTooLarge) && *final(self) == *old(self),
            byte_len(metadata@) <= 512 ==> {
                let id = (old(self).subscriptions.counter + 1) as u64;
                let ss = final(self).subscriptions;
                let os = old(self).subscriptions;
                &&& r == Ok::<u64, Error>(id)
                &&& ss.counter == id
                &&& ss.subscriptions@.dom() == os.subscriptions@.dom().insert(id)
                &&& forall|k: u64| k != id && os.subscriptions@.contains_key(k) ==> ss.subscriptions@[k] == os.subscriptions@[k]
                &&& is_new_subscription(ss.subscriptions@[id], id, customer, merchant, amount, token, currency, interval, duration, max_retries, now, metadata@)
                &&& index_appended(os.customer_subscriptions@, ss.customer_subscriptions@, customer, id)
                &&& index_appended(os.merchant_subscriptions@, ss.merchant_subscriptions@, merchant, id)
                &&& ss.dunning_config == os.dunning_config
                &&& ss.dunning_states == os.dunning_states
                &&& final(self).events@ == old(self).events@.push(PaymentEvent::SubscriptionCreated(SubscriptionCreated {
                    subscription_id: id,
                    customer,
                    merchant,
                    amount,
                    interval,
                }))
                &&& final(self).book == old(self).book
                &&& final(self).limits == old(self).limits
                &&& final(self).admin == old(self).admin
                &&& final(self).transfers == old(self).transfers
            },
    {
        if !Self::is_valid_currency(&currency) {
            return Err(Error::InvalidCurrency);
        }
        let len = metadata.as_str().len();
        assert(len == byte_len(metadata@));
        if len > MAX_METADATA_SIZE {
            return Err(Error::MetadataTooLarge);
        }
        let sub_id = self.subscriptions.counter + 1;
        let ends_at = if duration > 0 { now + duration } else { 0 };
        let retries = if max_retries == 0 { DEFAULT_MAX_RETRIES } else { max_retries };
        let sub = Subscription {
            id: sub_id,
            customer,
            merchant,
            amount,
            token,
            currency,
            interval,
            duration,
            status: SubscriptionStatus::Active,
            created_at: now,
            next_payment_at: now + interval,
            ends_at,
            payment_count: 0,
            retry_count: 0,
            max_retries: retries,
            metadata,
        };
        self.subscriptions.subscriptions.insert(sub_id, sub);
        self.subscriptions.counter = sub_id;
        append_to_index(&mut self.subscriptions.customer_subscriptions, customer, sub_id);
        append_to_index(&mut self.subscriptions.merchant_subscriptions, merchant, sub_id);
        self.events.push(PaymentEvent::SubscriptionCreated(SubscriptionCreated {
            subscription_id: sub_id,
            customer,
            merchant,
            amount,
            interval,
        }));
        proof {
            let ss = self.subscriptions;
            let os = old(self).subscriptions;
            assert forall|a: Address, x: u64| #[trigger] ids_of(ss.customer_subscriptions@, a).contains(x) implies ss.subscriptions@.contains_key(x) by {
                assert(ids_of(ss.customer_subscriptions@, a) == if a == customer { ids_of(os.customer_subscriptions@, a).push(sub_id) } else { ids_of(os.customer_subscriptions@, a) });
                if x != sub_id {
                    assert(ids_of(os.customer_subscriptions@, a).contains(x));
                }
            }
            assert forall|a: Address, x: u64| #[trigger] ids_of(ss.merchant_subscriptions@, a).contains(x) implies ss.subscriptions@.contains_key(x) by {
                assert(ids_of(ss.merchant_subscriptions@, a) == if a == merchant { ids_of(os.merchant_subscriptions@, a).push(sub_id) } else { ids_of(os.merchant_subscriptions@, a) });
                if x != sub_id {
                    assert(ids_of(os.merchant_subscriptions@, a).contains(x));
                }
            }
            assert(ss.subscriptions@.dom() =~= os.subscriptions@.dom().insert(sub_id));
        }
        Ok(sub_id)
    }

    /// The subscription with id `subscription_id`, which must exist.
    pub fn get_subscription(&self, subscription_id: u64) -> (r: &Subscription)
        requires
            self.subscriptions.subscriptions@.contains_key(subscription_id),
        ensures
            *r == self.subscriptions.subscriptions@[subscription_id],
    {
        self.subscriptions.subscriptions.get(&subscription_id).unwrap()
    }

    /// Replaces subscription `id`, which exists, by `s`.
    pub(crate) fn put_subscription(&mut self, id: u64, s: Subscription)
        requires
            old(self).wf(),
            old(self).subscriptions.subscriptions@.contains_key(id),
        ensures
            final(self).wf(),
            subscription_stored(*old(self), *final(self), id, s),
            final(self).subscriptions.dunning_states == old(self).subscriptions.dunning_states,
            final(self).events == old(self).events,
    {
        self.subscriptions.subscriptions.insert(id, s);
        proof {
            let ss = self.subscriptions;
            assert forall|a: Address, x: u64| #[trigger] ids_of(ss.customer_subscriptions@, a).contains(x) implies ss.subscriptions@.contains_key(x) by {
                assert(old(self).subscriptions.subscriptions@.contains_key(x));
            }
            assert forall|a: Address, x: u64| #[trigger] ids_of(ss.merchant_subscriptions@, a).contains(x) implies ss.subscriptions@.contains_key(x) by {
                assert(old(self).subscriptions.subscriptions@.contains_key(x));
            }
        }
    }

    /// Cancels subscription `id`; its customer, its merchant or the admin may,
    /// unless it is already cancelled or expired.
    pub fn cancel_subscription(&mut self, caller: Address, subscription_id: u64) -> (r: Result<(), Error>)
        requires
            old(self).wf(),
        ensures
            final(self).wf(),
            r == cancel_subscription_outcome(*old(self), caller, subscription_id),
            r is Err ==> *final(self) == *old(self),
            r is Ok ==> {
                let s = old(self).subscriptions.subscriptions@[subscription_id];
                &&& subscription_stored(*old(self), *final(self), subscription_id, Subscription { status: SubscriptionStatus::Cancelled, ..s })
                &&& final(self).subscriptions.dunning_states == old(self).subscriptions.dunning_states
                &&& final(self).events@ == old(self).events@.push(PaymentEvent::SubscriptionCancelled(SubscriptionCancelled {
                    subscription_id,
                    cancelled_by: caller,
                }))
            },
    {
        let s = match self.subscriptions.subscriptions.get(&subscription_id) {
            Some(s) => copy_subscription(s),
            None => return Err(Error::SubscriptionNotFound),
        };
        let is_admin = match self.admin {
            Some(a) => a == caller,
            None => false,
        };
        if s.customer != caller && s.merchant != caller && !is_admin {
            return Err(Error::Unauthorized);
        }
        if s.status == SubscriptionStatus::Cancelled || s.status == SubscriptionStatus::Expired {
            return Err(Error::InvalidStatus);
        }
        let mut s = s;
        s.status = SubscriptionStatus::Cancelled;
        self.put_subscription(subscription_id, s);
        self.events.push(PaymentEvent::SubscriptionCancelled(SubscriptionCancelled {
            subscription_id,
            cancelled_by: caller,
        }));
        Ok(())
    }

    /// The customer pauses its active subscription `id`.
    pub fn pause_subscription(&mut self, customer: Address, subscription_id: u64) -> (r: Result<(), Error>)
        requires
            old(self).wf(),
        ensures
            final(self).wf(),
            r == pause_outcome(*old(self), customer, subscription_id),
            r is Err ==> *final(self) == *old(self),
            r is Ok ==> {
                let s = old(self).subscriptions.subscriptions@[subscription_id];
                &&& subscription_stored(*old(self), *final(self), subscription_id, Subscription { status: SubscriptionStatus::Paused, ..s })
                &&& final(self).subscriptions.dunning_states == old(self).subscriptions.dunning_states
                &&& final(self).events@ == old(self).events@.push(PaymentEvent::SubscriptionPaused(SubscriptionPaused { subscription_id }))
            },
    {
        let s = match self.subscriptions.subscriptions.get(&subscription_id) {
            Some(s) => copy_subscription(s),
            None => return Err(Error::SubscriptionNotFound),
        };
        if s.customer != customer {
            return Err(Error::Unauthorized);
        }
        if s.status != SubscriptionStatus::Active {
            return Err(Error::SubscriptionNotActive);
        }
        let mut s = s;
        s.status = SubscriptionStatus::Paused;
        self.put_subscription(subscription_id, s);
        self.events.push(PaymentEvent::SubscriptionPaused(SubscriptionPaused { subscription_id }));
        Ok(())
    }

    /// The customer resumes its paused subscription `id`; the next payment
    /// falls due one interval after `now`.
    pub fn resume_subscription(&mut self, now: u64, customer: Address, subscription_id: u64) -> (r: Result<(), Error>)
        requires
            old(self).wf(),
            old(self).subscriptions.subscriptions@.contains_key(subscription_id)
                ==> now + old(self).subscriptions.subscriptions@[subscription_id].interval <= u64::MAX,
        ensures
            final(self).wf(),
            r == resume_outcome(*old(self), customer, subscription_id),
            r is Err ==> *final(self) == *old(self),
            r is Ok ==> {
                let s = old(self).subscriptions.subscriptions@[subscription_id];
                let next = (now + s.interval) as u64;
                &&& subscription_stored(*old(self), *final(self), subscription_id, Subscription {
                    status: SubscriptionStatus::Active,
                    next_payment_at: next,
                    ..s
                })
                &&& final(self).subscriptions.dunning_states == old(self).subscriptions.dunning_states
                &&& final(self).events@ == old(self).events@.push(PaymentEvent::SubscriptionResumed(SubscriptionResumed {
                    subscription_id,
                    next_payment_at: next,
                }))
            },
    {
        let s = match self.subscriptions.subscriptions.get(&subscription_id) {
            Some(s) => copy_subscription(s),
            None => return Err(Error::SubscriptionNotFound),
        };
        if s.customer != customer {
            return Err(Error::Unauthorized);
        }
        if s.status != SubscriptionStatus::Paused {
            return Err(Error::InvalidStatus);
        }
        let mut s = s;
        s.next_payment_at = now + s.interval;
        s.status = SubscriptionStatus::Active;
        let next = s.next_payment_at;
        self.put_subscription(subscription_id, s);
        self.events.push(PaymentEvent::SubscriptionResumed(SubscriptionResumed { subscription_id, next_payment_at: next }));
        Ok(())
    }

    /// The subscriptions of `customer`, a page of at most `limit` of them from
    /// position `offset` in creation order.
    pub fn get_subscriptions_by_customer(&self, customer: Address, limit: u64, offset: u64) -> (r: Vec<Subscription>)
        requires
            self.wf(),
            offset + limit <= u64::MAX,
        ensures
            r@ == subscription_page(ids_of(self.subscriptions.customer_subscriptions@, customer), self.subscriptions.subscriptions@, offset as int, limit as int),
    {
        let ids = match self.subscriptions.customer_subscriptions.get(&customer) {
            Some(v) => v,
            None => return Vec::new(),
        };
        proof {
            assert(ids@ == ids_of(self.subscriptions.customer_subscriptions@, customer));
            assert forall|k: int| 0 <= k < ids@.len() implies self.subscriptions.subscriptions@.contains_key(#[trigger] ids@[k]) by {
                assert(ids_of(self.subscriptions.customer_subscriptions@, customer).contains(ids@[k]));
            }
        }
        self.subscriptions_of(ids, limit, offset)
    }

    /// The subscriptions of `merchant`, a page of at most `limit` of them from
    /// position `offset` in creation order.
    pub fn get_subscriptions_by_merchant(&self, merchant: Address, limit: u64, offset: u64) -> (r: Vec<Subscription>)
        requires
            self.wf(),
            offset + limit <= u64::MAX,
        ensures
            r@ == subscription_page(ids_of(self.subscriptions.merchant_subscriptions@, merchant), self.subscriptions.subscriptions@, offset as int, limit as int),
    {
        let ids = match self.subscriptions.merchant_subscriptions.get(&merchant) {
            Some(v) => v,
            None => return Vec::new(),
        };
        proof {
            assert(ids@ == ids_of(self.subscriptions.merchant_subscriptions@, merchant));
            assert forall|k: int| 0 <= k < ids@.len() implies self.subscriptions.subscriptions@.contains_key(#[trigger] ids@[k]) by {
                assert(ids_of(self.subscriptions.merchant_subscriptions@, merchant).contains(ids@[k]));
            }
        }
        self.subscriptions_of(ids, limit, offset)
    }

    /// The subscriptions named by a page of `ids`.
    fn subscriptions_of(&self, ids: &Vec<u64>, limit: u64, offset: u64) -> (r: Vec<Subscription>)
        requires
            forall|k: int| 0 <= k < ids@.len() ==> self.subscriptions.subscriptions@.contains_key(#[trigger] ids@[k]),
            offset + limit <= u64::MAX,
        ensures
            r@ == subscription_page(ids@, self.subscriptions.subscriptions@, offset as int, limit as int),
    {
        let total = ids.len() as u64;
        let mut out: Vec<Subscription> = Vec::new();
        let end = if offset + limit < total { offset + limit } else { total };
        let mut i = offset;
        while i < end
            invariant
                offset <= i,
                offset <= end ==> i <= end,
                end == page_end(ids@.len() as int, offset as int, limit as int),
                end <= ids@.len(),
                forall|k: int| 0 <= k < ids@.len() ==> self.subscriptions.subscriptions@.contains_key(#[trigger] ids@[k]),
                offset < end ==> out@ == ids@.subrange(offset as int, i as int).map_values(|id: u64| self.subscriptions.subscriptions@[id]),
                offset >= end ==> out@.len() == 0,
            decreases end - i,
        {
            assert(i < ids.len());
            let idx = i as usize;
            assert(idx as int == i as int);
            let id = ids[idx];
            let s = copy_subscription(self.subscriptions.subscriptions.get(&id).unwrap());
            out.push(s);
            proof {
                assert(id == ids@[i as int]);
                assert(ids@.subrange(offset as int, i + 1).map_values(|id: u64| self.subscriptions.subscriptions@[id])
                    =~= ids@.subrange(offset as int, i as int).map_values(|id: u64| self.subscriptions.subscriptions@[id]).push(s));
            }
            i = i + 1;
        }
        out
    }
}

} // verus!
