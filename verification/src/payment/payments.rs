//! One-off payments: creation under the rate limits, expiry, completion,
//! refunds, cancellation, escrowed payments, lists and conversion rates.
use vstd::prelude::*;
use vstd::utf8::encode_utf8;
use crate::ledger::{Address, Party, TokenTransfer, TransferMode};
use crate::index::{append_to_index, ids_of, index_appended, page_end};
use crate::payment::types::{
    Currency, EscrowCreation, EscrowedPayment, EscrowedPaymentCancelled, EscrowedPaymentCompleted, EscrowedPaymentCreated,
    Error, Payment, PaymentCancelled, PaymentCompleted, PaymentCreated, PaymentEvent, PaymentExpired,
    PaymentRefunded, PaymentStatus,
};
use crate::payment::state::{currency_code, currency_index, PaymentContract};
use crate::payment::rate_limit::{rate_limit_fits, rate_limit_outcome, records_after, refusal_events};

verus! {

/// The longest metadata, in bytes.
pub const MAX_METADATA_SIZE: usize = 512;

/// The longest notes, in bytes.
pub const MAX_NOTES_SIZE: usize = 1024;

/// The conversion rate of a currency that has none set.
pub const DEFAULT_CONVERSION_RATE: i128 = 10000000;

/// The length in bytes of the UTF-8 encoding of `s`, as `str::len` reports it.
pub open spec fn byte_len(s: Seq<char>) -> usize {
    encode_utf8(s).len() as usize
}

/// Whether `p` is the payment that a creation with these values makes.
pub open spec fn is_new_payment(
    p: Payment,
    id: u64,
    customer: Address,
    merchant: Address,
    amount: i128,
    token: Address,
    currency: Currency,
    now: u64,
    expires_at: u64,
    metadata: Seq<char>,
) -> bool {
    &&& p.id == id
    &&& p.customer == customer
    &&& p.merchant == merchant
    &&& p.amount == amount
    &&& p.token == token
    &&& p.currency == currency
    &&& p.status == PaymentStatus::Pending
    &&& p.created_at == now
    &&& p.expires_at == expires_at
    &&& p.metadata@ == metadata
    &&& p.notes@ == Seq::<char>::empty()
    &&& p.refunded_amount == 0
}

/// The state after a payment is created with id `id`: it is stored and
/// listed under its customer and merchant, and its creation is published.
pub open spec fn payment_created(
    old: PaymentContract,
    new: PaymentContract,
    id: u64,
    customer: Address,
    merchant: Address,
    amount: i128,
    token: Address,
    currency: Currency,
    now: u64,
    expires_at: u64,
    metadata: Seq<char>,
) -> bool {
    &&& new.book.counter == id
    &&& new.book.payments@.dom() == old.book.payments@.dom().insert(id)
    &&& forall|k: u64| k != id && old.book.payments@.contains_key(k) ==> new.book.payments@[k] == old.book.payments@[k]
    &&& is_new_payment(new.book.payments@[id], id, customer, merchant, amount, token, currency, now, expires_at, metadata)
    &&& index_appended(old.book.customer_payments@, new.book.customer_payments@, customer, id)
    &&& index_appended(old.book.merchant_payments@, new.book.merchant_payments@, merchant, id)
    &&& new.book.conversion_rates == old.book.conversion_rates
    &&& new.book.escrowed == old.book.escrowed
    &&& new.limits.records@ == records_after(old, now, customer, amount)
    &&& new.limits.config == old.limits.config
    &&& new.events@ == old.events@.push(
        PaymentEvent::PaymentCreated(PaymentCreated { payment_id: id, customer, merchant, amount }),
    )
    &&& new.admin == old.admin
    &&& new.subscriptions == old.subscriptions
    &&& new.transfers == old.transfers
}

/// What a creation of a payment answers, its id aside.
pub open spec fn creation_refusal(c: PaymentContract, now: u64, customer: Address, amount: i128, metadata: Seq<char>) -> Option<Error> {
    if byte_len(metadata) > 512 {
        Some(Error::MetadataTooLarge)
    } else {
        match rate_limit_outcome(c, now, customer, amount) {
            Err(e) => Some(e),
            Ok(()) => None,
        }
    }
}

/// Whether payment `p` has expired at `now`.
pub open spec fn expired(p: Payment, now: u64) -> bool {
    p.expires_at > 0 && now > p.expires_at
}

/// `p` with status `s` and nothing else changed.
pub open spec fn with_status(old: Payment, new: Payment, s: PaymentStatus) -> bool {
    &&& new.status == s
    &&& new.id == old.id && new.customer == old.customer && new.merchant == old.merchant
    &&& new.amount == old.amount && new.token == old.token && new.currency == old.currency
    &&& new.created_at == old.created_at && new.expires_at == old.expires_at
    &&& new.metadata == old.metadata && new.notes == old.notes && new.refunded_amount == old.refunded_amount
}

/// The state after payment `id` takes status `s`, with `event` published;
/// the transfers are left to the caller.
pub open spec fn status_set(old: PaymentContract, new: PaymentContract, id: u64, s: PaymentStatus, event: PaymentEvent) -> bool {
    &&& new.book.payments@.dom() == old.book.payments@.dom()
    &&& forall|k: u64| k != id && old.book.payments@.contains_key(k) ==> new.book.payments@[k] == old.book.payments@[k]
    &&& with_status(old.book.payments@[id], new.book.payments@[id], s)
    &&& new.book.counter == old.book.counter
    &&& new.book.customer_payments == old.book.customer_payments
    &&& new.book.merchant_payments == old.book.merchant_payments
    &&& new.book.conversion_rates == old.book.conversion_rates
    &&& new.book.escrowed == old.book.escrowed
    &&& new.events@ == old.events@.push(event)
    &&& new.admin == old.admin
    &&& new.subscriptions == old.subscriptions
    &&& new.limits == old.limits
}

/// What a completion of payment `id` by `admin` at `now` answers.
pub open spec fn complete_outcome(c: PaymentContract, now: u64, admin: Address, id: u64) -> Result<(), Error> {
    if c.admin != Some(admin) {
        Err(Error::Unauthorized)
    } else if !c.book.payments@.contains_key(id) {
        Err(Error::PaymentNotFound)
    } else if expired(c.book.payments@[id], now) {
        Err(Error::PaymentExpired)
    } else {
        match c.book.payments@[id].status {
            PaymentStatus::Pending => Ok(()),
            PaymentStatus::Completed => Err(Error::AlreadyProcessed),
            _ => Err(Error::InvalidStatus),
        }
    }
}

/// What a full refund of payment `id` by `admin` at `now` answers.
pub open spec fn refund_outcome(c: PaymentContract, now: u64, admin: Address, id: u64) -> Result<(), Error> {
    if c.admin != Some(admin) {
        Err(Error::Unauthorized)
    } else if !c.book.payments@.contains_key(id) {
        Err(Error::PaymentNotFound)
    } else if expired(c.book.payments@[id], now) {
        Err(Error::PaymentExpired)
    } else {
        match c.book.payments@[id].status {
            PaymentStatus::Pending => Ok(()),
            PaymentStatus::Refunded => Err(Error::AlreadyProcessed),
            _ => Err(Error::InvalidStatus),
        }
    }
}

/// What a partial refund of `refund` of payment `id` by `admin` at `now` answers.
pub open spec fn partial_refund_outcome(c: PaymentContract, now: u64, admin: Address, id: u64, refund: i128) -> Result<(), Error> {
    if c.admin != Some(admin) {
        Err(Error::Unauthorized)
    } else if !c.book.payments@.contains_key(id) {
        Err(Error::PaymentNotFound)
    } else if expired(c.book.payments@[id], now) {
        Err(Error::PaymentExpired)
    } else {
        let p = c.book.payments@[id];
        match p.status {
            PaymentStatus::Pending | PaymentStatus::PartialRefunded => {
                if p.refunded_amount + refund > p.amount {
                    Err(Error::RefundExceedsPayment)
                } else {
                    Ok(())
                }
            },
            _ => Err(Error::InvalidStatus),
        }
    }
}

/// What a cancellation of payment `id` by `caller` answers.
pub open spec fn cancel_outcome(c: PaymentContract, caller: Address, id: u64) -> Result<(), Error> {
    if !c.book.payments@.contains_key(id) {
        Err(Error::PaymentNotFound)
    } else if c.book.payments@[id].customer != caller && c.book.payments@[id].merchant != caller {
        Err(Error::Unauthorized)
    } else if c.book.payments@[id].status != PaymentStatus::Pending {
        Err(Error::InvalidStatus)
    } else {
        Ok(())
    }
}

/// What an expiry of payment `id` at `now` answers.
pub open spec fn expire_outcome(c: PaymentContract, now: u64, id: u64) -> Result<(), Error> {
    if !c.book.payments@.contains_key(id) {
        Err(Error::PaymentNotFound)
    } else if c.book.payments@[id].status != PaymentStatus::Pending {
        Err(Error::InvalidStatus)
    } else if c.book.payments@[id].expires_at == 0 {
        Err(Error::NoExpiration)
    } else if now <= c.book.payments@[id].expires_at {
        Err(Error::NotExpired)
    } else {
        Ok(())
    }
}

/// When the escrow contract is to be asked to release the escrow of payment
/// `id` for `admin`: the escrow the payment is mapped to, or the error that
/// comes before the call.
pub open spec fn escrow_release_call_outcome(c: PaymentContract, admin: Address, id: u64) -> Result<EscrowedPayment, Error> {
    if c.admin != Some(admin) {
        Err(Error::Unauthorized)
    } else if !c.book.payments@.contains_key(id) {
        Err(Error::PaymentNotFound)
    } else if !c.book.escrowed@.contains_key(id) {
        Err(Error::EscrowMappingNotFound)
    } else if c.book.payments@[id].status != PaymentStatus::Pending {
        Err(Error::InvalidStatus)
    } else {
        Ok(c.book.escrowed@[id])
    }
}

/// When the escrow contract is to be asked to refund the escrow of payment
/// `id` for `caller`: the escrow the payment is mapped to, or the error that
/// comes before the call.
pub open spec fn escrow_refund_call_outcome(c: PaymentContract, caller: Address, id: u64) -> Result<EscrowedPayment, Error> {
    if !c.book.payments@.contains_key(id) {
        Err(Error::PaymentNotFound)
    } else if !c.book.escrowed@.contains_key(id) {
        Err(Error::EscrowMappingNotFound)
    } else if c.book.payments@[id].status != PaymentStatus::Pending {
        Err(Error::InvalidStatus)
    } else if c.book.payments@[id].customer != caller && c.book.payments@[id].merchant != caller {
        Err(Error::Unauthorized)
    } else {
        Ok(c.book.escrowed@[id])
    }
}

/// The payments named by a page of `ids`.
pub open spec fn payment_page(ids: Seq<u64>, payments: Map<u64, Payment>, offset: int, limit: int) -> Seq<Payment> {
    let end = page_end(ids.len() as int, offset, limit);
    if offset < end {
        ids.subrange(offset, end).map_values(|id: u64| payments[id])
    } else {
        Seq::empty()
    }
}

/// A copy of `p`.
pub fn copy_payment(p: &Payment) -> (r: Payment)
    ensures
        r == *p,
{
    Payment {
        id: p.id,
        customer: p.customer,
        merchant: p.merchant,
        amount: p.amount,
        token: p.token,
        currency: p.currency,
        status: p.status,
        created_at: p.created_at,
        expires_at: p.expires_at,
        metadata: p.metadata.clone(),
        notes: p.notes.clone(),
        refunded_amount: p.refunded_amount,
    }
}

impl PaymentContract {
    /// Whether `currency` is one the contract accepts; every currency is.
    pub fn is_valid_currency(currency: &Currency) -> (r: bool)
        ensures
            r,
    {
        match currency {
            Currency::XLM | Currency::USDC | Currency::USDT | Currency::BTC | Currency::ETH => true,
        }
    }

    /// Creates a pending payment of `amount` of `token` from `customer` to
    /// `merchant` and returns its id, one more than the last one. The metadata
    /// may hold at most 512 bytes and the customer's rate limits must allow
    /// the payment; a positive `expiration_duration` makes it expire that many
    /// seconds after `now`. A refusal for the count of payments per window
    /// comes back with the breach event it published; the caller discards
    /// that state, as it discards the state of every failed request.
    pub fn create_payment(
        &mut self,
        now: u64,
        customer: Address,
        merchant: Address,
        amount: i128,
        token: Address,
        currency: Currency,
        expiration_duration: u64,
        metadata: String,
    ) -> (r: Result<u64, Error>)
        requires
            old(self).wf(),
            old(self).book.counter < u64::MAX,
            now + expiration_duration <= u64::MAX,
            rate_limit_fits(*old(self), now, customer),
        ensures
            final(self).wf(),
            byte_len(metadata@) > 512 ==> r == Err::<u64, Error>(Error::MetadataTooLarge) && *final(self) == *old(self),
            byte_len(metadata@) <= 512 ==> match rate_limit_outcome(*old(self), now, customer, amount) {
                Err(e) => {
                    &&& r == Err::<u64, Error>(e)
                    &&& final(self).events@ == old(self).events@ + refusal_events(*old(self), now, customer, amount)
                    &&& final(self).limits == old(self).limits
                    &&& final(self).book == old(self).book
                    &&& final(self).admin == old(self).admin
                    &&& final(self).subscriptions == old(self).subscriptions
                    &&& final(self).transfers == old(self).transfers
                },
                Ok(()) => {
                    let id = (old(self).book.counter + 1) as u64;
                    let expires_at = if expiration_duration > 0 { (now + expiration_duration) as u64 } else { 0 };
                    &&& r == Ok::<u64, Error>(id)
                    &&& payment_created(*old(self), *final(self), id, customer, merchant, amount, token, currency, now, expires_at, metadata@)
                },
            },
    {
        if !Self::is_valid_currency(&currency) {
            return Err(Error::InvalidCurrency);
        }
        let len = metadata.as_str().len();
        assert(len == byte_len(metadata@));
        if len > MAX_METADATA_SIZE {
            return Err(Error::MetadataTooLarge);
        }
        let checked = self.check_rate_limit(now, customer, amount);
        match checked {
            Err(e) => return Err(e),
            Ok(()) => {},
        }
        let payment_id = self.book.counter + 1;
        let expires_at = if expiration_duration > 0 { now + expiration_duration } else { 0 };
        let payment = Payment {
            id: payment_id,
            customer,
            merchant,
            amount,
            token,
            currency,
            status: PaymentStatus::Pending,
            created_at: now,
            expires_at,
            metadata,
            notes: String::new(),
            refunded_amount: 0,
        };
        self.book.payments.insert(payment_id, payment);
        self.book.counter = payment_id;
        append_to_index(&mut self.book.customer_payments, customer, payment_id);
        append_to_index(&mut self.book.merchant_payments, merchant, payment_id);
        self.events.push(PaymentEvent::PaymentCreated(PaymentCreated { payment_id, customer, merchant, amount }));
        proof {
            let b = self.book;
            let ob = old(self).book;
            assert forall|a: Address, x: u64| #[trigger] ids_of(b.customer_payments@, a).contains(x) implies b.payments@.contains_key(x) by {
                assert(ids_of(b.customer_payments@, a) == if a == customer { ids_of(ob.customer_payments@, a).push(payment_id) } else { ids_of(ob.customer_payments@, a) });
                if x != payment_id {
                    assert(ids_of(ob.customer_payments@, a).contains(x));
                }
            }
            assert forall|a: Address, x: u64| #[trigger] ids_of(b.merchant_payments@, a).contains(x) implies b.payments@.contains_key(x) by {
                assert(ids_of(b.merchant_payments@, a) == if a == merchant { ids_of(ob.merchant_payments@, a).push(payment_id) } else { ids_of(ob.merchant_payments@, a) });
                if x != payment_id {
                    assert(ids_of(ob.merchant_payments@, a).contains(x));
                }
            }
            assert(self.book.payments@.dom() =~= old(self).book.payments@.dom().insert(payment_id));
        }
        Ok(payment_id)
    }

    /// The payment with id `payment_id`, which must exist.
    pub fn get_payment(&self, payment_id: u64) -> (r: &Payment)
        requires
            self.book.payments@.contains_key(payment_id),
        ensures
            *r == self.book.payments@[payment_id],
    {
        self.book.payments.get(&payment_id).unwrap()
    }

    /// Replaces payment `id`, which exists, by `p` with status `status`.
    fn set_status(&mut self, id: u64, status: PaymentStatus)
        requires
            old(self).wf(),
            old(self).book.payments@.contains_key(id),
        ensures
            final(self).wf(),
            final(self).book.payments@.dom() == old(self).book.payments@.dom(),
            forall|k: u64| k != id && old(self).book.payments@.contains_key(k) ==> final(self).book.payments@[k] == old(self).book.payments@[k],
            with_status(old(self).book.payments@[id], final(self).book.payments@[id], status),
            final(self).book.payments@[id] == (Payment { status, ..old(self).book.payments@[id] }),
            final(self).book.counter == old(self).book.counter,
            final(self).book.customer_payments == old(self).book.customer_payments,
            final(self).book.merchant_payments == old(self).book.merchant_payments,
            final(self).book.conversion_rates == old(self).book.conversion_rates,
            final(self).book.escrowed == old(self).book.escrowed,
            final(self).events == old(self).events,
            final(self).admin == old(self).admin,
            final(self).subscriptions == old(self).subscriptions,
            final(self).limits == old(self).limits,
            final(self).transfers == old(self).transfers,
    {
        let mut p = self.book.payments.remove(&id).unwrap();
        p.status = status;
        self.book.payments.insert(id, p);
        proof {
            assert(self.book.payments@.dom() =~= old(self).book.payments@.dom());
            let b = self.book;
            assert forall|a: Address, x: u64| #[trigger] ids_of(b.customer_payments@, a).contains(x) implies b.payments@.contains_key(x) by {
                assert(old(self).book.payments@.contains_key(x));
            }
            assert forall|a: Address, x: u64| #[trigger] ids_of(b.merchant_payments@, a).contains(x) implies b.payments@.contains_key(x) by {
                assert(old(self).book.payments@.contains_key(x));
            }
        }
    }
}

impl PaymentContract {
    /// The request to make to the escrow contract for an escrowed payment of
    /// `amount` of `token` from `customer` to `merchant` at `now` with
    /// `metadata`, the escrow to be released from `release_timestamp` and
    /// after `min_hold_period`: made only when the payment itself would be
    /// created; otherwise the error that refuses it, before any escrow is
    /// asked for.
    pub fn escrow_creation_call(
        &self,
        now: u64,
        customer: Address,
        merchant: Address,
        amount: i128,
        token: Address,
        release_timestamp: u64,
        min_hold_period: u64,
        metadata: &String,
    ) -> (r: Result<EscrowCreation, Error>)
        ensures
            r == match creation_refusal(*self, now, customer, amount, metadata@) {
                Some(e) => Err::<EscrowCreation, Error>(e),
                None => Ok(EscrowCreation { customer, merchant, amount, token, release_timestamp, min_hold_period }),
            },
    {
        let len = metadata.as_str().len();
        assert(len == byte_len(metadata@));
        if len > MAX_METADATA_SIZE {
            return Err(Error::MetadataTooLarge);
        }
        match self.rate_limit_verdict(now, customer, amount) {
            Err(e) => Err(e),
            Ok(()) => Ok(EscrowCreation { customer, merchant, amount, token, release_timestamp, min_hold_period }),
        }
    }

    /// Whether the escrow contract is to be asked to release the escrow of
    /// payment `payment_id` at the request of `admin`: the escrow to release,
    /// or the error that refuses the completion before that call. The
    /// contract must have an admin.
    pub fn escrow_release_call(&self, admin: Address, payment_id: u64) -> (r: Result<EscrowedPayment, Error>)
        requires
            self.admin is Some,
        ensures
            r == escrow_release_call_outcome(*self, admin, payment_id),
    {
        if self.admin != Some(admin) {
            return Err(Error::Unauthorized);
        }
        if !self.book.payments.contains_key(&payment_id) {
            return Err(Error::PaymentNotFound);
        }
        let bridge = match self.get_escrowed_payment(payment_id) {
            Ok(b) => b,
            Err(e) => return Err(e),
        };
        if self.get_payment(payment_id).status != PaymentStatus::Pending {
            return Err(Error::InvalidStatus);
        }
        Ok(bridge)
    }

    /// Whether the escrow contract is to be asked to refund the escrow of
    /// payment `payment_id` at the request of `caller`: the escrow to refund,
    /// or the error that refuses the cancellation before that call.
    pub fn escrow_refund_call(&self, caller: Address, payment_id: u64) -> (r: Result<EscrowedPayment, Error>)
        ensures
            r == escrow_refund_call_outcome(*self, caller, payment_id),
    {
        if !self.book.payments.contains_key(&payment_id) {
            return Err(Error::PaymentNotFound);
        }
        let bridge = match self.get_escrowed_payment(payment_id) {
            Ok(b) => b,
            Err(e) => return Err(e),
        };
        let p = self.get_payment(payment_id);
        if p.status != PaymentStatus::Pending {
            return Err(Error::InvalidStatus);
        }
        if p.customer != caller && p.merchant != caller {
            return Err(Error::Unauthorized);
        }
        Ok(bridge)
    }

    /// Creates a pending payment without expiry whose funds an escrow holds:
    /// `escrow_created` is the id the escrow contract gave the escrow it
    /// created for the same customer, merchant, amount and token, or `None`
    /// if it refused; the escrow is asked for only where
    /// `escrow_creation_call` names the request to make, and
    /// `escrow_created` is not consulted otherwise. The payment is created first, as by
    /// `create_payment`; then a refused escrow fails the request, and an
    /// escrow is recorded as the payment's and the amount is moved from the
    /// customer's allowance to the escrow contract.
    ///
    /// With a refused escrow, the state that comes back with the error is
    /// what was written before the failure (the payment is created); the
    /// caller discards it, as it discards the state of every failed request.
    pub fn create_escrowed_payment(
        &mut self,
        now: u64,
        customer: Address,
        merchant: Address,
        amount: i128,
        token: Address,
        currency: Currency,
        escrow_contract: Address,
        metadata: String,
        auto_release_on_complete: bool,
        escrow_created: Option<u64>,
    ) -> (r: Result<(u64, u64), Error>)
        requires
            old(self).wf(),
            old(self).book.counter < u64::MAX,
            rate_limit_fits(*old(self), now, customer),
        ensures
            final(self).wf(),
            creation_refusal(*old(self), now, customer, amount, metadata@) matches Some(e) ==> r == Err::<(u64, u64), Error>(e),
            creation_refusal(*old(self), now, customer, amount, metadata@) is None ==> {
                let id = (old(self).book.counter + 1) as u64;
                match escrow_created {
                    None => {
                        &&& r == Err::<(u64, u64), Error>(Error::EscrowBridgeFailed)
                        &&& payment_created(*old(self), *final(self), id, customer, merchant, amount, token, currency, now, 0, metadata@)
                    },
                    Some(escrow_id) => {
                        &&& r == Ok::<(u64, u64), Error>((id, escrow_id))
                        &&& exists|mid: PaymentContract| {
                            &&& payment_created(*old(self), mid, id, customer, merchant, amount, token, currency, now, 0, metadata@)
                            &&& final(self).book.escrowed@ == mid.book.escrowed@.insert(id, EscrowedPayment {
                                payment_id: id,
                                escrow_id,
                                escrow_contract,
                                auto_release_on_complete,
                            })
                            &&& final(self).book.payments == mid.book.payments
                            &&& final(self).book.counter == mid.book.counter
                            &&& final(self).book.customer_payments == mid.book.customer_payments
                            &&& final(self).book.merchant_payments == mid.book.merchant_payments
                            &&& final(self).book.conversion_rates == mid.book.conversion_rates
                            &&& final(self).transfers@ == mid.transfers@.push(TokenTransfer {
                                token,
                                from: Party::Account(customer),
                                to: Party::Account(escrow_contract),
                                amount,
                                mode: TransferMode::TransferFrom,
                            })
                            &&& final(self).events@ == mid.events@.push(PaymentEvent::EscrowedPaymentCreated(EscrowedPaymentCreated {
                                payment_id: id,
                                escrow_id,
                                escrow_contract,
                            }))
                            &&& final(self).admin == mid.admin
                            &&& final(self).subscriptions == mid.subscriptions
                            &&& final(self).limits == mid.limits
                        }
                    },
                }
            },
    {
        let payment_id = match self.create_payment(now, customer, merchant, amount, token, currency, 0, metadata) {
            Ok(id) => id,
            Err(e) => return Err(e),
        };
        let escrow_id = match escrow_created {
            Some(id) => id,
            None => return Err(Error::EscrowBridgeFailed),
        };
        let ghost mid = *self;
        let bridge = EscrowedPayment { payment_id, escrow_id, escrow_contract, auto_release_on_complete };
        self.book.escrowed.insert(payment_id, bridge);
        self.transfers.push(
            TokenTransfer {
                token,
                from: Party::Account(customer),
                to: Party::Account(escrow_contract),
                amount,
                mode: TransferMode::TransferFrom,
            },
        );
        self.events.push(
            PaymentEvent::EscrowedPaymentCreated(EscrowedPaymentCreated { payment_id, escrow_id, escrow_contract }),
        );
        Ok((payment_id, escrow_id))
    }

    /// The escrow that holds the funds of payment `payment_id`.
    pub fn get_escrowed_payment(&self, payment_id: u64) -> (r: Result<EscrowedPayment, Error>)
        ensures
            self.book.escrowed@.contains_key(payment_id) ==> r == Ok::<EscrowedPayment, Error>(self.book.escrowed@[payment_id]),
            !self.book.escrowed@.contains_key(payment_id) ==> r == Err::<EscrowedPayment, Error>(Error::EscrowMappingNotFound),
    {
        match self.book.escrowed.get(&payment_id) {
            Some(b) => Ok(*b),
            None => Err(Error::EscrowMappingNotFound),
        }
    }

    /// The admin completes an escrowed payment: `escrow_released` tells
    /// whether the escrow contract released the payment's escrow to the
    /// admin's request, with the early-release flag set to the payment's
    /// auto-release setting; that request is made only where
    /// `escrow_release_call` names the escrow, and `escrow_released` is not
    /// consulted otherwise. A pending payment whose escrow was released
    /// becomes completed.
    pub fn complete_escrowed_payment(&mut self, admin: Address, payment_id: u64, escrow_released: bool) -> (r: Result<(), Error>)
        requires
            old(self).wf(),
            old(self).admin is Some,
        ensures
            final(self).wf(),
            r == (if old(self).admin != Some(admin) {
                Err::<(), Error>(Error::Unauthorized)
            } else if !old(self).book.payments@.contains_key(payment_id) {
                Err(Error::PaymentNotFound)
            } else if !old(self).book.escrowed@.contains_key(payment_id) {
                Err(Error::EscrowMappingNotFound)
            } else if old(self).book.payments@[payment_id].status != PaymentStatus::Pending {
                Err(Error::InvalidStatus)
            } else if !escrow_released {
                Err(Error::EscrowBridgeFailed)
            } else {
                Ok(())
            }),
            escrow_release_call_outcome(*old(self), admin, payment_id) matches Err(e) ==> r == Err::<(), Error>(e),
            escrow_release_call_outcome(*old(self), admin, payment_id) is Ok ==> (r is Ok <==> escrow_released),
            r is Err ==> *final(self) == *old(self),
            r is Ok ==> status_set(*old(self), *final(self), payment_id, PaymentStatus::Completed,
                PaymentEvent::EscrowedPaymentCompleted(EscrowedPaymentCompleted {
                    payment_id,
                    escrow_id: old(self).book.escrowed@[payment_id].escrow_id,
                })) && final(self).transfers == old(self).transfers,
    {
        if self.admin != Some(admin) {
            return Err(Error::Unauthorized);
        }
        if !self.book.payments.contains_key(&payment_id) {
            return Err(Error::PaymentNotFound);
        }
        let bridge = match self.get_escrowed_payment(payment_id) {
            Ok(b) => b,
            Err(e) => return Err(e),
        };
        if self.get_payment(payment_id).status != PaymentStatus::Pending {
            return Err(Error::InvalidStatus);
        }
        if !escrow_released {
            return Err(Error::EscrowBridgeFailed);
        }
        self.set_status(payment_id, PaymentStatus::Completed);
        self.events.push(
            PaymentEvent::EscrowedPaymentCompleted(EscrowedPaymentCompleted { payment_id, escrow_id: bridge.escrow_id }),
        );
        Ok(())
    }

    /// The customer or the merchant cancels an escrowed payment:
    /// `escrow_refunded` tells whether the escrow contract refunded the
    /// payment's escrow to the caller's request; that request is made only
    /// where `escrow_refund_call` names the escrow, and `escrow_refunded` is
    /// not consulted otherwise. A pending payment whose escrow was refunded
    /// becomes cancelled.
    pub fn cancel_escrowed_payment(&mut self, caller: Address, payment_id: u64, escrow_refunded: bool) -> (r: Result<(), Error>)
        requires
            old(self).wf(),
        ensures
            final(self).wf(),
            r == (if !old(self).book.payments@.contains_key(payment_id) {
                Err::<(), Error>(Error::PaymentNotFound)
            } else if !old(self).book.escrowed@.contains_key(payment_id) {
                Err(Error::EscrowMappingNotFound)
            } else if old(self).book.payments@[payment_id].status != PaymentStatus::Pending {
                Err(Error::InvalidStatus)
            } else if old(self).book.payments@[payment_id].customer != caller && old(self).book.payments@[payment_id].merchant != caller {
                Err(Error::Unauthorized)
            } else if !escrow_refunded {
                Err(Error::EscrowBridgeFailed)
            } else {
                Ok(())
            }),
            escrow_refund_call_outcome(*old(self), caller, payment_id) matches Err(e) ==> r == Err::<(), Error>(e),
            escrow_refund_call_outcome(*old(self), caller, payment_id) is Ok ==> (r is Ok <==> escrow_refunded),
            r is Err ==> *final(self) == *old(self),
            r is Ok ==> status_set(*old(self), *final(self), payment_id, PaymentStatus::Cancelled,
                PaymentEvent::EscrowedPaymentCancelled(EscrowedPaymentCancelled {
                    payment_id,
                    escrow_id: old(self).book.escrowed@[payment_id].escrow_id,
                })) && final(self).transfers == old(self).transfers,
    {
        if !self.book.payments.contains_key(&payment_id) {
            return Err(Error::PaymentNotFound);
        }
        let bridge = match self.get_escrowed_payment(payment_id) {
            Ok(b) => b,
            Err(e) => return Err(e),
        };
        let p = self.get_payment(payment_id);
        if p.status != PaymentStatus::Pending {
            return Err(Error::InvalidStatus);
        }
        if p.customer != caller && p.merchant != caller {
            return Err(Error::Unauthorized);
        }
        if !escrow_refunded {
            return Err(Error::EscrowBridgeFailed);
        }
        self.set_status(payment_id, PaymentStatus::Cancelled);
        self.events.push(
            PaymentEvent::EscrowedPaymentCancelled(EscrowedPaymentCancelled { payment_id, escrow_id: bridge.escrow_id }),
        );
        Ok(())
    }

    /// The merchant of payment `payment_id` replaces its notes, of at most
    /// 1024 bytes.
    pub fn update_payment_notes(&mut self, merchant: Address, payment_id: u64, notes: String) -> (r: Result<(), Error>)
        requires
            old(self).wf(),
        ensures
            final(self).wf(),
            r == (if byte_len(notes@) > 1024 {
                Err::<(), Error>(Error::NotesTooLarge)
            } else if !old(self).book.payments@.contains_key(payment_id) {
                Err(Error::PaymentNotFound)
            } else if old(self).book.payments@[payment_id].merchant != merchant {
                Err(Error::Unauthorized)
            } else {
                Ok(())
            }),
            r is Err ==> *final(self) == *old(self),
            r is Ok ==> {
                &&& final(self).book.payments@ == old(self).book.payments@.insert(
                    payment_id,
                    Payment { notes, ..old(self).book.payments@[payment_id] },
                )
                &&& final(self).book.counter == old(self).book.counter
                &&& final(self).book.customer_payments == old(self).book.customer_payments
                &&& final(self).book.merchant_payments == old(self).book.merchant_payments
                &&& final(self).book.conversion_rates == old(self).book.conversion_rates
                &&& final(self).book.escrowed == old(self).book.escrowed
                &&& final(self).events == old(self).events
                &&& final(self).admin == old(self).admin
                &&& final(self).subscriptions == old(self).subscriptions
                &&& final(self).limits == old(self).limits
                &&& final(self).transfers == old(self).transfers
            },
    {
        let len = notes.as_str().len();
        assert(len == byte_len(notes@));
        if len > MAX_NOTES_SIZE {
            return Err(Error::NotesTooLarge);
        }
        if !self.book.payments.contains_key(&payment_id) {
            return Err(Error::PaymentNotFound);
        }
        if self.get_payment(payment_id).merchant != merchant {
            return Err(Error::Unauthorized);
        }
        let mut p = self.book.payments.remove(&payment_id).unwrap();
        p.notes = notes;
        self.book.payments.insert(payment_id, p);
        proof {
            let b = self.book;
            assert forall|a: Address, x: u64| #[trigger] ids_of(b.customer_payments@, a).contains(x) implies b.payments@.contains_key(x) by {
                assert(old(self).book.payments@.contains_key(x));
            }
            assert forall|a: Address, x: u64| #[trigger] ids_of(b.merchant_payments@, a).contains(x) implies b.payments@.contains_key(x) by {
                assert(old(self).book.payments@.contains_key(x));
            }
        }
        Ok(())
    }

    /// Whether payment `payment_id` exists and has expired at `now`.
    pub fn is_payment_expired(&self, now: u64, payment_id: u64) -> (r: bool)
        ensures
            r == (self.book.payments@.contains_key(payment_id) && expired(self.book.payments@[payment_id], now)),
    {
        match self.book.payments.get(&payment_id) {
            Some(p) => p.expires_at > 0 && now > p.expires_at,
            None => false,
        }
    }

    /// Cancels a pending payment whose expiry has passed.
    pub fn expire_payment(&mut self, now: u64, payment_id: u64) -> (r: Result<(), Error>)
        requires
            old(self).wf(),
        ensures
            final(self).wf(),
            r == expire_outcome(*old(self), now, payment_id),
            r is Err ==> *final(self) == *old(self),
            r is Ok ==> status_set(*old(self), *final(self), payment_id, PaymentStatus::Cancelled,
                PaymentEvent::PaymentExpired(PaymentExpired {
                    payment_id,
                    expiration_timestamp: old(self).book.payments@[payment_id].expires_at,
                })) && final(self).transfers == old(self).transfers,
    {
        if !self.book.payments.contains_key(&payment_id) {
            return Err(Error::PaymentNotFound);
        }
        let p = self.get_payment(payment_id);
        if p.status != PaymentStatus::Pending {
            return Err(Error::InvalidStatus);
        }
        if p.expires_at == 0 {
            return Err(Error::NoExpiration);
        }
        if now <= p.expires_at {
            return Err(Error::NotExpired);
        }
        let expiration_timestamp = p.expires_at;
        self.set_status(payment_id, PaymentStatus::Cancelled);
        self.events.push(PaymentEvent::PaymentExpired(PaymentExpired { payment_id, expiration_timestamp }));
        Ok(())
    }

    /// The admin completes a pending, unexpired payment: its amount moves from
    /// the customer's allowance to the merchant.
    pub fn complete_payment(&mut self, now: u64, admin: Address, payment_id: u64) -> (r: Result<(), Error>)
        requires
            old(self).wf(),
            old(self).admin is Some,
        ensures
            final(self).wf(),
            r == complete_outcome(*old(self), now, admin, payment_id),
            r is Err ==> *final(self) == *old(self),
            r is Ok ==> {
                let p = old(self).book.payments@[payment_id];
                &&& status_set(*old(self), *final(self), payment_id, PaymentStatus::Completed,
                    PaymentEvent::PaymentCompleted(PaymentCompleted { payment_id, merchant: p.merchant, amount: p.amount }))
                &&& final(self).transfers@ == old(self).transfers@.push(TokenTransfer {
                    token: p.token,
                    from: Party::Account(p.customer),
                    to: Party::Account(p.merchant),
                    amount: p.amount,
                    mode: TransferMode::TransferFrom,
                })
            },
    {
        if self.admin != Some(admin) {
            return Err(Error::Unauthorized);
        }
        if !self.book.payments.contains_key(&payment_id) {
            return Err(Error::PaymentNotFound);
        }
        if self.is_payment_expired(now, payment_id) {
            return Err(Error::PaymentExpired);
        }
        let p = self.get_payment(payment_id);
        match p.status {
            PaymentStatus::Pending => {},
            PaymentStatus::Completed => return Err(Error::AlreadyProcessed),
            PaymentStatus::Refunded | PaymentStatus::PartialRefunded => return Err(Error::InvalidStatus),
            PaymentStatus::Cancelled => return Err(Error::InvalidStatus),
        }
        let transfer = TokenTransfer {
            token: p.token,
            from: Party::Account(p.customer),
            to: Party::Account(p.merchant),
            amount: p.amount,
            mode: TransferMode::TransferFrom,
        };
        let merchant = p.merchant;
        let amount = p.amount;
        self.transfers.push(transfer);
        self.set_status(payment_id, PaymentStatus::Completed);
        self.events.push(PaymentEvent::PaymentCompleted(PaymentCompleted { payment_id, merchant, amount }));
        Ok(())
    }

    /// The admin refunds a pending, unexpired payment in full.
    pub fn refund_payment(&mut self, now: u64, admin: Address, payment_id: u64) -> (r: Result<(), Error>)
        requires
            old(self).wf(),
            old(self).admin is Some,
        ensures
            final(self).wf(),
            r == refund_outcome(*old(self), now, admin, payment_id),
            r is Err ==> *final(self) == *old(self),
            r is Ok ==> {
                let p = old(self).book.payments@[payment_id];
                &&& status_set(*old(self), *final(self), payment_id, PaymentStatus::Refunded,
                    PaymentEvent::PaymentRefunded(PaymentRefunded { payment_id, customer: p.customer, amount: p.amount }))
                &&& final(self).transfers == old(self).transfers
            },
    {
        if self.admin != Some(admin) {
            return Err(Error::Unauthorized);
        }
        if !self.book.payments.contains_key(&payment_id) {
            return Err(Error::PaymentNotFound);
        }
        if self.is_payment_expired(now, payment_id) {
            return Err(Error::PaymentExpired);
        }
        let p = self.get_payment(payment_id);
        match p.status {
            PaymentStatus::Pending => {},
            PaymentStatus::Completed | PaymentStatus::PartialRefunded => return Err(Error::InvalidStatus),
            PaymentStatus::Refunded => return Err(Error::AlreadyProcessed),
            PaymentStatus::Cancelled => return Err(Error::InvalidStatus),
        }
        let customer = p.customer;
        let amount = p.amount;
        self.set_status(payment_id, PaymentStatus::Refunded);
        self.events.push(PaymentEvent::PaymentRefunded(PaymentRefunded { payment_id, customer, amount }));
        Ok(())
    }

    /// The admin refunds `refund_amount` of a pending or partly refunded,
    /// unexpired payment; the refunds may not exceed its amount, and it is
    /// refunded once they reach it.
    pub fn partial_refund(&mut self, now: u64, admin: Address, payment_id: u64, refund_amount: i128) -> (r: Result<(), Error>)
        requires
            old(self).wf(),
            old(self).admin is Some,
            old(self).book.payments@.contains_key(payment_id) ==> i128::MIN <= old(self).book.payments@[payment_id].refunded_amount + refund_amount <= i128::MAX,
        ensures
            final(self).wf(),
            r == partial_refund_outcome(*old(self), now, admin, payment_id, refund_amount),
            r is Err ==> *final(self) == *old(self),
            r is Ok ==> {
                let p = old(self).book.payments@[payment_id];
                let total = (p.refunded_amount + refund_amount) as i128;
                &&& final(self).book.payments@ == old(self).book.payments@.insert(
                    payment_id,
                    Payment {
                        refunded_amount: total,
                        status: if total == p.amount { PaymentStatus::Refunded } else { PaymentStatus::PartialRefunded },
                        ..p
                    },
                )
                &&& final(self).book.counter == old(self).book.counter
                &&& final(self).book.customer_payments == old(self).book.customer_payments
                &&& final(self).book.merchant_payments == old(self).book.merchant_payments
                &&& final(self).book.conversion_rates == old(self).book.conversion_rates
                &&& final(self).book.escrowed == old(self).book.escrowed
                &&& final(self).events@ == old(self).events@.push(
                    PaymentEvent::PaymentRefunded(PaymentRefunded { payment_id, customer: p.customer, amount: refund_amount }),
                )
                &&& final(self).admin == old(self).admin
                &&& final(self).subscriptions == old(self).subscriptions
                &&& final(self).limits == old(self).limits
                &&& final(self).transfers == old(self).transfers
            },
    {
        if self.admin != Some(admin) {
            return Err(Error::Unauthorized);
        }
        if !self.book.payments.contains_key(&payment_id) {
            return Err(Error::PaymentNotFound);
        }
        if self.is_payment_expired(now, payment_id) {
            return Err(Error::PaymentExpired);
        }
        let p = self.get_payment(payment_id);
        match p.status {
            PaymentStatus::Pending | PaymentStatus::PartialRefunded => {},
            _ => return Err(Error::InvalidStatus),
        }
        let new_refunded = p.refunded_amount + refund_amount;
        if new_refunded > p.amount {
            return Err(Error::RefundExceedsPayment);
        }
        let customer = p.customer;
        let mut p = self.book.payments.remove(&payment_id).unwrap();
        p.refunded_amount = new_refunded;
        p.status = if new_refunded == p.amount { PaymentStatus::Refunded } else { PaymentStatus::PartialRefunded };
        self.book.payments.insert(payment_id, p);
        self.events.push(
            PaymentEvent::PaymentRefunded(PaymentRefunded { payment_id, customer, amount: refund_amount }),
        );
        proof {
            let b = self.book;
            assert forall|a: Address, x: u64| #[trigger] ids_of(b.customer_payments@, a).contains(x) implies b.payments@.contains_key(x) by {
                assert(old(self).book.payments@.contains_key(x));
            }
            assert forall|a: Address, x: u64| #[trigger] ids_of(b.merchant_payments@, a).contains(x) implies b.payments@.contains_key(x) by {
                assert(old(self).book.payments@.contains_key(x));
            }
        }
        Ok(())
    }

    /// The customer or the merchant cancels a pending payment.
    pub fn cancel_payment(&mut self, now: u64, caller: Address, payment_id: u64) -> (r: Result<(), Error>)
        requires
            old(self).wf(),
        ensures
            final(self).wf(),
            r == cancel_outcome(*old(self), caller, payment_id),
            r is Err ==> *final(self) == *old(self),
            r is Ok ==> status_set(*old(self), *final(self), payment_id, PaymentStatus::Cancelled,
                PaymentEvent::PaymentCancelled(PaymentCancelled { payment_id, cancelled_by: caller, timestamp: now }))
                && final(self).transfers == old(self).transfers,
    {
        if !self.book.payments.contains_key(&payment_id) {
            return Err(Error::PaymentNotFound);
        }
        let p = self.get_payment(payment_id);
        if p.customer != caller && p.merchant != caller {
            return Err(Error::Unauthorized);
        }
        if p.status != PaymentStatus::Pending {
            return Err(Error::InvalidStatus);
        }
        self.set_status(payment_id, PaymentStatus::Cancelled);
        self.events.push(
            PaymentEvent::PaymentCancelled(PaymentCancelled { payment_id, cancelled_by: caller, timestamp: now }),
        );
        Ok(())
    }

    /// The payments of `customer`, a page of at most `limit` of them from
    /// position `offset` in creation order.
    pub fn get_payments_by_customer(&self, customer: Address, limit: u64, offset: u64) -> (r: Vec<Payment>)
        requires
            self.wf(),
            offset + limit <= u64::MAX,
        ensures
            r@ == payment_page(ids_of(self.book.customer_payments@, customer), self.book.payments@, offset as int, limit as int),
    {
        let ids = match self.book.customer_payments.get(&customer) {
            Some(v) => v,
            None => return Vec::new(),
        };
        proof {
            assert(ids@ == ids_of(self.book.customer_payments@, customer));
            assert forall|k: int| 0 <= k < ids@.len() implies self.book.payments@.contains_key(#[trigger] ids@[k]) by {
                assert(ids_of(self.book.customer_payments@, customer).contains(ids@[k]));
            }
        }
        self.payments_of(ids, limit, offset)
    }

    /// The number of payments of `customer`.
    pub fn get_payment_count_by_customer(&self, customer: Address) -> (r: u64)
        ensures
            r == ids_of(self.book.customer_payments@, customer).len(),
    {
        match self.book.customer_payments.get(&customer) {
            Some(v) => v.len() as u64,
            None => 0,
        }
    }

    /// The payments of `merchant`, a page of at most `limit` of them from
    /// position `offset` in creation order.
    pub fn get_payments_by_merchant(&self, merchant: Address, limit: u64, offset: u64) -> (r: Vec<Payment>)
        requires
            self.wf(),
            offset + limit <= u64::MAX,
        ensures
            r@ == payment_page(ids_of(self.book.merchant_payments@, merchant), self.book.payments@, offset as int, limit as int),
    {
        let ids = match self.book.merchant_payments.get(&merchant) {
            Some(v) => v,
            None => return Vec::new(),
        };
        proof {
            assert(ids@ == ids_of(self.book.merchant_payments@, merchant));
            assert forall|k: int| 0 <= k < ids@.len() implies self.book.payments@.contains_key(#[trigger] ids@[k]) by {
                assert(ids_of(self.book.merchant_payments@, merchant).contains(ids@[k]));
            }
        }
        self.payments_of(ids, limit, offset)
    }

    /// The number of payments of `merchant`.
    pub fn get_payment_count_by_merchant(&self, merchant: Address) -> (r: u64)
        ensures
            r == ids_of(self.book.merchant_payments@, merchant).len(),
    {
        match self.book.merchant_payments.get(&merchant) {
            Some(v) => v.len() as u64,
            None => 0,
        }
    }

    /// The payments named by a page of `ids`.
    fn payments_of(&self, ids: &Vec<u64>, limit: u64, offset: u64) -> (r: Vec<Payment>)
        requires
            forall|k: int| 0 <= k < ids@.len() ==> self.book.payments@.contains_key(#[trigger] ids@[k]),
            offset + limit <= u64::MAX,
        ensures
            r@ == payment_page(ids@, self.book.payments@, offset as int, limit as int),
    {
        let total = ids.len() as u64;
        let mut out: Vec<Payment> = Vec::new();
        let end = if offset + limit < total { offset + limit } else { total };
        let mut i = offset;
        while i < end
            invariant
                offset <= i,
                offset <= end ==> i <= end,
                end == page_end(ids@.len() as int, offset as int, limit as int),
                end <= ids@.len(),
                forall|k: int| 0 <= k < ids@.len() ==> self.book.payments@.contains_key(#[trigger] ids@[k]),
                offset < end ==> out@ == ids@.subrange(offset as int, i as int).map_values(|id: u64| self.book.payments@[id]),
                offset >= end ==> out@.len() == 0,
            decreases end - i,
        {
            assert(i < ids.len());
            let idx = i as usize;
            assert(idx as int == i as int);
            let id = ids[idx];
            let p = copy_payment(self.book.payments.get(&id).unwrap());
            out.push(p);
            proof {
                assert(id == ids@[i as int]);
                assert(ids@.subrange(offset as int, i + 1).map_values(|id: u64| self.book.payments@[id])
                    =~= ids@.subrange(offset as int, i as int).map_values(|id: u64| self.book.payments@[id]).push(p));
            }
            i = i + 1;
        }
        out
    }

    /// The admin sets the conversion rate of `currency`.
    pub fn set_conversion_rate(&mut self, admin: Address, currency: Currency, rate: i128) -> (r: Result<(), Error>)
        requires
            old(self).admin is Some,
        ensures
            r == match old(self).admin_error(admin) { Some(e) => Err::<(), Error>(e), None => Ok(()) },
            r is Err ==> *final(self) == *old(self),
            r is Ok ==> {
                &&& final(self).book.conversion_rates@ == old(self).book.conversion_rates@.insert(currency_index(currency), rate)
                &&& final(self).book.counter == old(self).book.counter
                &&& final(self).book.payments == old(self).book.payments
                &&& final(self).book.customer_payments == old(self).book.customer_payments
                &&& final(self).book.merchant_payments == old(self).book.merchant_payments
                &&& final(self).book.escrowed == old(self).book.escrowed
                &&& final(self).events == old(self).events
                &&& final(self).admin == old(self).admin
                &&& final(self).subscriptions == old(self).subscriptions
                &&& final(self).limits == old(self).limits
                &&& final(self).transfers == old(self).transfers
            },
    {
        if self.admin != Some(admin) {
            return Err(Error::Unauthorized);
        }
        if !Self::is_valid_currency(&currency) {
            return Err(Error::InvalidCurrency);
        }
        self.book.conversion_rates.insert(currency_code(currency), rate);
        Ok(())
    }

    /// The conversion rate of `currency`, 10000000 (1 with 7 decimals) if none is set.
    pub fn get_conversion_rate(&self, currency: Currency) -> (r: i128)
        ensures
            r == if self.book.conversion_rates@.contains_key(currency_index(currency)) {
                self.book.conversion_rates@[currency_index(currency)]
            } else {
                DEFAULT_CONVERSION_RATE
            },
    {
        match self.book.conversion_rates.get(&currency_code(currency)) {
            Some(r) => *r,
            None => DEFAULT_CONVERSION_RATE,
        }
    }
}

} // verus!
