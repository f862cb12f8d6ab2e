//! The payment contract's state, what it is made of, and the views that the
//! contracts of its operations speak of.
use vstd::prelude::*;
use vstd::hash_map::HashMapWithView;
use crate::ledger::{Address, TokenTransfer};
use crate::index::ids_of;
use crate::payment::types::{
    AddressRateLimit, Currency, DunningConfig, DunningState, EscrowedPayment, Error, Payment,
    PaymentEvent, RateLimitConfig, Subscription,
};

verus! {

/// The payments, their indexes, conversion rates and escrow mappings.
pub struct PaymentBook {
    pub counter: u64,
    pub payments: HashMapWithView<u64, Payment>,
    /// For each customer, the ids of its payments in creation order.
    pub customer_payments: HashMapWithView<Address, Vec<u64>>,
    /// For each merchant, the ids of its payments in creation order.
    pub merchant_payments: HashMapWithView<Address, Vec<u64>>,
    /// Conversion rates, by currency code.
    pub conversion_rates: HashMapWithView<u64, i128>,
    pub escrowed: HashMapWithView<u64, EscrowedPayment>,
}

/// The subscriptions, their indexes, and their dunning.
pub struct SubscriptionBook {
    pub counter: u64,
    pub subscriptions: HashMapWithView<u64, Subscription>,
    pub customer_subscriptions: HashMapWithView<Address, Vec<u64>>,
    pub merchant_subscriptions: HashMapWithView<Address, Vec<u64>>,
    pub dunning_config: Option<DunningConfig>,
    pub dunning_states: HashMapWithView<u64, DunningState>,
}

/// The rate-limit configuration and the record of each address.
pub struct RateLimitBook {
    pub config: Option<RateLimitConfig>,
    pub records: HashMapWithView<Address, AddressRateLimit>,
}

/// The state of the payment contract.
///
/// `events` holds the events published so far and `transfers` the token
/// movements requested so far, both in order; the host publishes the one and
/// carries out the other.
pub struct PaymentContract {
    pub admin: Option<Address>,
    pub book: PaymentBook,
    pub subscriptions: SubscriptionBook,
    pub limits: RateLimitBook,
    pub events: Vec<PaymentEvent>,
    pub transfers: Vec<TokenTransfer>,
}

/// The number that stands for `c` among the conversion rates.
pub open spec fn currency_index(c: Currency) -> u64 {
    match c {
        Currency::XLM => 0,
        Currency::USDC => 1,
        Currency::USDT => 2,
        Currency::BTC => 3,
        Currency::ETH => 4,
    }
}

/// The number that stands for `c` among the conversion rates.
pub fn currency_code(c: Currency) -> (r: u64)
    ensures
        r == currency_index(c),
{
    match c {
        Currency::XLM => 0,
        Currency::USDC => 1,
        Currency::USDT => 2,
        Currency::BTC => 3,
        Currency::ETH => 4,
    }
}

impl PaymentContract {
    /// Every id that an index lists names a stored record.
    pub open spec fn wf(&self) -> bool {
        &&& forall|a: Address, id: u64|
            #[trigger] ids_of(self.book.customer_payments@, a).contains(id) ==> self.book.payments@.contains_key(id)
        &&& forall|a: Address, id: u64|
            #[trigger] ids_of(self.book.merchant_payments@, a).contains(id) ==> self.book.payments@.contains_key(id)
        &&& forall|a: Address, id: u64|
            #[trigger] ids_of(self.subscriptions.customer_subscriptions@, a).contains(id)
                ==> self.subscriptions.subscriptions@.contains_key(id)
        &&& forall|a: Address, id: u64|
            #[trigger] ids_of(self.subscriptions.merchant_subscriptions@, a).contains(id)
                ==> self.subscriptions.subscriptions@.contains_key(id)
    }

    /// Why `caller` may not act as the admin, if it may not; the contract
    /// must have an admin.
    pub open spec fn admin_error(&self, caller: Address) -> Option<Error> {
        if self.admin != Some(caller) { Some(Error::Unauthorized) } else { None }
    }

    /// A contract with nothing stored.
    pub fn new() -> (c: PaymentContract)
        ensures
            c.wf(),
            c.admin is None,
            c.book.counter == 0,
            c.book.payments@ == Map::<u64, Payment>::empty(),
            c.book.customer_payments@ == Map::<Address, Vec<u64>>::empty(),
            c.book.merchant_payments@ == Map::<Address, Vec<u64>>::empty(),
            c.book.conversion_rates@ == Map::<u64, i128>::empty(),
            c.book.escrowed@ == Map::<u64, EscrowedPayment>::empty(),
            c.subscriptions.counter == 0,
            c.subscriptions.subscriptions@ == Map::<u64, Subscription>::empty(),
            c.subscriptions.customer_subscriptions@ == Map::<Address, Vec<u64>>::empty(),
            c.subscriptions.merchant_subscriptions@ == Map::<Address, Vec<u64>>::empty(),
            c.subscriptions.dunning_config is None,
            c.subscriptions.dunning_states@ == Map::<u64, DunningState>::empty(),
            c.limits.config is None,
            c.limits.records@ == Map::<Address, AddressRateLimit>::empty(),
            c.events@ == Seq::<PaymentEvent>::empty(),
            c.transfers@ == Seq::<TokenTransfer>::empty(),
    {
        PaymentContract {
            admin: None,
            book: PaymentBook {
                counter: 0,
                payments: HashMapWithView::new(),
                customer_payments: HashMapWithView::new(),
                merchant_payments: HashMapWithView::new(),
                conversion_rates: HashMapWithView::new(),
                escrowed: HashMapWithView::new(),
            },
            subscriptions: SubscriptionBook {
                counter: 0,
                subscriptions: HashMapWithView::new(),
                customer_subscriptions: HashMapWithView::new(),
                merchant_subscriptions: HashMapWithView::new(),
                dunning_config: None,
                dunning_states: HashMapWithView::new(),
            },
            limits: RateLimitBook { config: None, records: HashMapWithView::new() },
            events: Vec::new(),
            transfers: Vec::new(),
        }
    }

    /// Makes `admin` the contract's admin; the contract must not have one yet.
    pub fn initialize(&mut self, admin: Address)
        requires
            old(self).admin is None,
        ensures
            final(self).admin == Some(admin),
            final(self).book == old(self).book,
            final(self).subscriptions == old(self).subscriptions,
            final(self).limits == old(self).limits,
            final(self).events == old(self).events,
            final(self).transfers == old(self).transfers,
    {
        self.admin = Some(admin);
    }
}

} // verus!
