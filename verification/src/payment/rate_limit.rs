//! Rate limits and anti-fraud: flagged addresses are refused, and an address
//! may create only so many payments per window, of so much each and so much
//! per calendar day.
use vstd::prelude::*;
use crate::ledger::Address;
use crate::arith::{clamp_i128, saturating_add_i128};
use crate::payment::types::{
    AddressFlagged, AddressRateLimit, AddressUnflagged, Error, PaymentEvent, RateLimitBreached, RateLimitConfig,
};
use crate::payment::state::PaymentContract;

verus! {

/// Seconds in a day.
pub const SECONDS_PER_DAY: u64 = 86400;

/// The record of an address that has none.
pub open spec fn fresh_record(a: Address) -> AddressRateLimit {
    AddressRateLimit {
        address: a,
        payment_count: 0,
        window_start: 0,
        daily_volume: 0,
        last_payment_at: 0,
        flagged: false,
    }
}

/// The record of `a` in `records`.
pub open spec fn record_in(records: Map<Address, AddressRateLimit>, a: Address) -> AddressRateLimit {
    if records.contains_key(a) { records[a] } else { fresh_record(a) }
}

/// The configuration in force: unlimited while none is set.
pub open spec fn limits_in(config: Option<RateLimitConfig>) -> RateLimitConfig {
    match config {
        Some(c) => c,
        None => RateLimitConfig { max_payments_per_window: 0, window_duration: 0, max_payment_amount: 0, max_daily_volume: 0 },
    }
}

/// Record `r` as of `now`: its daily volume restarts on a new calendar day,
/// and its window restarts once the window duration has passed (or starts,
/// if it never did).
pub open spec fn rolled(cfg: RateLimitConfig, r: AddressRateLimit, now: u64) -> AddressRateLimit {
    let r1 = if r.window_start > 0 && now / 86400 > r.window_start / 86400 {
        AddressRateLimit { daily_volume: 0, ..r }
    } else {
        r
    };
    if cfg.window_duration > 0 && r1.window_start > 0 && now >= r1.window_start + cfg.window_duration {
        AddressRateLimit { payment_count: 0, window_start: now, ..r1 }
    } else if r1.window_start == 0 {
        AddressRateLimit { window_start: now, ..r1 }
    } else {
        r1
    }
}

/// What the rate limits answer to a payment of `amount` at `now` for record `r`.
pub open spec fn rate_limit_result(cfg: RateLimitConfig, r: AddressRateLimit, now: u64, amount: i128) -> Result<(), Error> {
    if r.flagged {
        Err(Error::AddressFlagged)
    } else if cfg.max_payment_amount > 0 && amount > cfg.max_payment_amount {
        Err(Error::AmountExceedsLimit)
    } else {
        let w = rolled(cfg, r, now);
        if cfg.max_payments_per_window > 0 && w.payment_count >= cfg.max_payments_per_window {
            Err(Error::RateLimitExceeded)
        } else if cfg.max_daily_volume > 0 && clamp_i128(w.daily_volume + amount) > cfg.max_daily_volume {
            Err(Error::DailyVolumeExceeded)
        } else {
            Ok(())
        }
    }
}

/// Whether the count of payments in the window is refused.
pub open spec fn breaches_window(cfg: RateLimitConfig, r: AddressRateLimit, now: u64, amount: i128) -> bool {
    rate_limit_result(cfg, r, now, amount) == Err::<(), Error>(Error::RateLimitExceeded)
}

/// The record after a payment of `amount` at `now` that the limits allow.
pub open spec fn recorded(cfg: RateLimitConfig, r: AddressRateLimit, now: u64, amount: i128) -> AddressRateLimit {
    let w = rolled(cfg, r, now);
    AddressRateLimit {
        daily_volume: if cfg.max_daily_volume > 0 { clamp_i128(w.daily_volume + amount) } else { w.daily_volume },
        payment_count: (w.payment_count + 1) as u32,
        last_payment_at: now,
        ..w
    }
}

/// Whether the payment count of the record stays a `u32`.
pub open spec fn record_fits(cfg: RateLimitConfig, r: AddressRateLimit, now: u64) -> bool {
    rolled(cfg, r, now).payment_count < u32::MAX
}

/// What the rate limits answer to a payment of `amount` by `a` at `now`.
pub open spec fn rate_limit_outcome(c: PaymentContract, now: u64, a: Address, amount: i128) -> Result<(), Error> {
    match c.limits.config {
        None => Ok(()),
        Some(cfg) => rate_limit_result(cfg, record_in(c.limits.records@, a), now, amount),
    }
}

/// The records after a payment of `amount` by `a` at `now` that the limits allow.
pub open spec fn records_after(c: PaymentContract, now: u64, a: Address, amount: i128) -> Map<Address, AddressRateLimit> {
    match c.limits.config {
        None => c.limits.records@,
        Some(cfg) => c.limits.records@.insert(a, recorded(cfg, record_in(c.limits.records@, a), now, amount)),
    }
}

/// The events a refusal of the rate limits publishes.
pub open spec fn refusal_events(c: PaymentContract, now: u64, a: Address, amount: i128) -> Seq<PaymentEvent> {
    match c.limits.config {
        Some(cfg) => if breaches_window(cfg, record_in(c.limits.records@, a), now, amount) {
            seq![PaymentEvent::RateLimitBreached(RateLimitBreached {
                address: a,
                payment_count: rolled(cfg, record_in(c.limits.records@, a), now).payment_count,
            })]
        } else {
            Seq::empty()
        },
        None => Seq::empty(),
    }
}

/// Whether recording a payment by `a` at `now` keeps its count a `u32`.
pub open spec fn rate_limit_fits(c: PaymentContract, now: u64, a: Address) -> bool {
    c.limits.config matches Some(cfg) ==> record_fits(cfg, record_in(c.limits.records@, a), now)
}

impl PaymentContract {
    /// The admin sets the rate-limit configuration.
    pub fn set_rate_limit_config(&mut self, admin: Address, config: RateLimitConfig) -> (r: Result<(), Error>)
        requires
            old(self).admin is Some,
        ensures
            r == match old(self).admin_error(admin) { Some(e) => Err::<(), Error>(e), None => Ok(()) },
            r is Err ==> *final(self) == *old(self),
            r is Ok ==> final(self).limits.config == Some(config) && final(self).limits.records == old(self).limits.records
                && final(self).admin == old(self).admin && final(self).book == old(self).book
                && final(self).subscriptions == old(self).subscriptions && final(self).events == old(self).events
                && final(self).transfers == old(self).transfers,
    {
        if self.admin != Some(admin) {
            return Err(Error::Unauthorized);
        }
        self.limits.config = Some(config);
        Ok(())
    }

    /// The rate-limit configuration in force; all zero, which means
    /// unlimited, while none is set.
    pub fn get_rate_limit_config(&self) -> (r: RateLimitConfig)
        ensures
            r == limits_in(self.limits.config),
    {
        match self.limits.config {
            Some(c) => c,
            None => RateLimitConfig { max_payments_per_window: 0, window_duration: 0, max_payment_amount: 0, max_daily_volume: 0 },
        }
    }

    /// The rate-limit record of `address`, or a fresh one.
    pub fn get_address_rate_limit(&self, address: Address) -> (r: AddressRateLimit)
        ensures
            r == record_in(self.limits.records@, address),
    {
        match self.limits.records.get(&address) {
            Some(r) => *r,
            None => AddressRateLimit {
                address,
                payment_count: 0,
                window_start: 0,
                daily_volume: 0,
                last_payment_at: 0,
                flagged: false,
            },
        }
    }

    /// The admin flags `address`, which may then create no payment.
    pub fn flag_address(&mut self, admin: Address, address: Address, reason: String) -> (r: Result<(), Error>)
        requires
            old(self).admin is Some,
        ensures
            r == match old(self).admin_error(admin) { Some(e) => Err::<(), Error>(e), None => Ok(()) },
            r is Err ==> *final(self) == *old(self),
            r is Ok ==> {
                &&& final(self).limits.records@ == old(self).limits.records@.insert(
                    address,
                    AddressRateLimit { flagged: true, ..record_in(old(self).limits.records@, address) },
                )
                &&& final(self).limits.config == old(self).limits.config
                &&& final(self).events@ == old(self).events@.push(
                    PaymentEvent::AddressFlagged(AddressFlagged { address, reason }),
                )
                &&& final(self).admin == old(self).admin
                &&& final(self).book == old(self).book
                &&& final(self).subscriptions == old(self).subscriptions
                &&& final(self).transfers == old(self).transfers
            },
    {
        if self.admin != Some(admin) {
            return Err(Error::Unauthorized);
        }
        let mut record = self.get_address_rate_limit(address);
        record.flagged = true;
        self.limits.records.insert(address, record);
        self.events.push(PaymentEvent::AddressFlagged(AddressFlagged { address, reason }));
        Ok(())
    }

    /// The admin clears the flag of `address`.
    pub fn unflag_address(&mut self, admin: Address, address: Address) -> (r: Result<(), Error>)
        requires
            old(self).admin is Some,
        ensures
            r == match old(self).admin_error(admin) { Some(e) => Err::<(), Error>(e), None => Ok(()) },
            r is Err ==> *final(self) == *old(self),
            r is Ok ==> {
                &&& final(self).limits.records@ == old(self).limits.records@.insert(
                    address,
                    AddressRateLimit { flagged: false, ..record_in(old(self).limits.records@, address) },
                )
                &&& final(self).limits.config == old(self).limits.config
                &&& final(self).events@ == old(self).events@.push(
                    PaymentEvent::AddressUnflagged(AddressUnflagged { address }),
                )
                &&& final(self).admin == old(self).admin
                &&& final(self).book == old(self).book
                &&& final(self).subscriptions == old(self).subscriptions
                &&& final(self).transfers == old(self).transfers
            },
    {
        if self.admin != Some(admin) {
            return Err(Error::Unauthorized);
        }
        let mut record = self.get_address_rate_limit(address);
        record.flagged = false;
        self.limits.records.insert(address, record);
        self.events.push(PaymentEvent::AddressUnflagged(AddressUnflagged { address }));
        Ok(())
    }

    /// Checks a payment of `amount` by `address` at `now` against the limits
    /// and, when they allow it, records it. Without a configuration nothing is
    /// checked or recorded. A refusal for the count per window publishes a
    /// breach event.
    pub(crate) fn check_rate_limit(&mut self, now: u64, address: Address, amount: i128) -> (r: Result<(), Error>)
        requires
            rate_limit_fits(*old(self), now, address),
        ensures
            r == rate_limit_outcome(*old(self), now, address, amount),
            r is Ok ==> final(self).limits.records@ == records_after(*old(self), now, address, amount)
                && final(self).events == old(self).events,
            r is Err ==> final(self).limits.records == old(self).limits.records
                && final(self).events@ == old(self).events@ + refusal_events(*old(self), now, address, amount),
            old(self).limits.config is None ==> *final(self) == *old(self),
            final(self).limits.config == old(self).limits.config,
            final(self).admin == old(self).admin,
            final(self).book == old(self).book,
            final(self).subscriptions == old(self).subscriptions,
            final(self).transfers == old(self).transfers,
    {
        let config = match self.limits.config {
            None => return Ok(()),
            Some(c) => c,
        };
        let mut record = self.get_address_rate_limit(address);
        if record.flagged {
            proof {
                assert(self.events@ =~= old(self).events@ + refusal_events(*old(self), now, address, amount));
            }
            return Err(Error::AddressFlagged);
        }
        if config.max_payment_amount > 0 && amount > config.max_payment_amount {
            proof {
                assert(self.events@ =~= old(self).events@ + refusal_events(*old(self), now, address, amount));
            }
            return Err(Error::AmountExceedsLimit);
        }
        if record.window_start > 0 && now / SECONDS_PER_DAY > record.window_start / SECONDS_PER_DAY {
            record.daily_volume = 0;
        }
        if config.window_duration > 0 && record.window_start > 0
            && (now as u128) >= (record.window_start as u128) + (config.window_duration as u128) {
            record.payment_count = 0;
            record.window_start = now;
        } else if record.window_start == 0 {
            record.window_start = now;
        }
        if config.max_payments_per_window > 0 && record.payment_count >= config.max_payments_per_window {
            self.events.push(
                PaymentEvent::RateLimitBreached(RateLimitBreached { address, payment_count: record.payment_count }),
            );
            proof {
                assert(self.events@ =~= old(self).events@ + refusal_events(*old(self), now, address, amount));
            }
            return Err(Error::RateLimitExceeded);
        }
        if config.max_daily_volume > 0 {
            let new_volume = saturating_add_i128(record.daily_volume, amount);
            if new_volume > config.max_daily_volume {
                proof {
                    assert(self.events@ =~= old(self).events@ + refusal_events(*old(self), now, address, amount));
                }
                return Err(Error::DailyVolumeExceeded);
            }
            record.daily_volume = new_volume;
        }
        record.payment_count = record.payment_count + 1;
        record.last_payment_at = now;
        self.limits.records.insert(address, record);
        Ok(())
    }
    /// What the rate limits answer to a payment of `amount` by `address` at
    /// `now`, without recording anything.
    pub(crate) fn rate_limit_verdict(&self, now: u64, address: Address, amount: i128) -> (r: Result<(), Error>)
        ensures
            r == rate_limit_outcome(*self, now, address, amount),
    {
        let config = match self.limits.config {
            None => return Ok(()),
            Some(c) => c,
        };
        let mut record = self.get_address_rate_limit(address);
        if record.flagged {
            return Err(Error::AddressFlagged);
        }
        if config.max_payment_amount > 0 && amount > config.max_payment_amount {
            return Err(Error::AmountExceedsLimit);
        }
        if record.window_start > 0 && now / SECONDS_PER_DAY > record.window_start / SECONDS_PER_DAY {
            record.daily_volume = 0;
        }
        if config.window_duration > 0 && record.window_start > 0
            && (now as u128) >= (record.window_start as u128) + (config.window_duration as u128) {
            record.payment_count = 0;
            record.window_start = now;
        } else if record.window_start == 0 {
            record.window_start = now;
        }
        if config.max_payments_per_window > 0 && record.payment_count >= config.max_payments_per_window {
            return Err(Error::RateLimitExceeded);
        }
        if config.max_daily_volume > 0 && saturating_add_i128(record.daily_volume, amount) > config.max_daily_volume {
            return Err(Error::DailyVolumeExceeded);
        }
        Ok(())
    }
}

} // verus!
