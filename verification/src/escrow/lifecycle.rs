//! The life of a two-party escrow: creation, release, refund, dispute,
//! evidence, escalation and resolution, and the lists by party.
use vstd::prelude::*;
use crate::ledger::{Address, Party, TokenTransfer, TransferMode};
use crate::escrow::types::{
    Error, Escrow, EscrowCreated, EscrowDisputed, EscrowEvent, EscrowReleased, EscrowResolved,
    EscrowStatus,
};
use crate::index::{append_to_index, ids_of, index_appended, page_end};
use crate::escrow::state::{
    escrow_page, EscrowContract,
};
use crate::escrow::reputation::{
    completion_event, completion_fits, config_in, scores_after_completion,
};

verus! {

/// Why a release of `e` at time `now` is refused, if it is.
pub open spec fn release_error(e: Escrow, now: u64, early_release: bool) -> Option<Error> {
    match e.status {
        EscrowStatus::Locked => {
            if !early_release && now < e.release_timestamp {
                Some(Error::ReleaseNotYetAvailable)
            } else if !early_release && now < e.created_at + e.min_hold_period {
                Some(Error::ReleaseOnHoldPeriod)
            } else {
                None
            }
        },
        EscrowStatus::Released => Some(Error::AlreadyProcessed),
        EscrowStatus::Disputed => Some(Error::InvalidStatus),
        EscrowStatus::Resolved => Some(Error::AlreadyProcessed),
    }
}

/// What a release of escrow `id` answers.
pub open spec fn release_outcome(escrows: Map<u64, Escrow>, id: u64, now: u64, early_release: bool) -> Result<(), Error> {
    if !escrows.contains_key(id) {
        Err(Error::EscrowNotFound)
    } else {
        match release_error(escrows[id], now, early_release) {
            Some(err) => Err(err),
            None => Ok(()),
        }
    }
}

/// Whether rewarding the merchant, then the customer, for a completion keeps
/// both scores in range.
pub open spec fn completion_pair_fits(c: EscrowContract, e: Escrow, now: u64) -> bool {
    let cfg = config_in(c.reputation.config);
    let s0 = c.reputation.scores@;
    &&& completion_fits(s0, cfg, e.merchant)
    &&& completion_fits(scores_after_completion(s0, cfg, e.merchant, now), cfg, e.customer)
}

/// The transfer of an escrow's amount out of the contract to `to`, made only
/// if the escrow's token is a token contract.
pub open spec fn payout(e: Escrow, to: Address) -> TokenTransfer {
    TokenTransfer {
        token: e.token,
        from: Party::Contract,
        to: Party::Account(to),
        amount: e.amount,
        mode: TransferMode::IfTokenContract,
    }
}

/// The state after escrow `id`, which can be released, is released at `now`.
pub open spec fn released(old: EscrowContract, new: EscrowContract, id: u64, now: u64) -> bool {
    let e = old.book.escrows@[id];
    let cfg = config_in(old.reputation.config);
    let s0 = old.reputation.scores@;
    let s1 = scores_after_completion(s0, cfg, e.merchant, now);
    &&& new.book.escrows@ == old.book.escrows@.insert(id, Escrow { status: EscrowStatus::Released, ..e })
    &&& new.book.same_except_escrows(&old.book)
    &&& new.reputation.scores@ == scores_after_completion(s1, cfg, e.customer, now)
    &&& new.reputation.config == old.reputation.config
    &&& new.transfers@ == old.transfers@.push(payout(e, e.merchant))
    &&& new.events@ == old.events@ + seq![
        completion_event(s0, cfg, e.merchant, now),
        completion_event(s1, cfg, e.customer, now),
        EscrowEvent::EscrowReleased(EscrowReleased { escrow_id: id, merchant: e.merchant, amount: e.amount }),
    ]
    &&& new.admin == old.admin
    &&& new.multi_party == old.multi_party
}

/// Whether `caller` is the customer or the merchant of `e`.
pub open spec fn is_party(e: Escrow, caller: Address) -> bool {
    e.customer == caller || e.merchant == caller
}

/// What a refund of escrow `id` by `caller` answers.
pub open spec fn refund_outcome(escrows: Map<u64, Escrow>, id: u64, caller: Address) -> Result<(), Error> {
    if !escrows.contains_key(id) {
        Err(Error::EscrowNotFound)
    } else if !is_party(escrows[id], caller) {
        Err(Error::Unauthorized)
    } else {
        match escrows[id].status {
            EscrowStatus::Locked | EscrowStatus::Disputed => Ok(()),
            EscrowStatus::Released | EscrowStatus::Resolved => Err(Error::AlreadyProcessed),
        }
    }
}

/// What a dispute of escrow `id` by `caller` answers.
pub open spec fn dispute_outcome(escrows: Map<u64, Escrow>, id: u64, caller: Address) -> Result<(), Error> {
    if !escrows.contains_key(id) {
        Err(Error::EscrowNotFound)
    } else if !is_party(escrows[id], caller) {
        Err(Error::Unauthorized)
    } else if escrows[id].status == EscrowStatus::Locked {
        Ok(())
    } else {
        Err(Error::AlreadyProcessed)
    }
}

/// `now < base + period`, computed without overflow.
fn before_end_of(now: u64, base: u64, period: u64) -> (r: bool)
    ensures
        r == (now < base + period),
{
    (now as u128) < (base as u128) + (period as u128)
}

impl EscrowContract {
    /// Creates a locked escrow of `amount` of `token` from `customer` to
    /// `merchant` and returns its id, one more than the last escrow id. The
    /// escrow is listed under its customer and its merchant.
    pub fn create_escrow(
        &mut self,
        now: u64,
        customer: Address,
        merchant: Address,
        amount: i128,
        token: Address,
        release_timestamp: u64,
        min_hold_period: u64,
    ) -> (id: u64)
        requires
            old(self).wf(),
            old(self).book.escrow_counter < u64::MAX,
        ensures
            final(self).wf(),
            id == old(self).book.escrow_counter + 1,
            final(self).book.escrow_counter == id,
            final(self).book.escrows@ == old(self).book.escrows@.insert(
                id,
                Escrow {
                    id,
                    customer,
                    merchant,
                    amount,
                    token,
                    status: EscrowStatus::Locked,
                    created_at: now,
                    release_timestamp,
                    dispute_started_at: 0,
                    last_activity_at: now,
                    escalation_level: 0,
                    min_hold_period,
                },
            ),
            index_appended(old(self).book.customer_escrows@, final(self).book.customer_escrows@, customer, id),
            index_appended(old(self).book.merchant_escrows@, final(self).book.merchant_escrows@, merchant, id),
            final(self).book.evidence == old(self).book.evidence,
            final(self).book.vesting_schedules == old(self).book.vesting_schedules,
            final(self).events@ == old(self).events@.push(
                EscrowEvent::EscrowCreated(EscrowCreated {
                    escrow_id: id,
                    customer,
                    merchant,
                    amount,
                    token,
                    release_timestamp,
                }),
            ),
            final(self).admin == old(self).admin,
            final(self).multi_party == old(self).multi_party,
            final(self).reputation == old(self).reputation,
            final(self).transfers == old(self).transfers,
    {
        let escrow_id = self.book.escrow_counter + 1;
        let escrow = Escrow {
            id: escrow_id,
            customer,
            merchant,
            amount,
            token,
            status: EscrowStatus::Locked,
            created_at: now,
            release_timestamp,
            dispute_started_at: 0,
            last_activity_at: now,
            escalation_level: 0,
            min_hold_period,
        };
        self.book.escrows.insert(escrow_id, escrow);
        self.book.escrow_counter = escrow_id;
        append_to_index(&mut self.book.customer_escrows, customer, escrow_id);
        append_to_index(&mut self.book.merchant_escrows, merchant, escrow_id);
        self.events.push(
            EscrowEvent::EscrowCreated(EscrowCreated {
                escrow_id,
                customer,
                merchant,
                amount,
                token,
                release_timestamp,
            }),
        );
        proof {
            let b = self.book;
            let ob = old(self).book;
            assert forall|a: Address, x: u64| #[trigger] ids_of(b.customer_escrows@, a).contains(x) implies b.escrows@.contains_key(x) by {
                assert(ids_of(b.customer_escrows@, a) == if a == customer { ids_of(ob.customer_escrows@, a).push(escrow_id) } else { ids_of(ob.customer_escrows@, a) });
                if x != escrow_id {
                    assert(ids_of(ob.customer_escrows@, a).contains(x));
                }
            }
            assert forall|a: Address, x: u64| #[trigger] ids_of(b.merchant_escrows@, a).contains(x) implies b.escrows@.contains_key(x) by {
                assert(ids_of(b.merchant_escrows@, a) == if a == merchant { ids_of(ob.merchant_escrows@, a).push(escrow_id) } else { ids_of(ob.merchant_escrows@, a) });
                if x != escrow_id {
                    assert(ids_of(ob.merchant_escrows@, a).contains(x));
                }
            }
        }
        escrow_id
    }

    /// The escrow with id `escrow_id`, which must exist.
    pub fn get_escrow(&self, escrow_id: u64) -> (e: Escrow)
        requires
            self.book.escrows@.contains_key(escrow_id),
        ensures
            e == self.book.escrows@[escrow_id],
    {
        *self.book.escrows.get(&escrow_id).unwrap()
    }

    /// Releases escrow `escrow_id` to its merchant. A locked escrow is
    /// released once both its release timestamp and its minimum hold period
    /// have passed, or at once when `early_release` is set; the merchant, then
    /// the customer, earn the completion reward, and the amount goes to the
    /// merchant if the token is a token contract.
    pub fn release_escrow(&mut self, now: u64, admin: Address, escrow_id: u64, early_release: bool) -> (r: Result<(), Error>)
        requires
            old(self).wf(),
            release_outcome(old(self).book.escrows@, escrow_id, now, early_release) is Ok
                ==> completion_pair_fits(*old(self), old(self).book.escrows@[escrow_id], now),
        ensures
            final(self).wf(),
            r == release_outcome(old(self).book.escrows@, escrow_id, now, early_release),
            r is Err ==> *final(self) == *old(self),
            r is Ok ==> released(*old(self), *final(self), escrow_id, now),
    {
        self.release(now, escrow_id, early_release)
    }

    /// Releases escrow `escrow_id`; the common part of a direct release and
    /// of an approved release proposal.
    pub(crate) fn release(&mut self, now: u64, escrow_id: u64, early_release: bool) -> (r: Result<(), Error>)
        requires
            old(self).wf(),
            release_outcome(old(self).book.escrows@, escrow_id, now, early_release) is Ok
                ==> completion_pair_fits(*old(self), old(self).book.escrows@[escrow_id], now),
        ensures
            final(self).wf(),
            r == release_outcome(old(self).book.escrows@, escrow_id, now, early_release),
            r is Err ==> *final(self) == *old(self),
            r is Ok ==> released(*old(self), *final(self), escrow_id, now),
    {
        if !self.book.escrows.contains_key(&escrow_id) {
            return Err(Error::EscrowNotFound);
        }
        let mut escrow = self.get_escrow(escrow_id);
        match escrow.status {
            EscrowStatus::Locked => {
                if !early_release {
                    if now < escrow.release_timestamp {
                        return Err(Error::ReleaseNotYetAvailable);
                    }
                    if before_end_of(now, escrow.created_at, escrow.min_hold_period) {
                        return Err(Error::ReleaseOnHoldPeriod);
                    }
                }
                escrow.status = EscrowStatus::Released;
            },
            EscrowStatus::Released => return Err(Error::AlreadyProcessed),
            EscrowStatus::Disputed => return Err(Error::InvalidStatus),
            EscrowStatus::Resolved => return Err(Error::AlreadyProcessed),
        }
        self.book.escrows.insert(escrow_id, escrow);
        self.transfers.push(
            TokenTransfer {
                token: escrow.token,
                from: Party::Contract,
                to: Party::Account(escrow.merchant),
                amount: escrow.amount,
                mode: TransferMode::IfTokenContract,
            },
        );
        self.update_reputation_on_completion(now, escrow.merchant);
        self.update_reputation_on_completion(now, escrow.customer);
        self.events.push(
            EscrowEvent::EscrowReleased(EscrowReleased {
                escrow_id,
                merchant: escrow.merchant,
                amount: escrow.amount,
            }),
        );
        proof {
            assert(self.events@ =~= old(self).events@ + seq![
                completion_event(old(self).reputation.scores@, config_in(old(self).reputation.config), escrow.merchant, now),
                completion_event(
                    scores_after_completion(old(self).reputation.scores@, config_in(old(self).reputation.config), escrow.merchant, now),
                    config_in(old(self).reputation.config),
                    escrow.customer,
                    now,
                ),
                EscrowEvent::EscrowReleased(EscrowReleased { escrow_id, merchant: escrow.merchant, amount: escrow.amount }),
            ]);
        }
        Ok(())
    }
}

} // verus!

verus! {

impl EscrowContract {
    /// Refunds escrow `escrow_id` to its customer at the request of its
    /// customer or merchant: a locked or disputed escrow becomes resolved and
    /// its amount goes back to the customer if the token is a token contract.
    pub fn refund_escrow(&mut self, caller: Address, escrow_id: u64) -> (r: Result<(), Error>)
        requires
            old(self).wf(),
        ensures
            final(self).wf(),
            r == refund_outcome(old(self).book.escrows@, escrow_id, caller),
            r is Err ==> *final(self) == *old(self),
            r is Ok ==> {
                let e = old(self).book.escrows@[escrow_id];
                &&& final(self).book.escrows@ == old(self).book.escrows@.insert(
                    escrow_id,
                    Escrow { status: EscrowStatus::Resolved, ..e },
                )
                &&& final(self).book.same_except_escrows(&old(self).book)
                &&& final(self).transfers@ == old(self).transfers@.push(payout(e, e.customer))
                &&& final(self).events@ == old(self).events@.push(
                    EscrowEvent::EscrowResolved(EscrowResolved {
                        escrow_id,
                        released_to_merchant: false,
                        amount: e.amount,
                    }),
                )
                &&& final(self).admin == old(self).admin
                &&& final(self).multi_party == old(self).multi_party
                &&& final(self).reputation == old(self).reputation
            },
    {
        if !self.book.escrows.contains_key(&escrow_id) {
            return Err(Error::EscrowNotFound);
        }
        let mut escrow = self.get_escrow(escrow_id);
        if escrow.customer != caller && escrow.merchant != caller {
            return Err(Error::Unauthorized);
        }
        match escrow.status {
            EscrowStatus::Locked | EscrowStatus::Disputed => {
                escrow.status = EscrowStatus::Resolved;
            },
            EscrowStatus::Released | EscrowStatus::Resolved => return Err(Error::AlreadyProcessed),
        }
        self.book.escrows.insert(escrow_id, escrow);
        self.transfers.push(
            TokenTransfer {
                token: escrow.token,
                from: Party::Contract,
                to: Party::Account(escrow.customer),
                amount: escrow.amount,
                mode: TransferMode::IfTokenContract,
            },
        );
        self.events.push(
            EscrowEvent::EscrowResolved(EscrowResolved {
                escrow_id,
                released_to_merchant: false,
                amount: escrow.amount,
            }),
        );
        Ok(())
    }

    /// Opens a dispute on escrow `escrow_id` at the request of its customer or
    /// merchant: a locked escrow becomes disputed, with the dispute and the
    /// last activity dated `now`.
    pub fn dispute_escrow(&mut self, now: u64, caller: Address, escrow_id: u64) -> (r: Result<(), Error>)
        requires
            old(self).wf(),
        ensures
            final(self).wf(),
            r == dispute_outcome(old(self).book.escrows@, escrow_id, caller),
            r is Err ==> *final(self) == *old(self),
            r is Ok ==> {
                let e = old(self).book.escrows@[escrow_id];
                &&& final(self).book.escrows@ == old(self).book.escrows@.insert(
                    escrow_id,
                    Escrow {
                        status: EscrowStatus::Disputed,
                        dispute_started_at: now,
                        last_activity_at: now,
                        ..e
                    },
                )
                &&& final(self).book.same_except_escrows(&old(self).book)
                &&& final(self).events@ == old(self).events@.push(
                    EscrowEvent::EscrowDisputed(EscrowDisputed { escrow_id, disputed_by: caller }),
                )
                &&& final(self).transfers == old(self).transfers
                &&& final(self).admin == old(self).admin
                &&& final(self).multi_party == old(self).multi_party
                &&& final(self).reputation == old(self).reputation
            },
    {
        if !self.book.escrows.contains_key(&escrow_id) {
            return Err(Error::EscrowNotFound);
        }
        let mut escrow = self.get_escrow(escrow_id);
        if escrow.customer != caller && escrow.merchant != caller {
            return Err(Error::Unauthorized);
        }
        match escrow.status {
            EscrowStatus::Locked => {
                escrow.status = EscrowStatus::Disputed;
                escrow.dispute_started_at = now;
                escrow.last_activity_at = escrow.dispute_started_at;
            },
            EscrowStatus::Released => return Err(Error::AlreadyProcessed),
            EscrowStatus::Disputed => return Err(Error::AlreadyProcessed),
            EscrowStatus::Resolved => return Err(Error::AlreadyProcessed),
        }
        self.book.escrows.insert(escrow_id, escrow);
        self.events.push(EscrowEvent::EscrowDisputed(EscrowDisputed { escrow_id, disputed_by: caller }));
        Ok(())
    }

    /// The ids of the escrows of `customer`, a page of at most `limit` of them
    /// from position `offset` in creation order.
    pub fn get_escrows_by_customer(&self, customer: Address, limit: u64, offset: u64) -> (r: Vec<Escrow>)
        requires
            self.wf(),
            offset + limit <= u64::MAX,
        ensures
            r@ == escrow_page(ids_of(self.book.customer_escrows@, customer), self.book.escrows@, offset as int, limit as int),
    {
        let ids = match self.book.customer_escrows.get(&customer) {
            Some(v) => v,
            None => return Vec::new(),
        };
        proof {
            assert(ids@ == ids_of(self.book.customer_escrows@, customer));
            assert forall|k: int| 0 <= k < ids@.len() implies self.book.escrows@.contains_key(#[trigger] ids@[k]) by {
                assert(ids_of(self.book.customer_escrows@, customer).contains(ids@[k]));
            }
        }
        self.escrows_of(ids, limit, offset)
    }

    /// The number of escrows of `customer`.
    pub fn get_escrow_count_by_customer(&self, customer: Address) -> (r: u64)
        ensures
            r == ids_of(self.book.customer_escrows@, customer).len(),
    {
        match self.book.customer_escrows.get(&customer) {
            Some(v) => v.len() as u64,
            None => 0,
        }
    }

    /// The escrows of `merchant`, a page of at most `limit` of them from
    /// position `offset` in creation order.
    pub fn get_escrows_by_merchant(&self, merchant: Address, limit: u64, offset: u64) -> (r: Vec<Escrow>)
        requires
            self.wf(),
            offset + limit <= u64::MAX,
        ensures
            r@ == escrow_page(ids_of(self.book.merchant_escrows@, merchant), self.book.escrows@, offset as int, limit as int),
    {
        let ids = match self.book.merchant_escrows.get(&merchant) {
            Some(v) => v,
            None => return Vec::new(),
        };
        proof {
            assert(ids@ == ids_of(self.book.merchant_escrows@, merchant));
            assert forall|k: int| 0 <= k < ids@.len() implies self.book.escrows@.contains_key(#[trigger] ids@[k]) by {
                assert(ids_of(self.book.merchant_escrows@, merchant).contains(ids@[k]));
            }
        }
        self.escrows_of(ids, limit, offset)
    }

    /// The number of escrows of `merchant`.
    pub fn get_escrow_count_by_merchant(&self, merchant: Address) -> (r: u64)
        ensures
            r == ids_of(self.book.merchant_escrows@, merchant).len(),
    {
        match self.book.merchant_escrows.get(&merchant) {
            Some(v) => v.len() as u64,
            None => 0,
        }
    }

    /// The escrows named by a page of `ids`.
    fn escrows_of(&self, ids: &Vec<u64>, limit: u64, offset: u64) -> (r: Vec<Escrow>)
        requires
            forall|k: int| 0 <= k < ids@.len() ==> self.book.escrows@.contains_key(#[trigger] ids@[k]),
            offset + limit <= u64::MAX,
        ensures
            r@ == escrow_page(ids@, self.book.escrows@, offset as int, limit as int),
    {
        let total = ids.len() as u64;
        let mut escrows: Vec<Escrow> = Vec::new();
        let end = if offset + limit < total { offset + limit } else { total };
        let mut i = offset;
        while i < end
            invariant
                offset <= i,
                offset <= end ==> i <= end,
                end == page_end(ids@.len() as int, offset as int, limit as int),
                end <= ids@.len(),
                forall|k: int| 0 <= k < ids@.len() ==> self.book.escrows@.contains_key(#[trigger] ids@[k]),
                offset < end ==> escrows@ == ids@.subrange(offset as int, i as int).map_values(|id: u64| self.book.escrows@[id]),
                offset >= end ==> escrows@.len() == 0,
            decreases end - i,
        {
            assert(i < ids.len());
            let idx = i as usize;
            assert(idx as int == i as int);
            let id = ids[idx];
            let e = *self.book.escrows.get(&id).unwrap();
            escrows.push(e);
            proof {
                assert(id == ids@[i as int]);
                assert(e == self.book.escrows@[ids@[i as int]]);
                assert(ids@.subrange(offset as int, i + 1).map_values(|id: u64| self.book.escrows@[id])
                    =~= ids@.subrange(offset as int, i as int).map_values(|id: u64| self.book.escrows@[id]).push(e));
            }
            i = i + 1;
        }
        escrows
    }
}

} // verus!
