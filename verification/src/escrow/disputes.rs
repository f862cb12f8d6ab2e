//! Disputes: evidence, escalation, and resolution by an admin or, after a
//! period without activity, by the reputation-weighted evidence.
use vstd::prelude::*;
use crate::ledger::{Address, Party, TokenTransfer, TransferMode};
use crate::arith::{clamp_i128, saturating_add_i128};
use crate::escrow::types::{
    DisputeEscalated, Error, Escrow, EscrowEvent, EscrowResolved, EscrowStatus, Evidence,
    EvidenceSubmitted, ReputationScore,
};
use crate::escrow::state::{evidence_of, EscrowContract};
use crate::escrow::reputation::{config_in, dispute_events, dispute_fits, reputation_in, scores_after_dispute};
use crate::escrow::lifecycle::{is_party, payout};

verus! {

/// How long a dispute must stay without activity before it can be resolved
/// automatically, in seconds.
pub const DISPUTE_TIMEOUT: u64 = 500;

/// What a submission or an escalation on escrow `id` by `caller` answers.
pub open spec fn dispute_party_outcome(escrows: Map<u64, Escrow>, id: u64, caller: Address) -> Result<(), Error> {
    if !escrows.contains_key(id) {
        Err(Error::EscrowNotFound)
    } else if escrows[id].status != EscrowStatus::Disputed {
        Err(Error::NotDisputed)
    } else if !is_party(escrows[id], caller) {
        Err(Error::Unauthorized)
    } else {
        Ok(())
    }
}

/// The weight of the customer's evidence among `evs`: the sum, saturating,
/// of the customer's score once per piece it submitted.
pub open spec fn customer_weight(evs: Seq<Evidence>, scores: Map<Address, ReputationScore>, customer: Address) -> i128
    decreases evs.len(),
{
    if evs.len() == 0 {
        0
    } else {
        let w = customer_weight(evs.drop_last(), scores, customer);
        let s = evs.last().submitter;
        if s == customer {
            clamp_i128(w + reputation_in(scores, s).score)
        } else {
            w
        }
    }
}

/// The weight of the merchant's evidence among `evs`, counted as for the
/// customer; a piece goes to the customer's side when the customer is also
/// the merchant.
pub open spec fn merchant_weight(
    evs: Seq<Evidence>,
    scores: Map<Address, ReputationScore>,
    customer: Address,
    merchant: Address,
) -> i128
    decreases evs.len(),
{
    if evs.len() == 0 {
        0
    } else {
        let w = merchant_weight(evs.drop_last(), scores, customer, merchant);
        let s = evs.last().submitter;
        if s != customer && s == merchant {
            clamp_i128(w + reputation_in(scores, s).score)
        } else {
            w
        }
    }
}

/// Whether the merchant's evidence in the dispute on escrow `id` outweighs
/// the customer's.
pub open spec fn merchant_outweighs(c: EscrowContract, id: u64) -> bool {
    let e = c.book.escrows@[id];
    let evs = evidence_of(c.book.evidence@, id);
    merchant_weight(evs, c.reputation.scores@, e.customer, e.merchant)
        > customer_weight(evs, c.reputation.scores@, e.customer)
}

/// The winner and the loser of a dispute on `e`.
pub open spec fn winner_of(e: Escrow, release_to_merchant: bool) -> Address {
    if release_to_merchant { e.merchant } else { e.customer }
}

/// The loser of a dispute on `e`.
pub open spec fn loser_of(e: Escrow, release_to_merchant: bool) -> Address {
    if release_to_merchant { e.customer } else { e.merchant }
}

/// The status a dispute settles an escrow in.
pub open spec fn settled_status(release_to_merchant: bool) -> EscrowStatus {
    if release_to_merchant { EscrowStatus::Released } else { EscrowStatus::Resolved }
}

/// Whether settling the dispute on escrow `id` keeps the reputations in range.
pub open spec fn settlement_fits(c: EscrowContract, id: u64, now: u64, release_to_merchant: bool) -> bool {
    let e = c.book.escrows@[id];
    dispute_fits(
        c.reputation.scores@,
        config_in(c.reputation.config),
        winner_of(e, release_to_merchant),
        loser_of(e, release_to_merchant),
        now,
    )
}

/// The state after the dispute on escrow `id` is settled at `now`, in favour
/// of the merchant when `release_to_merchant` is set; `transfers` is left to
/// the caller.
pub open spec fn settled(old: EscrowContract, new: EscrowContract, id: u64, now: u64, release_to_merchant: bool) -> bool {
    let e = old.book.escrows@[id];
    let cfg = config_in(old.reputation.config);
    let w = winner_of(e, release_to_merchant);
    let l = loser_of(e, release_to_merchant);
    &&& new.book.escrows@ == old.book.escrows@.insert(id, Escrow { status: settled_status(release_to_merchant), ..e })
    &&& new.book.same_except_escrows(&old.book)
    &&& new.reputation.scores@ == scores_after_dispute(old.reputation.scores@, cfg, w, l, now)
    &&& new.reputation.config == old.reputation.config
    &&& new.events@ == old.events@ + dispute_events(old.reputation.scores@, cfg, w, l, now).push(
        EscrowEvent::EscrowResolved(EscrowResolved {
            escrow_id: id,
            released_to_merchant: release_to_merchant,
            amount: e.amount,
        }),
    )
    &&& new.admin == old.admin
    &&& new.multi_party == old.multi_party
}

/// What a resolution of escrow `id` by an admin answers.
pub open spec fn resolve_outcome(escrows: Map<u64, Escrow>, id: u64) -> Result<(), Error> {
    if !escrows.contains_key(id) {
        Err(Error::EscrowNotFound)
    } else if escrows[id].status != EscrowStatus::Disputed {
        Err(Error::NotDisputed)
    } else {
        Ok(())
    }
}

/// The time of the last activity in a dispute on `e`.
pub open spec fn last_activity(e: Escrow) -> u64 {
    if e.last_activity_at == 0 { e.dispute_started_at } else { e.last_activity_at }
}

/// What an automatic resolution of escrow `id` at `now` answers.
pub open spec fn auto_resolve_outcome(escrows: Map<u64, Escrow>, id: u64, now: u64) -> Result<(), Error> {
    if !escrows.contains_key(id) {
        Err(Error::EscrowNotFound)
    } else if escrows[id].status != EscrowStatus::Disputed {
        Err(Error::NotDisputed)
    } else if now - last_activity(escrows[id]) < 500 {
        Err(Error::TimeoutNotReached)
    } else {
        Ok(())
    }
}

/// The evidence submitted in the dispute on escrow `id`, a page of at most
/// `limit` pieces from position `offset`.
pub open spec fn evidence_page(evs: Seq<Evidence>, offset: int, limit: int) -> Seq<Evidence> {
    if limit == 0 || offset >= evs.len() {
        Seq::empty()
    } else {
        let end = if offset + limit < evs.len() { offset + limit } else { evs.len() as int };
        evs.subrange(offset, end)
    }
}

/// A copy of `e`.
fn copy_evidence(e: &Evidence) -> (r: Evidence)
    ensures
        r == *e,
{
    Evidence { submitter: e.submitter, ipfs_hash: e.ipfs_hash.clone(), submitted_at: e.submitted_at }
}

impl EscrowContract {
    /// Records a piece of evidence from the customer or the merchant of a
    /// disputed escrow, dated `now`, and dates the escrow's last activity `now`.
    pub fn submit_evidence(&mut self, now: u64, caller: Address, escrow_id: u64, ipfs_hash: String) -> (r: Result<(), Error>)
        requires
            old(self).wf(),
        ensures
            final(self).wf(),
            r == dispute_party_outcome(old(self).book.escrows@, escrow_id, caller),
            r is Err ==> *final(self) == *old(self),
            r is Ok ==> {
                let e = old(self).book.escrows@[escrow_id];
                &&& final(self).book.escrows@ == old(self).book.escrows@.insert(
                    escrow_id,
                    Escrow { last_activity_at: now, ..e },
                )
                &&& evidence_of(final(self).book.evidence@, escrow_id) == evidence_of(old(self).book.evidence@, escrow_id).push(
                    Evidence { submitter: caller, ipfs_hash, submitted_at: now },
                )
                &&& forall|k: u64| k != escrow_id ==> evidence_of(final(self).book.evidence@, k) == evidence_of(old(self).book.evidence@, k)
                &&& final(self).book.escrow_counter == old(self).book.escrow_counter
                &&& final(self).book.customer_escrows == old(self).book.customer_escrows
                &&& final(self).book.merchant_escrows == old(self).book.merchant_escrows
                &&& final(self).book.vesting_schedules == old(self).book.vesting_schedules
                &&& final(self).events@ == old(self).events@.push(
                    EscrowEvent::EvidenceSubmitted(EvidenceSubmitted { escrow_id, submitter: caller, ipfs_hash }),
                )
                &&& final(self).transfers == old(self).transfers
                &&& final(self).admin == old(self).admin
                &&& final(self).multi_party == old(self).multi_party
                &&& final(self).reputation == old(self).reputation
            },
    {
        if !self.book.escrows.contains_key(&escrow_id) {
            return Err(Error::EscrowNotFound);
        }
        let mut escrow = self.get_escrow(escrow_id);
        if escrow.status != EscrowStatus::Disputed {
            return Err(Error::NotDisputed);
        }
        if escrow.customer != caller && escrow.merchant != caller {
            return Err(Error::Unauthorized);
        }
        let evidence = Evidence { submitter: caller, ipfs_hash: ipfs_hash.clone(), submitted_at: now };
        let mut list = match self.book.evidence.remove(&escrow_id) {
            Some(v) => v,
            None => Vec::new(),
        };
        list.push(evidence);
        self.book.evidence.insert(escrow_id, list);
        escrow.last_activity_at = now;
        self.book.escrows.insert(escrow_id, escrow);
        self.events.push(EscrowEvent::EvidenceSubmitted(EvidenceSubmitted { escrow_id, submitter: caller, ipfs_hash }));
        Ok(())
    }

    /// The number of pieces of evidence recorded for escrow `escrow_id`.
    pub fn get_evidence_count(&self, escrow_id: u64) -> (r: u64)
        ensures
            r == evidence_of(self.book.evidence@, escrow_id).len(),
    {
        match self.book.evidence.get(&escrow_id) {
            Some(v) => v.len() as u64,
            None => 0,
        }
    }

    /// The evidence of escrow `escrow_id`, a page of at most `limit` pieces
    /// from position `offset`.
    pub fn get_evidence(&self, escrow_id: u64, limit: u64, offset: u64) -> (r: Vec<Evidence>)
        ensures
            r@ == evidence_page(evidence_of(self.book.evidence@, escrow_id), offset as int, limit as int),
    {
        let mut items: Vec<Evidence> = Vec::new();
        let evs = match self.book.evidence.get(&escrow_id) {
            Some(v) => v,
            None => return items,
        };
        let total = evs.len() as u64;
        if limit == 0 || offset >= total {
            return items;
        }
        let end = if offset.saturating_add(limit) < total { offset.saturating_add(limit) } else { total };
        let mut i = offset;
        while i < end
            invariant
                offset <= i <= end,
                end <= evs@.len(),
                end as int == (if offset + limit < evs@.len() { offset + limit } else { evs@.len() as int }),
                items@ == evs@.subrange(offset as int, i as int),
            decreases end - i,
        {
            assert(i < evs.len());
            let idx = i as usize;
            assert(idx as int == i as int);
            let ev = copy_evidence(&evs[idx]);
            items.push(ev);
            assert(items@ =~= evs@.subrange(offset as int, i + 1));
            i = i + 1;
        }
        items
    }

    /// Raises the escalation level of a disputed escrow by one (saturating)
    /// at the request of its customer or merchant, and dates its last
    /// activity `now`.
    pub fn escalate_dispute(&mut self, now: u64, caller: Address, escrow_id: u64) -> (r: Result<(), Error>)
        requires
            old(self).wf(),
        ensures
            final(self).wf(),
            r == dispute_party_outcome(old(self).book.escrows@, escrow_id, caller),
            r is Err ==> *final(self) == *old(self),
            r is Ok ==> {
                let e = old(self).book.escrows@[escrow_id];
                let level = if e.escalation_level == u64::MAX { e.escalation_level } else { (e.escalation_level + 1) as u64 };
                &&& final(self).book.escrows@ == old(self).book.escrows@.insert(
                    escrow_id,
                    Escrow { escalation_level: level, last_activity_at: now, ..e },
                )
                &&& final(self).book.same_except_escrows(&old(self).book)
                &&& final(self).events@ == old(self).events@.push(
                    EscrowEvent::DisputeEscalated(DisputeEscalated { escrow_id, level }),
                )
                &&& final(self).transfers == old(self).transfers
                &&& final(self).admin == old(self).admin
                &&& final(self).multi_party == old(self).multi_party
                &&& final(self).reputation == old(self).reputation
            },
    {
        if !self.book.escrows.contains_key(&escrow_id) {
            return Err(Error::EscrowNotFound);
        }
        let mut escrow = self.get_escrow(escrow_id);
        if escrow.status != EscrowStatus::Disputed {
            return Err(Error::NotDisputed);
        }
        if escrow.customer != caller && escrow.merchant != caller {
            return Err(Error::Unauthorized);
        }
        escrow.escalation_level = escrow.escalation_level.saturating_add(1);
        escrow.last_activity_at = now;
        self.book.escrows.insert(escrow_id, escrow);
        self.events.push(
            EscrowEvent::DisputeEscalated(DisputeEscalated { escrow_id, level: escrow.escalation_level }),
        );
        Ok(())
    }

    /// Resolves the dispute on escrow `escrow_id` once 500 seconds have passed
    /// since its last activity: the side whose evidence weighs more, each
    /// piece weighted by its submitter's score, wins; the merchant wins only
    /// with strictly more weight. The escrow's amount goes to the winner if
    /// the token is a token contract.
    pub fn auto_resolve_dispute(&mut self, now: u64, escrow_id: u64) -> (r: Result<(), Error>)
        requires
            old(self).wf(),
            auto_resolve_outcome(old(self).book.escrows@, escrow_id, now) is Ok ==> settlement_fits(
                *old(self),
                escrow_id,
                now,
                merchant_outweighs(*old(self), escrow_id),
            ),
        ensures
            final(self).wf(),
            r == auto_resolve_outcome(old(self).book.escrows@, escrow_id, now),
            r is Err ==> *final(self) == *old(self),
            r is Ok ==> settled(*old(self), *final(self), escrow_id, now, merchant_outweighs(*old(self), escrow_id)),
            r is Ok ==> final(self).transfers@ == old(self).transfers@.push(payout(
                old(self).book.escrows@[escrow_id],
                winner_of(old(self).book.escrows@[escrow_id], merchant_outweighs(*old(self), escrow_id)),
            )),
    {
        if !self.book.escrows.contains_key(&escrow_id) {
            return Err(Error::EscrowNotFound);
        }
        let escrow = self.get_escrow(escrow_id);
        if escrow.status != EscrowStatus::Disputed {
            return Err(Error::NotDisputed);
        }
        let last = if escrow.last_activity_at == 0 {
            escrow.dispute_started_at
        } else {
            escrow.last_activity_at
        };
        if now.saturating_sub(last) < DISPUTE_TIMEOUT {
            return Err(Error::TimeoutNotReached);
        }
        let release_to_merchant = self.weighted_auto_resolve(escrow_id);
        self.settle_dispute(now, escrow_id, release_to_merchant);
        Ok(())
    }

    /// Whether the merchant's reputation-weighted evidence outweighs the
    /// customer's in the dispute on escrow `escrow_id`.
    fn weighted_auto_resolve(&self, escrow_id: u64) -> (r: bool)
        requires
            self.book.escrows@.contains_key(escrow_id),
        ensures
            r == merchant_outweighs(*self, escrow_id),
    {
        let escrow = self.get_escrow(escrow_id);
        let mut customer_w: i128 = 0;
        let mut merchant_w: i128 = 0;
        let evs = match self.book.evidence.get(&escrow_id) {
            Some(v) => v,
            None => {
                proof {
                    assert(evidence_of(self.book.evidence@, escrow_id).len() == 0);
                }
                return false;
            },
        };
        let ghost all = evs@;
        let mut i: usize = 0;
        while i < evs.len()
            invariant
                0 <= i <= evs@.len(),
                all == evs@,
                customer_w == customer_weight(all.take(i as int), self.reputation.scores@, escrow.customer),
                merchant_w == merchant_weight(all.take(i as int), self.reputation.scores@, escrow.customer, escrow.merchant),
            decreases evs.len() - i,
        {
            let ev = &evs[i];
            let rep = self.get_reputation(ev.submitter);
            if ev.submitter == escrow.customer {
                customer_w = saturating_add_i128(customer_w, rep.score as i128);
            } else if ev.submitter == escrow.merchant {
                merchant_w = saturating_add_i128(merchant_w, rep.score as i128);
            }
            proof {
                assert(all.take(i + 1).drop_last() =~= all.take(i as int));
                assert(all.take(i + 1).last() == all[i as int]);
            }
            i = i + 1;
        }
        proof {
            assert(all.take(all.len() as int) =~= all);
        }
        merchant_w > customer_w
    }

    /// Settles the dispute on escrow `escrow_id` for the merchant or the
    /// customer, pays the escrow's amount to the winner if the token is a
    /// token contract, and applies the reputation outcome.
    pub(crate) fn settle_dispute(&mut self, now: u64, escrow_id: u64, release_to_merchant: bool)
        requires
            old(self).wf(),
            old(self).book.escrows@.contains_key(escrow_id),
            settlement_fits(*old(self), escrow_id, now, release_to_merchant),
        ensures
            final(self).wf(),
            settled(*old(self), *final(self), escrow_id, now, release_to_merchant),
            final(self).transfers@ == old(self).transfers@.push(payout(
                old(self).book.escrows@[escrow_id],
                winner_of(old(self).book.escrows@[escrow_id], release_to_merchant),
            )),
    {
        let mut escrow = self.get_escrow(escrow_id);
        escrow.status = if release_to_merchant {
            EscrowStatus::Released
        } else {
            EscrowStatus::Resolved
        };
        self.book.escrows.insert(escrow_id, escrow);
        let (winner, loser) = if release_to_merchant {
            (escrow.merchant, escrow.customer)
        } else {
            (escrow.customer, escrow.merchant)
        };
        self.update_reputation_on_dispute_outcome(now, winner, loser);
        self.transfers.push(
            TokenTransfer {
                token: escrow.token,
                from: Party::Contract,
                to: Party::Account(winner),
                amount: escrow.amount,
                mode: TransferMode::IfTokenContract,
            },
        );
        self.events.push(
            EscrowEvent::EscrowResolved(EscrowResolved {
                escrow_id,
                released_to_merchant: release_to_merchant,
                amount: escrow.amount,
            }),
        );
        proof {
            let cfg = config_in(old(self).reputation.config);
            assert(self.events@ =~= old(self).events@ + dispute_events(old(self).reputation.scores@, cfg, winner, loser, now).push(
                EscrowEvent::EscrowResolved(EscrowResolved {
                    escrow_id,
                    released_to_merchant: release_to_merchant,
                    amount: escrow.amount,
                }),
            ));
        }
    }

    /// An admin resolves the dispute on escrow `escrow_id`: for the merchant
    /// (the escrow is released) or for the customer (it is resolved). The
    /// escrow's amount goes to the winner if the token is a token contract;
    /// the winner earns the win reward and the loser pays the loss penalty.
    pub fn resolve_dispute(&mut self, now: u64, admin: Address, escrow_id: u64, release_to_merchant: bool) -> (r: Result<(), Error>)
        requires
            old(self).wf(),
            resolve_outcome(old(self).book.escrows@, escrow_id) is Ok ==> settlement_fits(
                *old(self),
                escrow_id,
                now,
                release_to_merchant,
            ),
        ensures
            final(self).wf(),
            r == resolve_outcome(old(self).book.escrows@, escrow_id),
            r is Err ==> *final(self) == *old(self),
            r is Ok ==> settled(*old(self), *final(self), escrow_id, now, release_to_merchant),
            r is Ok ==> final(self).transfers@ == old(self).transfers@.push(payout(
                old(self).book.escrows@[escrow_id],
                winner_of(old(self).book.escrows@[escrow_id], release_to_merchant),
            )),
    {
        if !self.book.escrows.contains_key(&escrow_id) {
            return Err(Error::EscrowNotFound);
        }
        let escrow = self.get_escrow(escrow_id);
        match escrow.status {
            EscrowStatus::Disputed => {},
            _ => return Err(Error::NotDisputed),
        }
        self.settle_dispute(now, escrow_id, release_to_merchant);
        Ok(())
    }
}

} // verus!
