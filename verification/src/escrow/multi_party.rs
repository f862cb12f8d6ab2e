//! Multi-party escrows: several participants share an amount by basis points
//! and the release waits for the approvals it needs.
use vstd::prelude::*;
use crate::ledger::{contains_address, Address, Party, TokenTransfer, TransferMode};
use crate::escrow::types::{
    Error, EscrowEvent, EscrowStatus, MultiPartyEscrow, MultiPartyEscrowCreated,
    MultiPartyEscrowReleased, Participant, ParticipantApproved,
};
use crate::escrow::state::EscrowContract;

verus! {

/// The number of basis points in a whole.
pub const TOTAL_BPS: u32 = 10000;

/// The sum of the participants' shares.
pub open spec fn share_sum(ps: Seq<Participant>) -> int
    decreases ps.len(),
{
    if ps.len() == 0 {
        0
    } else {
        share_sum(ps.drop_last()) + ps.last().share_bps
    }
}

/// The number of participants whose approval is required.
pub open spec fn required_count(ps: Seq<Participant>) -> int
    decreases ps.len(),
{
    if ps.len() == 0 {
        0
    } else {
        required_count(ps.drop_last()) + if ps.last().required_approval { 1int } else { 0int }
    }
}

/// What a creation of a multi-party escrow with `ps` answers, its id aside.
pub open spec fn creation_error(ps: Seq<Participant>) -> Option<Error> {
    if ps.len() < 2 || ps.len() > 10 {
        Some(Error::InvalidParticipantCount)
    } else if share_sum(ps) != 10000 {
        Some(Error::InvalidSharesSum)
    } else {
        None
    }
}

/// For the first participant at `caller`, whether its approval is required;
/// `None` if `caller` is no participant.
pub open spec fn approval_required(ps: Seq<Participant>, caller: Address) -> Option<bool>
    decreases ps.len(),
{
    if ps.len() == 0 {
        None
    } else if ps[0].address == caller {
        Some(ps[0].required_approval)
    } else {
        approval_required(ps.drop_first(), caller)
    }
}

/// What an approval of multi-party escrow `id` by `caller` answers.
pub open spec fn approve_outcome(escrows: Map<u64, MultiPartyEscrow>, id: u64, caller: Address) -> Result<(), Error> {
    if !escrows.contains_key(id) {
        Err(Error::EscrowNotFound)
    } else if escrows[id].status != EscrowStatus::Locked {
        Err(Error::InvalidStatus)
    } else if approval_required(escrows[id].participants@, caller) != Some(true) {
        Err(Error::Unauthorized)
    } else if escrows[id].approvals@.contains(caller) {
        Err(Error::DuplicateApproval)
    } else {
        Ok(())
    }
}

/// What a release of multi-party escrow `id` at `now` answers.
pub open spec fn multi_release_outcome(escrows: Map<u64, MultiPartyEscrow>, id: u64, now: u64) -> Result<(), Error> {
    if !escrows.contains_key(id) {
        Err(Error::EscrowNotFound)
    } else if escrows[id].status != EscrowStatus::Locked {
        Err(Error::InvalidStatus)
    } else if escrows[id].approvals@.len() < escrows[id].required_approvals {
        Err(Error::ApprovalsThresholdNotMet)
    } else if now < escrows[id].release_timestamp {
        Err(Error::ReleaseNotYetAvailable)
    } else {
        Ok(())
    }
}

/// Whether every participant's share of `total` can be computed.
pub open spec fn shares_fit(ps: Seq<Participant>, total: i128) -> bool {
    forall|k: int| 0 <= k < ps.len() ==> i128::MIN <= total * (#[trigger] ps[k]).share_bps <= i128::MAX
}

/// The payouts of a release: each participant with a positive share gets
/// `total * share / 10000` when that is positive, in participant order.
pub open spec fn payouts(ps: Seq<Participant>, total: i128, token: Address) -> Seq<TokenTransfer>
    decreases ps.len(),
{
    if ps.len() == 0 {
        Seq::empty()
    } else {
        let rest = payouts(ps.drop_last(), total, token);
        let p = ps.last();
        let prod = total * p.share_bps;
        if p.share_bps > 0 && prod > 0 && prod / 10000 > 0 {
            rest.push(TokenTransfer {
                token,
                from: Party::Contract,
                to: Party::Account(p.address),
                amount: (prod / 10000) as i128,
                mode: TransferMode::Transfer,
            })
        } else {
            rest
        }
    }
}

proof fn lemma_approval_required_index(ps: Seq<Participant>, caller: Address, k: int)
    requires
        0 <= k < ps.len(),
        ps[k].address == caller,
        forall|j: int| 0 <= j < k ==> ps[j].address != caller,
    ensures
        approval_required(ps, caller) == Some(ps[k].required_approval),
    decreases ps.len(),
{
    if k > 0 {
        lemma_approval_required_index(ps.drop_first(), caller, k - 1);
    }
}

proof fn lemma_approval_required_none(ps: Seq<Participant>, caller: Address)
    requires
        forall|j: int| 0 <= j < ps.len() ==> ps[j].address != caller,
    ensures
        approval_required(ps, caller) is None,
    decreases ps.len(),
{
    if ps.len() > 0 {
        lemma_approval_required_none(ps.drop_first(), caller);
    }
}

impl EscrowContract {
    /// Creates a locked multi-party escrow of `total_amount` of `token`, paid
    /// in by `customer`: between 2 and 10 participants whose shares add up to
    /// 10000 basis points. Its release needs one approval per participant
    /// marked as required. Returns its id, one more than the last one.
    pub fn create_multi_party_escrow(
        &mut self,
        now: u64,
        customer: Address,
        participants: Vec<Participant>,
        total_amount: i128,
        token: Address,
        release_timestamp: u64,
    ) -> (r: Result<u64, Error>)
        requires
            old(self).wf(),
            old(self).multi_party.counter < u64::MAX,
            2 <= participants@.len() <= 10 ==> share_sum(participants@) <= u32::MAX,
        ensures
            final(self).wf(),
            creation_error(participants@) matches Some(err) ==> r == Err::<u64, Error>(err) && *final(self) == *old(self),
            creation_error(participants@) is None ==> {
                let id = (old(self).multi_party.counter + 1) as u64;
                &&& r == Ok::<u64, Error>(id)
                &&& final(self).multi_party.counter == id
                &&& final(self).multi_party.escrows@ == old(self).multi_party.escrows@.insert(
                    id,
                    MultiPartyEscrow {
                        id,
                        participants,
                        total_amount,
                        token,
                        status: EscrowStatus::Locked,
                        approvals: final(self).multi_party.escrows@[id].approvals,
                        required_approvals: required_count(participants@) as u32,
                        created_at: now,
                        release_timestamp,
                    },
                )
                &&& final(self).multi_party.escrows@[id].approvals@ == Seq::<Address>::empty()
                &&& final(self).transfers@ == old(self).transfers@.push(TokenTransfer {
                    token,
                    from: Party::Account(customer),
                    to: Party::Contract,
                    amount: total_amount,
                    mode: TransferMode::Transfer,
                })
                &&& final(self).events@ == old(self).events@.push(
                    EscrowEvent::MultiPartyEscrowCreated(MultiPartyEscrowCreated {
                        escrow_id: id,
                        participant_count: participants@.len() as u32,
                    }),
                )
                &&& final(self).admin == old(self).admin
                &&& final(self).book == old(self).book
                &&& final(self).reputation == old(self).reputation
            },
    {
        let n = participants.len();
        if n < 2 || n > 10 {
            return Err(Error::InvalidParticipantCount);
        }
        let mut total_shares: u32 = 0;
        let mut i: usize = 0;
        while i < n
            invariant
                n == participants@.len(),
                2 <= n <= 10,
                share_sum(participants@) <= u32::MAX,
                0 <= i <= n,
                total_shares == share_sum(participants@.take(i as int)),
            decreases n - i,
        {
            proof {
                assert(participants@.take(i + 1).drop_last() =~= participants@.take(i as int));
                lemma_share_sum_prefix(participants@, i + 1);
            }
            total_shares = total_shares + participants[i].share_bps;
            i = i + 1;
        }
        proof {
            assert(participants@.take(n as int) =~= participants@);
        }
        if total_shares != TOTAL_BPS {
            return Err(Error::InvalidSharesSum);
        }
        let mut required_approvals: u32 = 0;
        let mut j: usize = 0;
        while j < n
            invariant
                n == participants@.len(),
                n <= 10,
                0 <= j <= n,
                required_approvals == required_count(participants@.take(j as int)),
                required_approvals <= j,
            decreases n - j,
        {
            proof {
                assert(participants@.take(j + 1).drop_last() =~= participants@.take(j as int));
            }
            if participants[j].required_approval {
                required_approvals = required_approvals + 1;
            }
            j = j + 1;
        }
        proof {
            assert(participants@.take(n as int) =~= participants@);
        }
        self.transfers.push(
            TokenTransfer {
                token,
                from: Party::Account(customer),
                to: Party::Contract,
                amount: total_amount,
                mode: TransferMode::Transfer,
            },
        );
        let escrow_id = self.multi_party.counter + 1;
        let participant_count = n as u32;
        let escrow = MultiPartyEscrow {
            id: escrow_id,
            participants,
            total_amount,
            token,
            status: EscrowStatus::Locked,
            approvals: Vec::new(),
            required_approvals,
            created_at: now,
            release_timestamp,
        };
        self.multi_party.escrows.insert(escrow_id, escrow);
        self.multi_party.counter = escrow_id;
        self.events.push(
            EscrowEvent::MultiPartyEscrowCreated(MultiPartyEscrowCreated { escrow_id, participant_count }),
        );
        Ok(escrow_id)
    }

    /// Records the approval of `caller` for the release of multi-party escrow
    /// `escrow_id`: `caller` must be its first participant at that address,
    /// with its approval required, and must not have approved already.
    pub fn approve_release(&mut self, caller: Address, escrow_id: u64) -> (r: Result<(), Error>)
        requires
            old(self).wf(),
        ensures
            final(self).wf(),
            r == approve_outcome(old(self).multi_party.escrows@, escrow_id, caller),
            r is Err ==> *final(self) == *old(self),
            r is Ok ==> {
                let m = old(self).multi_party.escrows@[escrow_id];
                let n = final(self).multi_party.escrows@[escrow_id];
                &&& final(self).multi_party.escrows@ == old(self).multi_party.escrows@.insert(
                    escrow_id,
                    MultiPartyEscrow { approvals: n.approvals, ..m },
                )
                &&& n.approvals@ == m.approvals@.push(caller)
                &&& final(self).multi_party.counter == old(self).multi_party.counter
                &&& final(self).events@ == old(self).events@.push(
                    EscrowEvent::ParticipantApproved(ParticipantApproved { escrow_id, approver: caller }),
                )
                &&& final(self).transfers == old(self).transfers
                &&& final(self).admin == old(self).admin
                &&& final(self).book == old(self).book
                &&& final(self).reputation == old(self).reputation
            },
    {
        if !self.multi_party.escrows.contains_key(&escrow_id) {
            return Err(Error::EscrowNotFound);
        }
        let escrow = self.multi_party.escrows.get(&escrow_id).unwrap();
        if escrow.status != EscrowStatus::Locked {
            return Err(Error::InvalidStatus);
        }
        let mut is_participant = false;
        let mut needs_approval = false;
        let mut i: usize = 0;
        while i < escrow.participants.len()
            invariant_except_break
                !is_participant,
            invariant
                0 <= i <= escrow.participants@.len(),
                forall|j: int| 0 <= j < i ==> escrow.participants@[j].address != caller,
            ensures
                is_participant ==> approval_required(escrow.participants@, caller) == Some(needs_approval),
                !is_participant ==> forall|j: int| 0 <= j < escrow.participants@.len() ==> escrow.participants@[j].address != caller,
            decreases escrow.participants@.len() - i,
        {
            if escrow.participants[i].address == caller {
                is_participant = true;
                needs_approval = escrow.participants[i].required_approval;
                proof {
                    lemma_approval_required_index(escrow.participants@, caller, i as int);
                }
                break;
            }
            i = i + 1;
        }
        proof {
            if !is_participant {
                lemma_approval_required_none(escrow.participants@, caller);
            }
        }
        if !is_participant || !needs_approval {
            return Err(Error::Unauthorized);
        }
        if contains_address(&escrow.approvals, caller) {
            return Err(Error::DuplicateApproval);
        }
        let mut escrow = self.multi_party.escrows.remove(&escrow_id).unwrap();
        escrow.approvals.push(caller);
        self.multi_party.escrows.insert(escrow_id, escrow);
        self.events.push(EscrowEvent::ParticipantApproved(ParticipantApproved { escrow_id, approver: caller }));
        proof {
            assert(self.multi_party.escrows@ =~= old(self).multi_party.escrows@.insert(
                escrow_id,
                MultiPartyEscrow { approvals: self.multi_party.escrows@[escrow_id].approvals, ..old(self).multi_party.escrows@[escrow_id] },
            ));
        }
        Ok(())
    }

    /// Pays out multi-party escrow `escrow_id` once it has its approvals and
    /// its release timestamp has passed; each participant gets its share of
    /// the total, rounded down.
    pub fn release_multi_party_escrow(&mut self, now: u64, escrow_id: u64) -> (r: Result<(), Error>)
        requires
            old(self).wf(),
            old(self).multi_party.escrows@.contains_key(escrow_id) ==> shares_fit(
                old(self).multi_party.escrows@[escrow_id].participants@,
                old(self).multi_party.escrows@[escrow_id].total_amount,
            ),
        ensures
            final(self).wf(),
            r == multi_release_outcome(old(self).multi_party.escrows@, escrow_id, now),
            r is Err ==> *final(self) == *old(self),
            r is Ok ==> {
                let m = old(self).multi_party.escrows@[escrow_id];
                &&& final(self).multi_party.escrows@ == old(self).multi_party.escrows@.insert(
                    escrow_id,
                    MultiPartyEscrow { status: EscrowStatus::Released, ..m },
                )
                &&& final(self).multi_party.counter == old(self).multi_party.counter
                &&& final(self).transfers@ == old(self).transfers@ + payouts(m.participants@, m.total_amount, m.token)
                &&& final(self).events@ == old(self).events@.push(
                    EscrowEvent::MultiPartyEscrowReleased(MultiPartyEscrowReleased { escrow_id }),
                )
                &&& final(self).admin == old(self).admin
                &&& final(self).book == old(self).book
                &&& final(self).reputation == old(self).reputation
            },
    {
        if !self.multi_party.escrows.contains_key(&escrow_id) {
            return Err(Error::EscrowNotFound);
        }
        let escrow = self.multi_party.escrows.get(&escrow_id).unwrap();
        if escrow.status != EscrowStatus::Locked {
            return Err(Error::InvalidStatus);
        }
        if (escrow.approvals.len() as u64) < (escrow.required_approvals as u64) {
            return Err(Error::ApprovalsThresholdNotMet);
        }
        if now < escrow.release_timestamp {
            return Err(Error::ReleaseNotYetAvailable);
        }
        let ghost t0 = self.transfers@;
        let ghost ps = escrow.participants@;
        let mut i: usize = 0;
        while i < escrow.participants.len()
            invariant
                0 <= i <= ps.len(),
                ps == escrow.participants@,
                shares_fit(ps, escrow.total_amount),
                self.transfers@ == t0 + payouts(ps.take(i as int), escrow.total_amount, escrow.token),
                self.multi_party == old(self).multi_party,
                self.book == old(self).book,
                self.admin == old(self).admin,
                self.reputation == old(self).reputation,
                self.events == old(self).events,
                *escrow == old(self).multi_party.escrows@[escrow_id],
            decreases ps.len() - i,
        {
            let p = &escrow.participants[i];
            proof {
                assert(ps.take(i + 1).drop_last() =~= ps.take(i as int));
                assert(ps.take(i + 1).last() == ps[i as int]);
                assert(i128::MIN <= escrow.total_amount * ps[i as int].share_bps <= i128::MAX);
            }
            if p.share_bps > 0 {
                let prod = escrow.total_amount * (p.share_bps as i128);
                if prod > 0 {
                    let amount = prod / 10000;
                    if amount > 0 {
                        self.transfers.push(
                            TokenTransfer {
                                token: escrow.token,
                                from: Party::Contract,
                                to: Party::Account(p.address),
                                amount,
                                mode: TransferMode::Transfer,
                            },
                        );
                    }
                }
            }
            proof {
                assert(self.transfers@ =~= t0 + payouts(ps.take(i + 1), escrow.total_amount, escrow.token));
            }
            i = i + 1;
        }
        proof {
            assert(ps.take(ps.len() as int) =~= ps);
        }
        let mut escrow = self.multi_party.escrows.remove(&escrow_id).unwrap();
        escrow.status = EscrowStatus::Released;
        self.multi_party.escrows.insert(escrow_id, escrow);
        self.events.push(EscrowEvent::MultiPartyEscrowReleased(MultiPartyEscrowReleased { escrow_id }));
        Ok(())
    }

    /// The multi-party escrow with id `escrow_id`.
    pub fn get_multi_party_escrow(&self, escrow_id: u64) -> (r: Result<&MultiPartyEscrow, Error>)
        ensures
            self.multi_party.escrows@.contains_key(escrow_id) ==> r == Ok::<&MultiPartyEscrow, Error>(&self.multi_party.escrows@[escrow_id]),
            !self.multi_party.escrows@.contains_key(escrow_id) ==> r == Err::<&MultiPartyEscrow, Error>(Error::EscrowNotFound),
    {
        match self.multi_party.escrows.get(&escrow_id) {
            Some(e) => Ok(e),
            None => Err(Error::EscrowNotFound),
        }
    }
}

proof fn lemma_share_sum_prefix(ps: Seq<Participant>, k: int)
    requires
        0 <= k <= ps.len(),
    ensures
        share_sum(ps.take(k)) <= share_sum(ps),
    decreases ps.len() - k,
{
    if k < ps.len() {
        lemma_share_sum_prefix(ps, k + 1);
        assert(ps.take(k + 1).drop_last() =~= ps.take(k));
    } else {
        assert(ps.take(k) =~= ps);
    }
}

} // verus!
