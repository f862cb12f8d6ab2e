//! Vesting escrows: an amount that becomes releasable after a cliff, either
//! milestone by milestone or in proportion to the time elapsed.
use vstd::prelude::*;
use crate::ledger::Address;
use crate::arith::{clamp_i128, saturating_add_i128, saturating_mul_i128, saturating_sub_i128};
use crate::escrow::types::{
    Error, Escrow, EscrowEvent, EscrowStatus, MilestoneReleased, VestedAmountReleased, VestingMilestone,
    VestingSchedule, VestingScheduleCreated,
};
use crate::index::{append_to_index, ids_of, index_appended};
use crate::escrow::state::EscrowContract;

verus! {

/// `p / d` rounded toward zero.
pub open spec fn trunc_div(p: int, d: int) -> int {
    if p >= 0 {
        p / d
    } else {
        -((-p) / d)
    }
}

/// The sum of the milestones' amounts, saturating at the bounds of `i128`
/// at every step.
pub open spec fn milestone_total(ms: Seq<VestingMilestone>) -> i128
    decreases ms.len(),
{
    if ms.len() == 0 {
        0
    } else {
        clamp_i128(milestone_total(ms.drop_last()) + ms.last().amount)
    }
}

/// The sum, saturating, of the amounts of the milestones unlocked at `now`.
pub open spec fn unlocked_total(ms: Seq<VestingMilestone>, now: u64) -> i128
    decreases ms.len(),
{
    if ms.len() == 0 {
        0
    } else if now >= ms.last().unlock_timestamp {
        clamp_i128(unlocked_total(ms.drop_last(), now) + ms.last().amount)
    } else {
        unlocked_total(ms.drop_last(), now)
    }
}

/// Whether the milestones all unlock between the cliff and the end.
pub open spec fn milestones_within(ms: Seq<VestingMilestone>, cliff: u64, end: u64) -> bool {
    forall|k: int| 0 <= k < ms.len() ==> cliff <= (#[trigger] ms[k]).unlock_timestamp <= end
}

/// Whether a vesting escrow with these parameters is refused at `now`.
pub open spec fn vesting_invalid(now: u64, amount: i128, cliff: u64, end: u64, ms: Seq<VestingMilestone>) -> bool {
    ||| cliff < now
    ||| end <= cliff
    ||| (ms.len() > 0 && !(milestones_within(ms, cliff, end) && milestone_total(ms) == amount))
}

/// The amount of schedule `s` vested at `now`, released or not.
pub open spec fn vested(s: VestingSchedule, now: u64) -> i128 {
    if now < s.cliff_timestamp {
        0
    } else if now >= s.end_timestamp {
        s.total_amount
    } else if s.milestones@.len() > 0 {
        unlocked_total(s.milestones@, now)
    } else {
        let duration = s.end_timestamp - s.cliff_timestamp;
        let elapsed = now - s.cliff_timestamp;
        if duration <= 0 {
            0
        } else {
            trunc_div(clamp_i128(elapsed * s.total_amount) as int, duration) as i128
        }
    }
}

/// The amount vested at `now` for escrow `id`, 0 if it has no schedule.
pub open spec fn vested_amount(schedules: Map<u64, VestingSchedule>, id: u64, now: u64) -> i128 {
    if schedules.contains_key(id) {
        vested(schedules[id], now)
    } else {
        0
    }
}

/// The milestones after a release that brought the released total to
/// `released_total` at `now`: each unreleased milestone that is unlocked and
/// whose amount the released total covers is marked released.
pub open spec fn mark_milestone(m: VestingMilestone, now: u64, released_total: i128) -> VestingMilestone {
    if !m.released && now >= m.unlock_timestamp && released_total >= m.amount {
        VestingMilestone { released: true, ..m }
    } else {
        m
    }
}

/// The events published for the milestones that a release marks, in order.
pub open spec fn milestone_events(ms: Seq<VestingMilestone>, id: u64, now: u64, released_total: i128) -> Seq<EscrowEvent>
    decreases ms.len(),
{
    if ms.len() == 0 {
        Seq::empty()
    } else {
        let rest = milestone_events(ms.drop_last(), id, now, released_total);
        let m = ms.last();
        if !m.released && now >= m.unlock_timestamp && released_total >= m.amount {
            rest.push(EscrowEvent::MilestoneReleased(MilestoneReleased {
                escrow_id: id,
                milestone_index: (ms.len() - 1) as u32,
                amount: m.amount,
            }))
        } else {
            rest
        }
    }
}

/// What a release of the vested amount of escrow `id` at `now` answers.
pub open spec fn vested_release_outcome(c: EscrowContract, id: u64, now: u64) -> Result<i128, Error> {
    let schedules = c.book.vesting_schedules@;
    if !c.book.escrows@.contains_key(id) || !schedules.contains_key(id) {
        Err(Error::EscrowNotFound)
    } else if now < schedules[id].cliff_timestamp {
        Err(Error::CliffPeriodNotPassed)
    } else {
        let releasable = clamp_i128(vested(schedules[id], now) - schedules[id].released_amount);
        if releasable == 0 {
            Err(Error::InsufficientVestedAmount)
        } else {
            Ok(releasable)
        }
    }
}

/// `a - b` with `b > 0`, in the way of Rust's `/`: rounded toward zero.
fn div_toward_zero(p: i128, d: i128) -> (r: i128)
    requires
        d > 0,
    ensures
        r == trunc_div(p as int, d as int),
{
    p / d
}

impl EscrowContract {
    /// Creates a locked escrow whose `amount` vests for `merchant`: nothing
    /// before `cliff_timestamp`, everything from `end_timestamp`, and in
    /// between either the milestones unlocked so far or a share proportional
    /// to the time elapsed since the cliff. The cliff must not be in the past,
    /// the end must come after the cliff, and milestones, if any, must unlock
    /// between the cliff and the end and add up to `amount`. Returns the id.
    pub fn create_vesting_escrow(
        &mut self,
        now: u64,
        customer: Address,
        merchant: Address,
        amount: i128,
        token: Address,
        cliff_timestamp: u64,
        end_timestamp: u64,
        milestones: Vec<VestingMilestone>,
    ) -> (r: Result<u64, Error>)
        requires
            old(self).wf(),
            old(self).book.escrow_counter < u64::MAX,
        ensures
            final(self).wf(),
            vesting_invalid(now, amount, cliff_timestamp, end_timestamp, milestones@) ==> r == Err::<u64, Error>(
                Error::InvalidVestingSchedule,
            ) && *final(self) == *old(self),
            !vesting_invalid(now, amount, cliff_timestamp, end_timestamp, milestones@) ==> {
                let id = (old(self).book.escrow_counter + 1) as u64;
                &&& r == Ok::<u64, Error>(id)
                &&& final(self).book.escrow_counter == id
                &&& final(self).book.escrows@ == old(self).book.escrows@.insert(
                    id,
                    Escrow {
                        id,
                        customer,
                        merchant,
                        amount,
                        token,
                        status: EscrowStatus::Locked,
                        created_at: now,
                        release_timestamp: end_timestamp,
                        dispute_started_at: 0,
                        last_activity_at: now,
                        escalation_level: 0,
                        min_hold_period: 0,
                    },
                )
                &&& final(self).book.vesting_schedules@ == old(self).book.vesting_schedules@.insert(
                    id,
                    VestingSchedule {
                        escrow_id: id,
                        total_amount: amount,
                        released_amount: 0,
                        start_timestamp: now,
                        cliff_timestamp,
                        end_timestamp,
                        milestones,
                    },
                )
                &&& index_appended(old(self).book.customer_escrows@, final(self).book.customer_escrows@, customer, id)
                &&& index_appended(old(self).book.merchant_escrows@, final(self).book.merchant_escrows@, merchant, id)
                &&& final(self).book.evidence == old(self).book.evidence
                &&& final(self).events@ == old(self).events@.push(
                    EscrowEvent::VestingScheduleCreated(VestingScheduleCreated { escrow_id: id, total_amount: amount }),
                )
                &&& final(self).transfers == old(self).transfers
                &&& final(self).admin == old(self).admin
                &&& final(self).multi_party == old(self).multi_party
                &&& final(self).reputation == old(self).reputation
            },
    {
        if cliff_timestamp < now {
            return Err(Error::InvalidVestingSchedule);
        }
        if end_timestamp <= cliff_timestamp {
            return Err(Error::InvalidVestingSchedule);
        }
        if milestones.len() > 0 {
            let mut milestone_sum: i128 = 0;
            let mut i: usize = 0;
            while i < milestones.len()
                invariant
                    0 <= i <= milestones@.len(),
                    milestone_sum == milestone_total(milestones@.take(i as int)),
                    milestones_within(milestones@.take(i as int), cliff_timestamp, end_timestamp),
                    *self == *old(self),
                    self.wf(),
                decreases milestones@.len() - i,
            {
                proof {
                    assert(milestones@.take(i + 1).drop_last() =~= milestones@.take(i as int));
                }
                milestone_sum = saturating_add_i128(milestone_sum, milestones[i].amount);
                if milestones[i].unlock_timestamp < cliff_timestamp {
                    proof {
                        assert(!milestones_within(milestones@, cliff_timestamp, end_timestamp)) by {
                            assert(milestones@[i as int].unlock_timestamp < cliff_timestamp);
                        }
                    }
                    return Err(Error::InvalidVestingSchedule);
                }
                if milestones[i].unlock_timestamp > end_timestamp {
                    proof {
                        assert(!milestones_within(milestones@, cliff_timestamp, end_timestamp)) by {
                            assert(milestones@[i as int].unlock_timestamp > end_timestamp);
                        }
                    }
                    return Err(Error::InvalidVestingSchedule);
                }
                proof {
                    assert forall|k: int| 0 <= k < i + 1 implies cliff_timestamp <= (#[trigger] milestones@.take(i + 1)[k]).unlock_timestamp <= end_timestamp by {
                        if k < i {
                            assert(milestones@.take(i + 1)[k] == milestones@.take(i as int)[k]);
                        }
                    }
                }
                i = i + 1;
            }
            proof {
                assert(milestones@.take(milestones@.len() as int) =~= milestones@);
            }
            if milestone_sum != amount {
                return Err(Error::InvalidVestingSchedule);
            }
        }
        let escrow_id = self.book.escrow_counter + 1;
        let escrow = Escrow {
            id: escrow_id,
            customer,
            merchant,
            amount,
            token,
            status: EscrowStatus::Locked,
            created_at: now,
            release_timestamp: end_timestamp,
            dispute_started_at: 0,
            last_activity_at: now,
            escalation_level: 0,
            min_hold_period: 0,
        };
        self.book.escrows.insert(escrow_id, escrow);
        self.book.escrow_counter = escrow_id;
        let schedule = VestingSchedule {
            escrow_id,
            total_amount: amount,
            released_amount: 0,
            start_timestamp: now,
            cliff_timestamp,
            end_timestamp,
            milestones,
        };
        self.book.vesting_schedules.insert(escrow_id, schedule);
        append_to_index(&mut self.book.customer_escrows, customer, escrow_id);
        append_to_index(&mut self.book.merchant_escrows, merchant, escrow_id);
        self.events.push(
            EscrowEvent::VestingScheduleCreated(VestingScheduleCreated { escrow_id, total_amount: amount }),
        );
        proof {
            let b = self.book;
            let ob = old(self).book;
            assert forall|a: Address, x: u64| #[trigger] ids_of(b.customer_escrows@, a).contains(x) implies b.escrows@.contains_key(x) by {
                assert(ids_of(b.customer_escrows@, a) == if a == customer { ids_of(ob.customer_escrows@, a).push(escrow_id) } else { ids_of(ob.customer_escrows@, a) });
                if x != escrow_id {
                    assert(ids_of(ob.customer_escrows@, a).contains(x));
                }
            }
            assert forall|a: Address, x: u64| #[trigger] ids_of(b.merchant_escrows@, a).contains(x) implies b.escrows@.contains_key(x) by {
                assert(ids_of(b.merchant_escrows@, a) == if a == merchant { ids_of(ob.merchant_escrows@, a).push(escrow_id) } else { ids_of(ob.merchant_escrows@, a) });
                if x != escrow_id {
                    assert(ids_of(ob.merchant_escrows@, a).contains(x));
                }
            }
        }
        Ok(escrow_id)
    }

    /// The vesting schedule of escrow `escrow_id`.
    pub fn get_vesting_schedule(&self, escrow_id: u64) -> (r: Result<&VestingSchedule, Error>)
        ensures
            self.book.vesting_schedules@.contains_key(escrow_id) ==> r == Ok::<&VestingSchedule, Error>(
                &self.book.vesting_schedules@[escrow_id],
            ),
            !self.book.vesting_schedules@.contains_key(escrow_id) ==> r == Err::<&VestingSchedule, Error>(
                Error::EscrowNotFound,
            ),
    {
        match self.book.vesting_schedules.get(&escrow_id) {
            Some(s) => Ok(s),
            None => Err(Error::EscrowNotFound),
        }
    }

    /// The amount of escrow `escrow_id` vested at `now`, released or not; 0 for
    /// an escrow without a schedule.
    pub fn get_vested_amount(&self, now: u64, escrow_id: u64) -> (r: i128)
        ensures
            r == vested_amount(self.book.vesting_schedules@, escrow_id, now),
    {
        match self.book.vesting_schedules.get(&escrow_id) {
            Some(s) => vested_of(s, now),
            None => 0,
        }
    }

    /// The amount of escrow `escrow_id` vested at `now` and not yet released,
    /// saturating; 0 for an escrow without a schedule.
    pub fn get_releasable_amount(&self, now: u64, escrow_id: u64) -> (r: i128)
        ensures
            self.book.vesting_schedules@.contains_key(escrow_id) ==> r == clamp_i128(
                vested(self.book.vesting_schedules@[escrow_id], now) - self.book.vesting_schedules@[escrow_id].released_amount,
            ),
            !self.book.vesting_schedules@.contains_key(escrow_id) ==> r == 0,
    {
        match self.book.vesting_schedules.get(&escrow_id) {
            Some(s) => saturating_sub_i128(vested_of(s, now), s.released_amount),
            None => 0,
        }
    }

    /// Releases what has vested of escrow `escrow_id` since the last release,
    /// after the cliff, and returns that amount. The unreleased milestones
    /// that are unlocked and whose amount the released total covers are marked
    /// released.
    pub fn release_vested_amount(&mut self, now: u64, admin: Address, escrow_id: u64) -> (r: Result<i128, Error>)
        requires
            old(self).wf(),
        ensures
            final(self).wf(),
            r == vested_release_outcome(*old(self), escrow_id, now),
            r is Err ==> *final(self) == *old(self),
            r matches Ok(amount) ==> {
                let s = old(self).book.vesting_schedules@[escrow_id];
                let total = clamp_i128(s.released_amount + amount);
                let n = final(self).book.vesting_schedules@[escrow_id];
                &&& final(self).book.vesting_schedules@ == old(self).book.vesting_schedules@.insert(
                    escrow_id,
                    VestingSchedule { released_amount: total, milestones: n.milestones, ..s },
                )
                &&& n.milestones@ == s.milestones@.map_values(|m: VestingMilestone| mark_milestone(m, now, total))
                &&& final(self).book.escrow_counter == old(self).book.escrow_counter
                &&& final(self).book.escrows == old(self).book.escrows
                &&& final(self).book.customer_escrows == old(self).book.customer_escrows
                &&& final(self).book.merchant_escrows == old(self).book.merchant_escrows
                &&& final(self).book.evidence == old(self).book.evidence
                &&& final(self).events@ == old(self).events@ + milestone_events(s.milestones@, escrow_id, now, total).push(
                    EscrowEvent::VestedAmountReleased(VestedAmountReleased { escrow_id, amount, released_at: now }),
                )
                &&& final(self).transfers == old(self).transfers
                &&& final(self).admin == old(self).admin
                &&& final(self).multi_party == old(self).multi_party
                &&& final(self).reputation == old(self).reputation
            },
    {
        if !self.book.escrows.contains_key(&escrow_id) {
            return Err(Error::EscrowNotFound);
        }
        let current = match self.book.vesting_schedules.get(&escrow_id) {
            Some(s) => s,
            None => return Err(Error::EscrowNotFound),
        };
        if now < current.cliff_timestamp {
            return Err(Error::CliffPeriodNotPassed);
        }
        let vested_now = vested_of(current, now);
        let releasable = saturating_sub_i128(vested_now, current.released_amount);
        if releasable == 0 {
            return Err(Error::InsufficientVestedAmount);
        }
        let mut schedule = self.book.vesting_schedules.remove(&escrow_id).unwrap();
        schedule.released_amount = saturating_add_i128(schedule.released_amount, releasable);
        let total = schedule.released_amount;
        let ghost ms = schedule.milestones@;
        let ghost e0 = self.events@;
        let ghost pre = *self;
        let mut milestones = schedule.milestones;
        let mut i: usize = 0;
        while i < milestones.len()
            invariant
                0 <= i <= ms.len(),
                milestones@.len() == ms.len(),
                forall|k: int| 0 <= k < i ==> milestones@[k] == mark_milestone(ms[k], now, total),
                forall|k: int| i <= k < ms.len() ==> milestones@[k] == ms[k],
                self.events@ == e0 + milestone_events(ms.take(i as int), escrow_id, now, total),
                self.book == pre.book,
                self.admin == pre.admin,
                self.multi_party == pre.multi_party,
                self.reputation == pre.reputation,
                self.transfers == pre.transfers,
            decreases ms.len() - i,
        {
            proof {
                assert(ms.take(i + 1).drop_last() =~= ms.take(i as int));
                assert(ms.take(i + 1).last() == ms[i as int]);
            }
            let m = &milestones[i];
            if !m.released && now >= m.unlock_timestamp && total >= m.amount {
                let amount = m.amount;
                let mut marked = milestones.remove(i);
                marked.released = true;
                milestones.insert(i, marked);
                self.events.push(
                    EscrowEvent::MilestoneReleased(MilestoneReleased { escrow_id, milestone_index: i as u32, amount }),
                );
            }
            proof {
                assert(self.events@ =~= e0 + milestone_events(ms.take(i + 1), escrow_id, now, total));
            }
            i = i + 1;
        }
        proof {
            assert(ms.take(ms.len() as int) =~= ms);
            assert(milestones@ =~= ms.map_values(|m: VestingMilestone| mark_milestone(m, now, total)));
        }
        schedule.milestones = milestones;
        self.book.vesting_schedules.insert(escrow_id, schedule);
        self.events.push(
            EscrowEvent::VestedAmountReleased(VestedAmountReleased { escrow_id, amount: releasable, released_at: now }),
        );
        Ok(releasable)
    }
}

/// The amount of schedule `s` vested at `now`.
fn vested_of(s: &VestingSchedule, now: u64) -> (r: i128)
    ensures
        r == vested(*s, now),
{
    if now < s.cliff_timestamp {
        return 0;
    }
    if now >= s.end_timestamp {
        return s.total_amount;
    }
    if s.milestones.len() > 0 {
        let mut vested_sum: i128 = 0;
        let mut i: usize = 0;
        while i < s.milestones.len()
            invariant
                0 <= i <= s.milestones@.len(),
                vested_sum == unlocked_total(s.milestones@.take(i as int), now),
            decreases s.milestones@.len() - i,
        {
            proof {
                assert(s.milestones@.take(i + 1).drop_last() =~= s.milestones@.take(i as int));
            }
            if now >= s.milestones[i].unlock_timestamp {
                vested_sum = saturating_add_i128(vested_sum, s.milestones[i].amount);
            }
            i = i + 1;
        }
        proof {
            assert(s.milestones@.take(s.milestones@.len() as int) =~= s.milestones@);
        }
        vested_sum
    } else {
        let total_duration = s.end_timestamp.saturating_sub(s.cliff_timestamp);
        let elapsed = now.saturating_sub(s.cliff_timestamp);
        if total_duration == 0 {
            return 0;
        }
        let vested_portion = saturating_mul_i128(elapsed as i128, s.total_amount);
        div_toward_zero(vested_portion, total_duration as i128)
    }
}

} // verus!
