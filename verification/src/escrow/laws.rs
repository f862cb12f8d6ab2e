//! Properties of the escrow contract that span its operations.
use vstd::prelude::*;
use crate::ledger::{Address, Party, TokenTransfer, TransferMode};
use crate::arith::clamp_i128;
use crate::escrow::types::{
    ActionType, AdminProposal, Error, EscrowStatus, Evidence, ReputationConfig, ReputationScore, VestingMilestone, VestingSchedule,
};
use crate::escrow::state::{evidence_of, AdminState, EscrowContract};
use crate::escrow::lifecycle::{dispute_outcome, payout, refund_outcome, release_outcome, released};
use crate::escrow::disputes::{
    auto_resolve_outcome, customer_weight, merchant_outweighs, merchant_weight, resolve_outcome, settled, winner_of,
};
use crate::escrow::reputation::{after_completion, after_loss, after_win, fits_add, fits_sub, reputation_in};
use crate::escrow::multisig::{
    admin_error, approve_action_outcome, config_is, execute_error, proposal_carried_out, proposal_escrow_id,
    proposal_flag, proposal_outcome, without,
};
use crate::escrow::multi_party::{multi_release_outcome, payouts, share_sum, shares_fit};
use crate::escrow::types::{MultiPartyEscrow, Participant};
use crate::escrow::vesting::{mark_milestone, milestone_total, trunc_div, unlocked_total, vested, vested_release_outcome};
use vstd::arithmetic::div_mod::{lemma_div_is_ordered, lemma_div_multiples_vanish, lemma_fundamental_div_mod};
use vstd::arithmetic::mul::{lemma_mul_inequality, lemma_mul_is_distributive_add};

verus! {

/// An escrow, once released, can be neither released again, refunded nor
/// disputed, by anyone and at any time.
pub proof fn lemma_released_escrow_is_final(
    old: EscrowContract,
    new: EscrowContract,
    id: u64,
    now: u64,
    early_release: bool,
    later: u64,
    later_early_release: bool,
    caller: Address,
)
    requires
        release_outcome(old.book.escrows@, id, now, early_release) is Ok,
        released(old, new, id, now),
    ensures
        release_outcome(new.book.escrows@, id, later, later_early_release) == Err::<(), Error>(Error::AlreadyProcessed),
        refund_outcome(new.book.escrows@, id, caller) is Err,
        dispute_outcome(new.book.escrows@, id, caller) is Err,
{
    assert(new.book.escrows@[id].status == EscrowStatus::Released);
}

/// An escrow whose dispute was settled, either way, can be neither released,
/// refunded, disputed nor settled again.
pub proof fn lemma_settled_escrow_is_final(
    old: EscrowContract,
    new: EscrowContract,
    id: u64,
    now: u64,
    release_to_merchant: bool,
    later: u64,
    later_early_release: bool,
    caller: Address,
)
    requires
        old.book.escrows@.contains_key(id),
        settled(old, new, id, now, release_to_merchant),
    ensures
        release_outcome(new.book.escrows@, id, later, later_early_release) == Err::<(), Error>(Error::AlreadyProcessed),
        refund_outcome(new.book.escrows@, id, caller) is Err,
        dispute_outcome(new.book.escrows@, id, caller) is Err,
        resolve_outcome(new.book.escrows@, id) is Err,
        auto_resolve_outcome(new.book.escrows@, id, later) is Err,
{
    let s = new.book.escrows@[id].status;
    assert(s == EscrowStatus::Released || s == EscrowStatus::Resolved);
}

/// Completions and won disputes never raise a score above 10000, and lost
/// disputes never lower one below 0; so with rewards and penalties that are
/// not negative, a score in 0..=10000 stays there.
pub proof fn lemma_scores_stay_in_range(r: ReputationScore, cfg: ReputationConfig, now: u64)
    ensures
        fits_add(r.score, cfg.completion_reward) ==> after_completion(r, cfg, now).score <= 10000,
        fits_add(r.score, cfg.win_reward) ==> after_win(r, cfg, now).score <= 10000,
        fits_sub(r.score, cfg.loss_penalty) ==> after_loss(r, cfg, now).score >= 0,
        0 <= r.score <= 10000 && cfg.completion_reward >= 0 ==> 0 <= after_completion(r, cfg, now).score <= 10000,
        0 <= r.score <= 10000 && cfg.win_reward >= 0 ==> 0 <= after_win(r, cfg, now).score <= 10000,
        0 <= r.score <= 10000 && cfg.loss_penalty >= 0 ==> 0 <= after_loss(r, cfg, now).score <= 10000,
{
}

/// An admin that approved a proposal cannot approve it again.
pub proof fn lemma_no_double_approval(
    old: AdminState,
    new: AdminState,
    now: u64,
    approver: Address,
    id: Seq<char>,
    later: u64,
)
    requires
        approve_action_outcome(old, now, approver, id) is Ok,
        new.multisig == old.multisig,
        new.proposals@.contains_key(id),
        new.proposals@[id].approvals@ == old.proposals@[id].approvals@.push(approver),
    ensures
        approve_action_outcome(new, later, approver, id) is Err,
{
    assert(new.proposals@[id].approvals@.last() == approver);
    assert(new.proposals@[id].approvals@.contains(approver));
}

/// Nothing vests before the cliff, and by the end everything has.
pub proof fn lemma_vesting_starts_at_cliff_and_completes_at_end(s: VestingSchedule, now: u64)
    ensures
        now < s.cliff_timestamp ==> vested(s, now) == 0,
        s.cliff_timestamp <= now && s.end_timestamp <= now ==> vested(s, now) == s.total_amount,
{
}

proof fn lemma_clamp_monotone(x: int, y: int)
    requires
        x <= y,
    ensures
        clamp_i128(x) <= clamp_i128(y),
{
}

/// With amounts that are not negative, the unlocked milestones add up to no
/// more as time passes, and never to more than all of them.
proof fn lemma_unlocked_grows(ms: Seq<VestingMilestone>, t1: u64, t2: u64)
    requires
        t1 <= t2,
        forall|k: int| 0 <= k < ms.len() ==> (#[trigger] ms[k]).amount >= 0,
    ensures
        0 <= unlocked_total(ms, t1) <= unlocked_total(ms, t2) <= milestone_total(ms),
    decreases ms.len(),
{
    if ms.len() > 0 {
        let rest = ms.drop_last();
        assert forall|k: int| 0 <= k < rest.len() implies (#[trigger] rest[k]).amount >= 0 by {
            assert(rest[k] == ms[k]);
        }
        lemma_unlocked_grows(rest, t1, t2);
        let a = ms.last().amount;
        assert(a >= 0) by {
            assert(ms.last() == ms[ms.len() - 1]);
        }
        let p1 = unlocked_total(rest, t1);
        let p2 = unlocked_total(rest, t2);
        let tp = milestone_total(rest);
        lemma_clamp_monotone(p1 + a, p2 + a);
        lemma_clamp_monotone(p2 + a, tp + a);
        lemma_clamp_monotone(p2 as int, p2 + a);
        lemma_clamp_monotone(tp as int, tp + a);
        lemma_clamp_monotone(0, p1 + a);
    }
}

/// The linear part of a schedule of an amount that is not negative vests
/// between 0 and that amount, and more as time passes.
proof fn lemma_linear_vesting(s: VestingSchedule, t1: u64, t2: u64)
    requires
        s.cliff_timestamp <= t1 <= t2 < s.end_timestamp,
        s.total_amount >= 0,
    ensures
        ({
            let d = s.end_timestamp - s.cliff_timestamp;
            let v1 = trunc_div(clamp_i128((t1 - s.cliff_timestamp) * s.total_amount) as int, d);
            let v2 = trunc_div(clamp_i128((t2 - s.cliff_timestamp) * s.total_amount) as int, d);
            0 <= v1 <= v2 <= s.total_amount
        }),
{
    let d: int = s.end_timestamp - s.cliff_timestamp;
    let total: int = s.total_amount as int;
    let e1: int = t1 - s.cliff_timestamp;
    let e2: int = t2 - s.cliff_timestamp;
    lemma_mul_inequality(0, e1, total);
    lemma_mul_inequality(e1, e2, total);
    lemma_mul_inequality(e2, d, total);
    let p1: int = clamp_i128(e1 * total) as int;
    let p2: int = clamp_i128(e2 * total) as int;
    lemma_clamp_monotone(e1 * total, e2 * total);
    lemma_clamp_monotone(0, e1 * total);
    assert(p2 <= e2 * total);
    lemma_div_is_ordered(0, p1, d);
    lemma_div_is_ordered(p1, p2, d);
    lemma_div_is_ordered(p2, d * total, d);
    lemma_div_multiples_vanish(total, d);
    assert(d * total == d * total);
    assert(e2 * total <= d * total);
}

/// For a schedule of an amount that is not negative, with milestones, if
/// any, that are not negative and add up to it, the vested amount stays
/// between 0 and the amount and never decreases as time passes.
pub proof fn lemma_vested_never_decreases(s: VestingSchedule, t1: u64, t2: u64)
    requires
        t1 <= t2,
        s.cliff_timestamp < s.end_timestamp,
        s.total_amount >= 0,
        forall|k: int| 0 <= k < s.milestones@.len() ==> (#[trigger] s.milestones@[k]).amount >= 0,
        s.milestones@.len() > 0 ==> milestone_total(s.milestones@) == s.total_amount,
    ensures
        0 <= vested(s, t1) <= vested(s, t2) <= s.total_amount,
{
    let ms = s.milestones@;
    let cliff = s.cliff_timestamp;
    let end = s.end_timestamp;
    if ms.len() > 0 {
        lemma_unlocked_grows(ms, t1, t2);
    } else {
        if cliff <= t1 && t2 < end {
            lemma_linear_vesting(s, t1, t2);
        } else if cliff <= t1 && t1 < end {
            lemma_linear_vesting(s, t1, t1);
        } else if cliff <= t2 && t2 < end {
            lemma_linear_vesting(s, t2, t2);
        }
    }
}

proof fn lemma_marking_keeps_unlocked(ms: Seq<VestingMilestone>, now: u64, t: u64, total: i128)
    ensures
        unlocked_total(ms.map_values(|m: VestingMilestone| mark_milestone(m, now, total)), t) == unlocked_total(ms, t),
    decreases ms.len(),
{
    let f = |m: VestingMilestone| mark_milestone(m, now, total);
    if ms.len() > 0 {
        let marked = ms.map_values(f);
        assert(marked.drop_last() =~= ms.drop_last().map_values(f));
        lemma_marking_keeps_unlocked(ms.drop_last(), now, t, total);
        assert(marked.last() == f(ms.last()));
    }
}

/// A release takes all that has vested: right after it, at the same time,
/// nothing more can be released.
pub proof fn lemma_release_takes_all_vested(
    old: EscrowContract,
    new: EscrowContract,
    id: u64,
    now: u64,
    amount: i128,
    milestones: Seq<VestingMilestone>,
)
    requires
        vested_release_outcome(old, id, now) == Ok::<i128, Error>(amount),
        ({
            let s = old.book.vesting_schedules@[id];
            let total = clamp_i128(s.released_amount + amount);
            let n = new.book.vesting_schedules@[id];
            &&& new.book.vesting_schedules@ == old.book.vesting_schedules@.insert(
                id,
                VestingSchedule { released_amount: total, milestones: n.milestones, ..s },
            )
            &&& n.milestones@ == s.milestones@.map_values(|m: VestingMilestone| mark_milestone(m, now, total))
        }),
        new.book.escrows == old.book.escrows,
        i128::MIN <= vested(old.book.vesting_schedules@[id], now) - old.book.vesting_schedules@[id].released_amount <= i128::MAX,
    ensures
        vested_release_outcome(new, id, now) == Err::<i128, Error>(Error::InsufficientVestedAmount),
{
    let s = old.book.vesting_schedules@[id];
    let total = clamp_i128(s.released_amount + amount);
    let n = new.book.vesting_schedules@[id];
    lemma_marking_keeps_unlocked(s.milestones@, now, now, total);
    assert(vested(n, now) == vested(s, now));
}

/// The sum of the amounts that `ts` moves.
pub open spec fn transferred_total(ts: Seq<TokenTransfer>) -> int
    decreases ts.len(),
{
    if ts.len() == 0 {
        0
    } else {
        transferred_total(ts.drop_last()) + ts.last().amount
    }
}

proof fn lemma_payouts_scaled(ps: Seq<Participant>, total: i128, token: Address)
    requires
        total >= 0,
        shares_fit(ps, total),
    ensures
        0 <= transferred_total(payouts(ps, total, token)),
        transferred_total(payouts(ps, total, token)) * 10000 <= total * share_sum(ps),
    decreases ps.len(),
{
    if ps.len() > 0 {
        let rest = ps.drop_last();
        assert forall|k: int| 0 <= k < rest.len() implies i128::MIN <= total * (#[trigger] rest[k]).share_bps <= i128::MAX by {
            assert(rest[k] == ps[k]);
        }
        lemma_payouts_scaled(rest, total, token);
        let p = ps.last();
        let prod = total * p.share_bps;
        let prev = payouts(rest, total, token);
        lemma_mul_is_distributive_add(total as int, share_sum(rest), p.share_bps as int);
        lemma_mul_inequality(0, total as int, p.share_bps as int);
        if p.share_bps > 0 && prod > 0 && prod / 10000 > 0 {
            let t = payouts(ps, total, token).last();
            assert(payouts(ps, total, token).drop_last() =~= prev);
            lemma_fundamental_div_mod(prod, 10000);
            assert(t.amount == prod / 10000);
            assert(t.amount * 10000 <= prod);
        }
    }
}

/// When the shares add up to 10000 basis points, a release of a multi-party
/// escrow of an amount that is not negative pays out no more than that amount.
pub proof fn lemma_payouts_within_total(ps: Seq<Participant>, total: i128, token: Address)
    requires
        total >= 0,
        share_sum(ps) == 10000,
        shares_fit(ps, total),
    ensures
        0 <= transferred_total(payouts(ps, total, token)) <= total,
{
    lemma_payouts_scaled(ps, total, token);
}

/// Where a proposal's approvals are distinct admins, counted right, and the
/// admins are distinct and at most `u32::MAX`, an approval that is accepted
/// always has room: the proposal's approval count is below `u32::MAX`, as
/// `approve_action` requires.
pub proof fn lemma_accepted_approval_has_room(a: AdminState, now: u64, approver: Address, id: Seq<char>)
    requires
        approve_action_outcome(a, now, approver, id) is Ok,
        a.multisig->0.admins@.no_duplicates(),
        a.multisig->0.admins@.len() <= u32::MAX,
        a.proposals@[id].approval_count == a.proposals@[id].approvals@.len(),
        a.proposals@[id].approvals@.no_duplicates(),
        forall|x: Address| a.proposals@[id].approvals@.contains(x) ==> a.multisig->0.admins@.contains(x),
    ensures
        a.proposals@[id].approval_count < u32::MAX,
{
    let admins = a.multisig->0.admins@;
    let approvals = a.proposals@[id].approvals@;
    assert(admins.contains(approver));
    assert(!approvals.contains(approver));
    admins.unique_seq_to_set();
    approvals.unique_seq_to_set();
    vstd::seq_lib::seq_to_set_is_finite(admins);
    let rest = admins.to_set().remove(approver);
    assert(approvals.to_set().subset_of(rest));
    vstd::set_lib::lemma_len_subset(approvals.to_set(), rest);
    assert(admins.to_set().contains(approver));
    assert(rest.len() == admins.to_set().len() - 1);
}

/// An approval keeps a proposal's approval count equal to the number of its
/// approvals, and its approvals free of duplicates.
pub proof fn lemma_approval_keeps_count(old: AdminState, new: AdminState, now: u64, approver: Address, id: Seq<char>)
    requires
        approve_action_outcome(old, now, approver, id) is Ok,
        old.proposals@[id].approval_count == old.proposals@[id].approvals@.len(),
        old.proposals@[id].approvals@.no_duplicates(),
        new.proposals@.contains_key(id),
        new.proposals@[id].approvals@ == old.proposals@[id].approvals@.push(approver),
        new.proposals@[id].approval_count == old.proposals@[id].approval_count + 1,
    ensures
        new.proposals@[id].approval_count == new.proposals@[id].approvals@.len(),
        new.proposals@[id].approvals@.no_duplicates(),
{
    let a = old.proposals@[id].approvals@;
    let b = new.proposals@[id].approvals@;
    assert(!a.contains(approver));
    assert forall|i: int, j: int| 0 <= i < b.len() && 0 <= j < b.len() && i != j implies b[i] != b[j] by {
        if i < a.len() && j < a.len() {
            assert(b[i] == a[i] && b[j] == a[j]);
        } else if i < a.len() {
            assert(b[i] == a[i]);
        } else if j < a.len() {
            assert(b[j] == a[j]);
        }
    }
}

proof fn lemma_push_contains(s: Seq<Address>, a: Address, y: Address)
    ensures
        s.push(a).contains(y) <==> (s.contains(y) || a == y),
{
    let t = s.push(a);
    if s.contains(y) {
        let k = choose|k: int| 0 <= k < s.len() && s[k] == y;
        assert(t[k] == y);
    }
    if a == y {
        assert(t[s.len() as int] == y);
    }
    if t.contains(y) {
        let k = choose|k: int| 0 <= k < t.len() && t[k] == y;
        if k < s.len() {
            assert(s[k] == y);
        }
    }
}

proof fn lemma_without_members(s: Seq<Address>, x: Address, y: Address)
    ensures
        without(s, x).contains(y) <==> (s.contains(y) && y != x),
    decreases s.len(),
{
    if s.len() == 0 {
        assert(!without(s, x).contains(y));
    } else {
        let rest = s.drop_last();
        lemma_without_members(rest, x, y);
        assert(s =~= rest.push(s.last()));
        lemma_push_contains(rest, s.last(), y);
        if s.last() != x {
            lemma_push_contains(without(rest, x), s.last(), y);
        }
    }
}

proof fn lemma_without_removes_one(s: Seq<Address>, x: Address)
    requires
        s.no_duplicates(),
        s.contains(x),
    ensures
        without(s, x).len() == s.len() - 1,
        without(s, x).no_duplicates(),
    decreases s.len(),
{
    let rest = s.drop_last();
    assert(rest.no_duplicates());
    if s.last() == x {
        assert(!rest.contains(x)) by {
            if rest.contains(x) {
                let k = choose|k: int| 0 <= k < rest.len() && rest[k] == x;
                assert(s[k] == s[s.len() - 1]);
            }
        }
        lemma_without_absent(rest, x);
        lemma_without_no_duplicates(rest, x);
    } else {
        assert(rest.contains(x)) by {
            let k = choose|k: int| 0 <= k < s.len() && s[k] == x;
            assert(k < rest.len() && rest[k] == x);
        }
        lemma_without_removes_one(rest, x);
        let w = without(rest, x);
        assert(!w.contains(s.last())) by {
            lemma_without_members(rest, x, s.last());
            if rest.contains(s.last()) {
                let k = choose|k: int| 0 <= k < rest.len() && rest[k] == s.last();
                assert(s[k] == s[s.len() - 1]);
            }
        }
        let v = w.push(s.last());
        assert forall|i: int, j: int| 0 <= i < v.len() && 0 <= j < v.len() && i != j implies v[i] != v[j] by {
            if i < w.len() && j < w.len() {
                assert(v[i] == w[i] && v[j] == w[j]);
            } else if i < w.len() {
                assert(v[i] == w[i]);
            } else if j < w.len() {
                assert(v[j] == w[j]);
            }
        }
    }
}

proof fn lemma_without_absent(s: Seq<Address>, x: Address)
    ensures
        !s.contains(x) ==> without(s, x) == s,
    decreases s.len(),
{
    if s.len() > 0 {
        let rest = s.drop_last();
        if !s.contains(x) {
            assert(!rest.contains(x)) by {
                if rest.contains(x) {
                    let k = choose|k: int| 0 <= k < rest.len() && rest[k] == x;
                    assert(s[k] == x);
                }
            }
            lemma_without_absent(rest, x);
            assert(s.last() != x) by {
                assert(s[s.len() - 1] == s.last());
            }
            assert(s =~= rest.push(s.last()));
        }
    }
}

proof fn lemma_without_no_duplicates(s: Seq<Address>, x: Address)
    requires
        s.no_duplicates(),
        !s.contains(x),
    ensures
        without(s, x).no_duplicates(),
{
    lemma_without_absent(s, x);
}

/// Where the admins are distinct and counted right, a removal keeps them so:
/// the removed admin is gone, the count drops by one, equals the number of
/// admins, and stays at least the required signatures.
pub proof fn lemma_removal_keeps_admin_count(old: EscrowContract, new: EscrowContract, caller: Address, admin: Address)
    requires
        old.admin.multisig is Some,
        old.admin.multisig->0.total_admins == old.admin.multisig->0.admins@.len(),
        old.admin.multisig->0.admins@.no_duplicates(),
        admin_error(old.admin.multisig, caller) is None,
        old.admin.multisig->0.total_admins > old.admin.multisig->0.required_signatures,
        old.admin.multisig->0.admins@.contains(admin),
        ({
            let cfg = old.admin.multisig->0;
            config_is(new.admin.multisig, without(cfg.admins@, admin), cfg.required_signatures,
                (cfg.total_admins - 1) as u32, cfg.proposal_ttl)
        }),
    ensures
        new.admin.multisig->0.total_admins == new.admin.multisig->0.admins@.len(),
        new.admin.multisig->0.total_admins == old.admin.multisig->0.total_admins - 1,
        new.admin.multisig->0.admins@.no_duplicates(),
        !new.admin.multisig->0.admins@.contains(admin),
        new.admin.multisig->0.total_admins >= new.admin.multisig->0.required_signatures,
{
    let cfg = old.admin.multisig->0;
    lemma_without_removes_one(cfg.admins@, admin);
    lemma_without_members(cfg.admins@, admin, admin);
}

/// A proposal is carried out at most once: once an execution got past its
/// checks, the proposal is marked executed and every later execution is
/// refused.
pub proof fn lemma_proposal_executes_once(old: AdminState, new: AdminState, now: u64, id: Seq<char>, later: u64)
    requires
        execute_error(old, now, id) is None,
        new.multisig is Some,
        new.proposals@.contains_key(id),
        new.proposals@[id].executed,
    ensures
        execute_error(new, later, id) == Some(Error::ProposalAlreadyExecuted),
{
}

/// Carrying out a release proposal is a release of the escrow it names,
/// with the early-release flag it carries: the same answer and the same
/// new state.
pub proof fn lemma_release_proposal_is_a_release(old: EscrowContract, new: EscrowContract, p: AdminProposal, now: u64)
    requires
        p.action_type == ActionType::ReleaseEscrow,
    ensures
        proposal_outcome(old, p, now) == release_outcome(old.book.escrows@, proposal_escrow_id(p), now, proposal_flag(p)),
        proposal_carried_out(old, new, p, now) == released(old, new, proposal_escrow_id(p), now),
{
}

/// Carrying out a resolution proposal is a resolution of the escrow it
/// names, in favour of the merchant when its flag is set: the same answer,
/// the same settlement and the same payout of the escrow's amount to the
/// winner.
pub proof fn lemma_resolution_proposal_is_a_resolution(old: EscrowContract, new: EscrowContract, p: AdminProposal, now: u64)
    requires
        p.action_type == ActionType::ResolveDispute,
    ensures
        proposal_outcome(old, p, now) == resolve_outcome(old.book.escrows@, proposal_escrow_id(p)),
        proposal_carried_out(old, new, p, now) == ({
            let id = proposal_escrow_id(p);
            let e = old.book.escrows@[id];
            &&& settled(old, new, id, now, proposal_flag(p))
            &&& new.transfers@ == old.transfers@.push(payout(e, winner_of(e, proposal_flag(p))))
        }),
{
}

/// The number of pieces of evidence among `evs` that `a` submitted.
pub open spec fn pieces_by(evs: Seq<Evidence>, a: Address) -> nat
    decreases evs.len(),
{
    if evs.len() == 0 {
        0
    } else {
        pieces_by(evs.drop_last(), a) + if evs.last().submitter == a { 1nat } else { 0nat }
    }
}

/// One more piece of evidence adds its submitter's score to that side's
/// weight, and leaves the other side's weight as it was; a piece by anyone
/// else changes neither.
pub proof fn lemma_evidence_adds_its_weight(
    evs: Seq<Evidence>,
    scores: Map<Address, ReputationScore>,
    customer: Address,
    merchant: Address,
    ev: Evidence,
)
    ensures
        ev.submitter == customer ==> customer_weight(evs.push(ev), scores, customer)
            == clamp_i128(customer_weight(evs, scores, customer) + reputation_in(scores, customer).score),
        ev.submitter == customer ==> merchant_weight(evs.push(ev), scores, customer, merchant)
            == merchant_weight(evs, scores, customer, merchant),
        ev.submitter == merchant && merchant != customer ==> merchant_weight(evs.push(ev), scores, customer, merchant)
            == clamp_i128(merchant_weight(evs, scores, customer, merchant) + reputation_in(scores, merchant).score),
        ev.submitter == merchant && merchant != customer ==> customer_weight(evs.push(ev), scores, customer)
            == customer_weight(evs, scores, customer),
        ev.submitter != customer && ev.submitter != merchant ==> customer_weight(evs.push(ev), scores, customer)
            == customer_weight(evs, scores, customer)
            && merchant_weight(evs.push(ev), scores, customer, merchant) == merchant_weight(evs, scores, customer, merchant),
{
    assert(evs.push(ev).drop_last() =~= evs);
}

/// With scores that are not negative and sums that fit, each side's weight
/// is its score times the number of pieces it submitted.
pub proof fn lemma_evidence_weight_is_pieces_times_score(
    evs: Seq<Evidence>,
    scores: Map<Address, ReputationScore>,
    customer: Address,
    merchant: Address,
)
    requires
        customer != merchant,
        reputation_in(scores, customer).score >= 0,
        reputation_in(scores, merchant).score >= 0,
        pieces_by(evs, customer) * reputation_in(scores, customer).score <= i128::MAX,
        pieces_by(evs, merchant) * reputation_in(scores, merchant).score <= i128::MAX,
    ensures
        customer_weight(evs, scores, customer) == pieces_by(evs, customer) * reputation_in(scores, customer).score,
        merchant_weight(evs, scores, customer, merchant) == pieces_by(evs, merchant) * reputation_in(scores, merchant).score,
    decreases evs.len(),
{
    if evs.len() > 0 {
        let rest = evs.drop_last();
        let sc = reputation_in(scores, customer).score as int;
        let sm = reputation_in(scores, merchant).score as int;
        let nc = pieces_by(rest, customer) as int;
        let nm = pieces_by(rest, merchant) as int;
        lemma_mul_inequality(nc, pieces_by(evs, customer) as int, sc);
        lemma_mul_inequality(nm, pieces_by(evs, merchant) as int, sm);
        lemma_evidence_weight_is_pieces_times_score(rest, scores, customer, merchant);
        assert((nc + 1) * sc == nc * sc + sc) by (nonlinear_arith);
        assert((nm + 1) * sm == nm * sm + sm) by (nonlinear_arith);
        assert(nc * sc >= 0) by (nonlinear_arith)
            requires nc >= 0, sc >= 0;
        assert(nm * sm >= 0) by (nonlinear_arith)
            requires nm >= 0, sm >= 0;
        let sub = evs.last().submitter;
        if sub == customer {
            assert(pieces_by(evs, customer) == nc + 1);
            assert(pieces_by(evs, merchant) == nm);
        } else if sub == merchant {
            assert(pieces_by(evs, customer) == nc);
            assert(pieces_by(evs, merchant) == nm + 1);
        } else {
            assert(pieces_by(evs, customer) == nc);
            assert(pieces_by(evs, merchant) == nm);
        }
    } else {
        assert(0 * reputation_in(scores, customer).score == 0);
        assert(0 * reputation_in(scores, merchant).score == 0);
    }
}

/// A timed-out dispute is resolved automatically for the merchant exactly
/// when the merchant's score times its pieces of evidence exceeds the
/// customer's score times theirs (scores not negative, sums that fit); a
/// tie goes to the customer.
pub proof fn lemma_auto_resolution_follows_the_weight(old: EscrowContract, new: EscrowContract, id: u64, now: u64)
    requires
        auto_resolve_outcome(old.book.escrows@, id, now) is Ok,
        settled(old, new, id, now, merchant_outweighs(old, id)),
        ({
            let e = old.book.escrows@[id];
            let evs = evidence_of(old.book.evidence@, id);
            let sc = reputation_in(old.reputation.scores@, e.customer).score;
            let sm = reputation_in(old.reputation.scores@, e.merchant).score;
            &&& e.customer != e.merchant
            &&& sc >= 0
            &&& sm >= 0
            &&& pieces_by(evs, e.customer) * sc <= i128::MAX
            &&& pieces_by(evs, e.merchant) * sm <= i128::MAX
        }),
    ensures
        ({
            let e = old.book.escrows@[id];
            let evs = evidence_of(old.book.evidence@, id);
            let sc = reputation_in(old.reputation.scores@, e.customer).score;
            let sm = reputation_in(old.reputation.scores@, e.merchant).score;
            new.book.escrows@[id].status == if pieces_by(evs, e.merchant) * sm > pieces_by(evs, e.customer) * sc {
                EscrowStatus::Released
            } else {
                EscrowStatus::Resolved
            }
        }),
{
    let e = old.book.escrows@[id];
    lemma_evidence_weight_is_pieces_times_score(evidence_of(old.book.evidence@, id), old.reputation.scores@, e.customer, e.merchant);
}

/// A live proposal, neither executed nor rejected, can be executed exactly
/// when its approvals reach the configured required signatures; short of
/// them, execution is refused for the threshold.
pub proof fn lemma_required_signatures_suffice(a: AdminState, now: u64, id: Seq<char>)
    requires
        a.multisig is Some,
        a.proposals@.contains_key(id),
        !a.proposals@[id].executed,
        !a.proposals@[id].rejected,
        now <= a.proposals@[id].expires_at,
    ensures
        a.proposals@[id].approval_count >= a.multisig->0.required_signatures ==> execute_error(a, now, id) is None,
        a.proposals@[id].approval_count < a.multisig->0.required_signatures
            ==> execute_error(a, now, id) == Some(Error::MultiSigThresholdNotMet),
{
}

/// A multi-party escrow is never released before its release time.
pub proof fn lemma_no_multi_party_release_before_its_time(escrows: Map<u64, MultiPartyEscrow>, id: u64, now: u64)
    requires
        escrows.contains_key(id),
        now < escrows[id].release_timestamp,
    ensures
        multi_release_outcome(escrows, id, now) is Err,
        escrows[id].status == EscrowStatus::Locked && escrows[id].approvals@.len() >= escrows[id].required_approvals
            ==> multi_release_outcome(escrows, id, now) == Err::<(), Error>(Error::ReleaseNotYetAvailable),
{
}

/// A release pays the escrow's amount, in its token, out of the contract to
/// the escrow's merchant, and to no one else: exactly one transfer is added.
pub proof fn lemma_release_pays_the_merchant(old: EscrowContract, new: EscrowContract, id: u64, now: u64)
    requires
        released(old, new, id, now),
    ensures
        new.transfers@.len() == old.transfers@.len() + 1,
        new.transfers@.drop_last() == old.transfers@,
        new.transfers@.last() == (TokenTransfer {
            token: old.book.escrows@[id].token,
            from: Party::Contract,
            to: Party::Account(old.book.escrows@[id].merchant),
            amount: old.book.escrows@[id].amount,
            mode: TransferMode::IfTokenContract,
        }),
        new.book.escrows@[id].status == EscrowStatus::Released,
{
    assert(new.transfers@.drop_last() =~= old.transfers@);
}

/// A settled dispute pays the escrow's amount out of the contract to the
/// merchant when settled for the merchant, and to the customer otherwise.
pub proof fn lemma_settlement_pays_the_winner(old: EscrowContract, new: EscrowContract, id: u64, now: u64, to_merchant: bool)
    requires
        new.transfers@ == old.transfers@.push(payout(old.book.escrows@[id], winner_of(old.book.escrows@[id], to_merchant))),
    ensures
        new.transfers@.len() == old.transfers@.len() + 1,
        new.transfers@.last() == (TokenTransfer {
            token: old.book.escrows@[id].token,
            from: Party::Contract,
            to: Party::Account(if to_merchant { old.book.escrows@[id].merchant } else { old.book.escrows@[id].customer }),
            amount: old.book.escrows@[id].amount,
            mode: TransferMode::IfTokenContract,
        }),
{
}

} // verus!
