//! Reputation: the score every account starts from, and how completions and
//! dispute outcomes move it.
use vstd::prelude::*;
use crate::ledger::Address;
use crate::escrow::types::{EscrowEvent, Error, ReputationConfig, ReputationConfigUpdated, ReputationScore, ReputationUpdated};
use crate::escrow::state::EscrowContract;

verus! {

/// The score a new account starts at.
pub const NEUTRAL_SCORE: i64 = 5000;

/// The highest score.
pub const MAX_SCORE: i64 = 10000;

/// The reputation of an account that has none recorded.
pub open spec fn neutral_reputation(a: Address) -> ReputationScore {
    ReputationScore {
        address: a,
        total_transactions: 0,
        disputes_initiated: 0,
        disputes_won: 0,
        disputes_lost: 0,
        score: 5000,
        last_updated: 0,
    }
}

/// The configuration used while none is set.
pub open spec fn default_reputation_config() -> ReputationConfig {
    ReputationConfig {
        win_reward: 200,
        loss_penalty: 200,
        completion_reward: 100,
        dispute_initiation_penalty: 50,
    }
}

/// The reputation of `a` in `scores`.
pub open spec fn reputation_in(scores: Map<Address, ReputationScore>, a: Address) -> ReputationScore {
    if scores.contains_key(a) {
        scores[a]
    } else {
        neutral_reputation(a)
    }
}

/// The configuration in force.
pub open spec fn config_in(config: Option<ReputationConfig>) -> ReputationConfig {
    match config {
        Some(c) => c,
        None => default_reputation_config(),
    }
}

/// `x + 1`, saturating at `u32::MAX`.
pub open spec fn saturating_inc(x: u32) -> u32 {
    if x == u32::MAX {
        x
    } else {
        (x + 1) as u32
    }
}

/// `score + delta` capped at the maximum score.
pub open spec fn raised(score: i64, delta: i64) -> i64 {
    if score + delta > 10000 {
        10000
    } else {
        (score + delta) as i64
    }
}

/// `score - delta` floored at zero.
pub open spec fn lowered(score: i64, delta: i64) -> i64 {
    if score - delta < 0 {
        0
    } else {
        (score - delta) as i64
    }
}

/// Whether `score + delta` is an `i64`.
pub open spec fn fits_add(score: i64, delta: i64) -> bool {
    i64::MIN <= score + delta <= i64::MAX
}

/// Whether `score - delta` is an `i64`.
pub open spec fn fits_sub(score: i64, delta: i64) -> bool {
    i64::MIN <= score - delta <= i64::MAX
}

/// A reputation after a completed escrow.
pub open spec fn after_completion(r: ReputationScore, cfg: ReputationConfig, now: u64) -> ReputationScore {
    ReputationScore {
        score: raised(r.score, cfg.completion_reward),
        total_transactions: saturating_inc(r.total_transactions),
        last_updated: now,
        ..r
    }
}

/// A reputation after a won dispute.
pub open spec fn after_win(r: ReputationScore, cfg: ReputationConfig, now: u64) -> ReputationScore {
    ReputationScore {
        score: raised(r.score, cfg.win_reward),
        disputes_won: saturating_inc(r.disputes_won),
        last_updated: now,
        ..r
    }
}

/// A reputation after a lost dispute.
pub open spec fn after_loss(r: ReputationScore, cfg: ReputationConfig, now: u64) -> ReputationScore {
    ReputationScore {
        score: lowered(r.score, cfg.loss_penalty),
        disputes_lost: saturating_inc(r.disputes_lost),
        last_updated: now,
        ..r
    }
}

/// The scores after a completion for `a`.
pub open spec fn scores_after_completion(
    scores: Map<Address, ReputationScore>,
    cfg: ReputationConfig,
    a: Address,
    now: u64,
) -> Map<Address, ReputationScore> {
    scores.insert(a, after_completion(reputation_in(scores, a), cfg, now))
}

/// Whether a completion for `a` stays within the range of a score.
pub open spec fn completion_fits(scores: Map<Address, ReputationScore>, cfg: ReputationConfig, a: Address) -> bool {
    fits_add(reputation_in(scores, a).score, cfg.completion_reward)
}

/// The scores after a dispute that `winner` won against `loser`.
pub open spec fn scores_after_dispute(
    scores: Map<Address, ReputationScore>,
    cfg: ReputationConfig,
    winner: Address,
    loser: Address,
    now: u64,
) -> Map<Address, ReputationScore> {
    let s1 = scores.insert(winner, after_win(reputation_in(scores, winner), cfg, now));
    s1.insert(loser, after_loss(reputation_in(s1, loser), cfg, now))
}

/// Whether a dispute outcome keeps both scores within the range of a score.
pub open spec fn dispute_fits(
    scores: Map<Address, ReputationScore>,
    cfg: ReputationConfig,
    winner: Address,
    loser: Address,
    now: u64,
) -> bool {
    let s1 = scores.insert(winner, after_win(reputation_in(scores, winner), cfg, now));
    &&& fits_add(reputation_in(scores, winner).score, cfg.win_reward)
    &&& fits_sub(reputation_in(s1, loser).score, cfg.loss_penalty)
}

/// The events published by a dispute outcome.
pub open spec fn dispute_events(
    scores: Map<Address, ReputationScore>,
    cfg: ReputationConfig,
    winner: Address,
    loser: Address,
    now: u64,
) -> Seq<EscrowEvent> {
    let w = reputation_in(scores, winner);
    let s1 = scores.insert(winner, after_win(w, cfg, now));
    let l = reputation_in(s1, loser);
    seq![
        EscrowEvent::ReputationUpdated(ReputationUpdated {
            address: winner,
            old_score: w.score,
            new_score: after_win(w, cfg, now).score,
        }),
        EscrowEvent::ReputationUpdated(ReputationUpdated {
            address: loser,
            old_score: l.score,
            new_score: after_loss(l, cfg, now).score,
        }),
    ]
}

/// The event published by a completion for `a`.
pub open spec fn completion_event(
    scores: Map<Address, ReputationScore>,
    cfg: ReputationConfig,
    a: Address,
    now: u64,
) -> EscrowEvent {
    let r = reputation_in(scores, a);
    EscrowEvent::ReputationUpdated(ReputationUpdated {
        address: a,
        old_score: r.score,
        new_score: after_completion(r, cfg, now).score,
    })
}

/// `score + delta` capped at the maximum score.
fn raise(score: i64, delta: i64) -> (r: i64)
    requires
        fits_add(score, delta),
    ensures
        r == raised(score, delta),
{
    let s = score + delta;
    if s > MAX_SCORE {
        MAX_SCORE
    } else {
        s
    }
}

/// `score - delta` floored at zero.
fn lower(score: i64, delta: i64) -> (r: i64)
    requires
        fits_sub(score, delta),
    ensures
        r == lowered(score, delta),
{
    let s = score - delta;
    if s < 0 {
        0
    } else {
        s
    }
}

impl EscrowContract {
    /// The reputation of `address`; an account with none recorded has the
    /// neutral score of 5000 and no history.
    pub fn get_reputation(&self, address: Address) -> (r: ReputationScore)
        ensures
            r == reputation_in(self.reputation.scores@, address),
    {
        self.get_or_default_reputation(address)
    }

    /// Replaces the reputation configuration; `admin` is the account that
    /// authorised the change.
    pub fn set_reputation_config(&mut self, admin: Address, config: ReputationConfig) -> (r: Result<(), Error>)
        ensures
            r is Ok,
            final(self).reputation.config == Some(config),
            final(self).reputation.scores == old(self).reputation.scores,
            final(self).events@ == old(self).events@.push(
                EscrowEvent::ReputationConfigUpdated(ReputationConfigUpdated {
                    win_reward: config.win_reward,
                    loss_penalty: config.loss_penalty,
                    completion_reward: config.completion_reward,
                    dispute_initiation_penalty: config.dispute_initiation_penalty,
                }),
            ),
            final(self).admin == old(self).admin,
            final(self).book == old(self).book,
            final(self).multi_party == old(self).multi_party,
            final(self).transfers == old(self).transfers,
    {
        self.reputation.config = Some(config);
        self.events.push(
            EscrowEvent::ReputationConfigUpdated(ReputationConfigUpdated {
                win_reward: config.win_reward,
                loss_penalty: config.loss_penalty,
                completion_reward: config.completion_reward,
                dispute_initiation_penalty: config.dispute_initiation_penalty,
            }),
        );
        Ok(())
    }

    /// The reputation configuration in force: the one set, or the defaults
    /// (win 200, loss 200, completion 100, dispute initiation 50).
    pub fn get_reputation_config(&self) -> (r: ReputationConfig)
        ensures
            r == config_in(self.reputation.config),
    {
        self.get_or_default_reputation_config()
    }

    /// The reputation of `address`, or the neutral one.
    fn get_or_default_reputation(&self, address: Address) -> (r: ReputationScore)
        ensures
            r == reputation_in(self.reputation.scores@, address),
    {
        match self.reputation.scores.get(&address) {
            Some(r) => *r,
            None => ReputationScore {
                address,
                total_transactions: 0,
                disputes_initiated: 0,
                disputes_won: 0,
                disputes_lost: 0,
                score: NEUTRAL_SCORE,
                last_updated: 0,
            },
        }
    }

    /// The configuration in force.
    fn get_or_default_reputation_config(&self) -> (r: ReputationConfig)
        ensures
            r == config_in(self.reputation.config),
    {
        match self.reputation.config {
            Some(c) => c,
            None => ReputationConfig {
                win_reward: 200,
                loss_penalty: 200,
                completion_reward: 100,
                dispute_initiation_penalty: 50,
            },
        }
    }

    /// Rewards `address` for a completed escrow: its score rises by the
    /// completion reward up to 10000 and its transaction count by one.
    pub(crate) fn update_reputation_on_completion(&mut self, now: u64, address: Address)
        requires
            completion_fits(old(self).reputation.scores@, config_in(old(self).reputation.config), address),
        ensures
            final(self).reputation.scores@ == scores_after_completion(
                old(self).reputation.scores@,
                config_in(old(self).reputation.config),
                address,
                now,
            ),
            final(self).reputation.config == old(self).reputation.config,
            final(self).events@ == old(self).events@.push(
                completion_event(old(self).reputation.scores@, config_in(old(self).reputation.config), address, now),
            ),
            final(self).admin == old(self).admin,
            final(self).book == old(self).book,
            final(self).multi_party == old(self).multi_party,
            final(self).transfers == old(self).transfers,
    {
        let config = self.get_or_default_reputation_config();
        let mut rep = self.get_or_default_reputation(address);
        let old_score = rep.score;
        rep.score = raise(rep.score, config.completion_reward);
        rep.total_transactions = rep.total_transactions.saturating_add(1);
        rep.last_updated = now;
        self.reputation.scores.insert(address, rep);
        self.events.push(
            EscrowEvent::ReputationUpdated(ReputationUpdated { address, old_score, new_score: rep.score }),
        );
    }

    /// Applies a dispute outcome: the winner's score rises by the win reward
    /// up to 10000, then the loser's falls by the loss penalty down to 0.
    pub(crate) fn update_reputation_on_dispute_outcome(&mut self, now: u64, winner: Address, loser: Address)
        requires
            dispute_fits(old(self).reputation.scores@, config_in(old(self).reputation.config), winner, loser, now),
        ensures
            final(self).reputation.scores@ == scores_after_dispute(
                old(self).reputation.scores@,
                config_in(old(self).reputation.config),
                winner,
                loser,
                now,
            ),
            final(self).reputation.config == old(self).reputation.config,
            final(self).events@ == old(self).events@ + dispute_events(
                old(self).reputation.scores@,
                config_in(old(self).reputation.config),
                winner,
                loser,
                now,
            ),
            final(self).admin == old(self).admin,
            final(self).book == old(self).book,
            final(self).multi_party == old(self).multi_party,
            final(self).transfers == old(self).transfers,
    {
        let config = self.get_or_default_reputation_config();
        let mut winner_rep = self.get_or_default_reputation(winner);
        let old_winner_score = winner_rep.score;
        winner_rep.score = raise(winner_rep.score, config.win_reward);
        winner_rep.disputes_won = winner_rep.disputes_won.saturating_add(1);
        winner_rep.last_updated = now;
        self.reputation.scores.insert(winner, winner_rep);
        self.events.push(
            EscrowEvent::ReputationUpdated(
                ReputationUpdated { address: winner, old_score: old_winner_score, new_score: winner_rep.score },
            ),
        );

        let mut loser_rep = self.get_or_default_reputation(loser);
        let old_loser_score = loser_rep.score;
        loser_rep.score = lower(loser_rep.score, config.loss_penalty);
        loser_rep.disputes_lost = loser_rep.disputes_lost.saturating_add(1);
        loser_rep.last_updated = now;
        self.reputation.scores.insert(loser, loser_rep);
        self.events.push(
            EscrowEvent::ReputationUpdated(
                ReputationUpdated { address: loser, old_score: old_loser_score, new_score: loser_rep.score },
            ),
        );
        assert(self.events@ =~= old(self).events@ + dispute_events(
            old(self).reputation.scores@,
            config_in(old(self).reputation.config),
            winner,
            loser,
            now,
        ));
    }
}

} // verus!
