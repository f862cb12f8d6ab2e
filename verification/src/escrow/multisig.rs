//! Multi-signature administration: admins propose actions, approve them, and
//! an action runs once it has enough approvals before it expires.
use vstd::prelude::*;
use crate::ledger::{contains_address, copy_addresses, Address};
use crate::encoding::{be_value, byte_or_zero, decimal, read_u64_from_bytes, u64_to_string};
use crate::escrow::types::{
    ActionApproved, ActionExecuted, ActionProposed, ActionRejected, ActionType, AdminAdded,
    AdminProposal, AdminRemoved, Error, EscrowEvent, EscrowStatus, MultiSigConfig,
};
use crate::escrow::state::{AdminState, EscrowContract};
use crate::escrow::lifecycle::{completion_pair_fits, payout, release_outcome, released};
use crate::escrow::disputes::{resolve_outcome, settled, settlement_fits, winner_of};

verus! {

/// How long a proposal stays open, in seconds (7 days).
pub const PROPOSAL_TTL: u64 = 604800;

/// `s` without the occurrences of `x`, in order.
pub open spec fn without(s: Seq<Address>, x: Address) -> Seq<Address>
    decreases s.len(),
{
    if s.len() == 0 {
        Seq::empty()
    } else {
        let r = without(s.drop_last(), x);
        if s.last() != x { r.push(s.last()) } else { r }
    }
}

proof fn lemma_without_len(s: Seq<Address>, x: Address)
    ensures
        without(s, x).len() <= s.len(),
        without(s, x).len() == s.len() <==> !s.contains(x),
    decreases s.len(),
{
    if s.len() > 0 {
        lemma_without_len(s.drop_last(), x);
        if s.drop_last().contains(x) {
            let k = choose|k: int| 0 <= k < s.drop_last().len() && s.drop_last()[k] == x;
            assert(s[k] == x);
        }
        if s.contains(x) && s.last() != x {
            let k = choose|k: int| 0 <= k < s.len() && s[k] == x;
            assert(k < s.len() - 1);
            assert(s.drop_last()[k] == x);
        }
    }
}

/// Whether `c` is a configuration with these admins and counts.
pub open spec fn config_is(c: Option<MultiSigConfig>, admins: Seq<Address>, required: u32, total: u32, ttl: u64) -> bool {
    &&& c is Some
    &&& c->0.admins@ == admins
    &&& c->0.required_signatures == required
    &&& c->0.total_admins == total
    &&& c->0.proposal_ttl == ttl
}

/// Why `who` may not act as an admin, if it may not.
pub open spec fn admin_error(multisig: Option<MultiSigConfig>, who: Address) -> Option<Error> {
    match multisig {
        None => Some(Error::MultiSigNotInitialized),
        Some(cfg) => if !cfg.admins@.contains(who) { Some(Error::NotAnAdmin) } else { None },
    }
}

/// What an approval of proposal `id` by `approver` at `now` answers.
pub open spec fn approve_action_outcome(a: AdminState, now: u64, approver: Address, id: Seq<char>) -> Result<(), Error> {
    match admin_error(a.multisig, approver) {
        Some(err) => Err(err),
        None => if !a.proposals@.contains_key(id) {
            Err(Error::ProposalNotFound)
        } else {
            let p = a.proposals@[id];
            if p.executed || p.rejected {
                Err(Error::ProposalAlreadyExecuted)
            } else if now > p.expires_at {
                Err(Error::ProposalExpired)
            } else if p.approvals@.contains(approver) {
                Err(Error::AlreadyApproved)
            } else {
                Ok(())
            }
        },
    }
}

/// Why proposal `id` may not be executed at `now`, if it may not.
pub open spec fn execute_error(a: AdminState, now: u64, id: Seq<char>) -> Option<Error> {
    match a.multisig {
        None => Some(Error::MultiSigNotInitialized),
        Some(cfg) => if !a.proposals@.contains_key(id) {
            Some(Error::ProposalNotFound)
        } else {
            let p = a.proposals@[id];
            if p.executed || p.rejected {
                Some(Error::ProposalAlreadyExecuted)
            } else if now > p.expires_at {
                Some(Error::ProposalExpired)
            } else if p.approval_count < cfg.required_signatures {
                Some(Error::MultiSigThresholdNotMet)
            } else {
                None
            }
        },
    }
}

/// What a rejection of proposal `id` by `rejecter` answers.
pub open spec fn reject_outcome(a: AdminState, rejecter: Address, id: Seq<char>) -> Result<(), Error> {
    match admin_error(a.multisig, rejecter) {
        Some(err) => Err(err),
        None => if !a.proposals@.contains_key(id) {
            Err(Error::ProposalNotFound)
        } else if a.proposals@[id].executed || a.proposals@[id].rejected {
            Err(Error::ProposalAlreadyExecuted)
        } else {
            Ok(())
        },
    }
}

/// The escrow id a release or resolution proposal carries: the big-endian
/// word of its first 8 bytes.
pub open spec fn proposal_escrow_id(p: AdminProposal) -> u64 {
    be_value(p.data@, 0, 8) as u64
}

/// The flag a release or resolution proposal carries: whether its ninth byte
/// is non-zero.
pub open spec fn proposal_flag(p: AdminProposal) -> bool {
    byte_or_zero(p.data@, 8) != 0
}

/// The signature count an update proposal carries: the low 32 bits of the
/// big-endian word of its first 8 bytes.
pub open spec fn proposal_required(p: AdminProposal) -> u32 {
    be_value(p.data@, 0, 8) as u32
}

/// What carrying out an action of type `kind` at `now` answers; `target` is
/// the admin it names, `id` and `flag` the escrow and flag a release or a
/// resolution carries, `required` the count an update carries.
pub open spec fn dispatch_outcome(c: EscrowContract, kind: ActionType, target: Address, id: u64, flag: bool, required: u32, now: u64) -> Result<(), Error> {
    match kind {
        ActionType::ReleaseEscrow => release_outcome(c.book.escrows@, id, now, flag),
        ActionType::ResolveDispute => resolve_outcome(c.book.escrows@, id),
        ActionType::AddAdmin => if c.admin.multisig is None { Err(Error::MultiSigNotInitialized) } else { Ok(()) },
        ActionType::RemoveAdmin => match c.admin.multisig {
            None => Err(Error::MultiSigNotInitialized),
            Some(cfg) => if cfg.total_admins <= cfg.required_signatures { Err(Error::InsufficientAdmins) } else { Ok(()) },
        },
        ActionType::UpdateRequiredSignatures => match c.admin.multisig {
            None => Err(Error::MultiSigNotInitialized),
            Some(cfg) => if required == 0 || required > cfg.total_admins {
                Err(Error::InsufficientAdmins)
            } else {
                Ok(())
            },
        },
        _ => Ok(()),
    }
}

/// Whether carrying out the action keeps every counter and score in range.
pub open spec fn dispatch_fits(c: EscrowContract, kind: ActionType, target: Address, id: u64, flag: bool, now: u64) -> bool {
    match kind {
        ActionType::ReleaseEscrow => release_outcome(c.book.escrows@, id, now, flag) is Ok
            ==> completion_pair_fits(c, c.book.escrows@[id], now),
        ActionType::ResolveDispute => resolve_outcome(c.book.escrows@, id) is Ok
            ==> settlement_fits(c, id, now, flag),
        ActionType::AddAdmin => match c.admin.multisig {
            Some(cfg) => !cfg.admins@.contains(target) ==> cfg.total_admins < u32::MAX,
            None => true,
        },
        _ => true,
    }
}

/// The state after the action, which can be carried out, is carried out at `now`.
pub open spec fn dispatched(old: EscrowContract, new: EscrowContract, kind: ActionType, target: Address, id: u64, flag: bool, required: u32, now: u64) -> bool {
    let cfg = old.admin.multisig->0;
    match kind {
        ActionType::ReleaseEscrow => released(old, new, id, now),
        ActionType::ResolveDispute => {
            let e = old.book.escrows@[id];
            &&& settled(old, new, id, now, flag)
            &&& new.transfers@ == old.transfers@.push(payout(e, winner_of(e, flag)))
        },
        ActionType::AddAdmin => {
            &&& if cfg.admins@.contains(target) {
                &&& new.admin.multisig == old.admin.multisig
                &&& new.events == old.events
            } else {
                &&& config_is(new.admin.multisig, cfg.admins@.push(target), cfg.required_signatures,
                    (cfg.total_admins + 1) as u32, cfg.proposal_ttl)
                &&& new.events@ == old.events@.push(EscrowEvent::AdminAdded(AdminAdded { admin: target }))
            }
            &&& new.admin.proposals == old.admin.proposals
            &&& new.admin.proposal_counter == old.admin.proposal_counter
            &&& new.book == old.book
            &&& new.multi_party == old.multi_party
            &&& new.reputation == old.reputation
            &&& new.transfers == old.transfers
        },
        ActionType::RemoveAdmin => {
            &&& config_is(new.admin.multisig, without(cfg.admins@, target), cfg.required_signatures,
                (cfg.total_admins - 1) as u32, cfg.proposal_ttl)
            &&& new.events@ == old.events@.push(EscrowEvent::AdminRemoved(AdminRemoved { admin: target }))
            &&& new.admin.proposals == old.admin.proposals
            &&& new.admin.proposal_counter == old.admin.proposal_counter
            &&& new.book == old.book
            &&& new.multi_party == old.multi_party
            &&& new.reputation == old.reputation
            &&& new.transfers == old.transfers
        },
        ActionType::UpdateRequiredSignatures => {
            &&& config_is(new.admin.multisig, cfg.admins@, required, cfg.total_admins, cfg.proposal_ttl)
            &&& new.events == old.events
            &&& new.admin.proposals == old.admin.proposals
            &&& new.admin.proposal_counter == old.admin.proposal_counter
            &&& new.book == old.book
            &&& new.multi_party == old.multi_party
            &&& new.reputation == old.reputation
            &&& new.transfers == old.transfers
        },
        _ => new == old,
    }
}

/// What carrying out proposal `p` at `now` answers.
pub open spec fn proposal_outcome(c: EscrowContract, p: AdminProposal, now: u64) -> Result<(), Error> {
    dispatch_outcome(c, p.action_type, p.target, proposal_escrow_id(p), proposal_flag(p), proposal_required(p), now)
}

/// Whether carrying out proposal `p` at `now` keeps counters and scores in range.
pub open spec fn proposal_fits(c: EscrowContract, p: AdminProposal, now: u64) -> bool {
    dispatch_fits(c, p.action_type, p.target, proposal_escrow_id(p), proposal_flag(p), now)
}

/// The state after proposal `p` is carried out at `now`.
pub open spec fn proposal_carried_out(old: EscrowContract, new: EscrowContract, p: AdminProposal, now: u64) -> bool {
    dispatched(old, new, p.action_type, p.target, proposal_escrow_id(p), proposal_flag(p), proposal_required(p), now)
}

/// `admins` without `admin`, in order.
fn remove_from(admins: &Vec<Address>, admin: Address) -> (r: Vec<Address>)
    ensures
        r@ == without(admins@, admin),
{
    let mut r: Vec<Address> = Vec::new();
    let mut i: usize = 0;
    while i < admins.len()
        invariant
            0 <= i <= admins@.len(),
            r@ == without(admins@.take(i as int), admin),
        decreases admins@.len() - i,
    {
        proof {
            assert(admins@.take(i + 1).drop_last() =~= admins@.take(i as int));
        }
        if admins[i] != admin {
            r.push(admins[i]);
        }
        i = i + 1;
    }
    proof {
        assert(admins@.take(admins@.len() as int) =~= admins@);
    }
    r
}

impl EscrowContract {
    /// Makes `admin` the only admin, with one signature required and
    /// proposals open for 7 days. The contract must not be initialised yet.
    pub fn initialize(&mut self, admin: Address)
        requires
            old(self).admin.multisig is None,
        ensures
            config_is(final(self).admin.multisig, seq![admin], 1, 1, PROPOSAL_TTL),
            final(self).admin.proposal_counter == old(self).admin.proposal_counter,
            final(self).admin.proposals == old(self).admin.proposals,
            final(self).events@ == old(self).events@.push(EscrowEvent::AdminAdded(AdminAdded { admin })),
            final(self).book == old(self).book,
            final(self).multi_party == old(self).multi_party,
            final(self).reputation == old(self).reputation,
            final(self).transfers == old(self).transfers,
    {
        let mut admins: Vec<Address> = Vec::new();
        admins.push(admin);
        self.admin.multisig = Some(
            MultiSigConfig { admins, required_signatures: 1, total_admins: 1, proposal_ttl: PROPOSAL_TTL },
        );
        self.events.push(EscrowEvent::AdminAdded(AdminAdded { admin }));
        proof {
            assert(self.admin.multisig->0.admins@ =~= seq![admin]);
        }
    }

    /// The multi-signature configuration, which must be initialised.
    pub fn get_multisig_config(&self) -> (r: &MultiSigConfig)
        requires
            self.admin.multisig is Some,
        ensures
            *r == self.admin.multisig->0,
    {
        self.admin.multisig.as_ref().unwrap()
    }

    /// Admin `proposer` proposes an action; the proposal is named by the
    /// decimal notation of the next proposal number, counts the proposer's
    /// approval, and expires after the configured time to live.
    pub fn propose_action(
        &mut self,
        now: u64,
        proposer: Address,
        action_type: ActionType,
        target: Address,
        data: Vec<u8>,
    ) -> (r: Result<String, Error>)
        requires
            old(self).admin.proposal_counter < u64::MAX,
            old(self).admin.multisig matches Some(cfg) ==> now + cfg.proposal_ttl <= u64::MAX,
        ensures
            admin_error(old(self).admin.multisig, proposer) matches Some(err) ==> r == Err::<String, Error>(err)
                && *final(self) == *old(self),
            admin_error(old(self).admin.multisig, proposer) is None ==> {
                let n = (old(self).admin.proposal_counter + 1) as u64;
                let id = decimal(n as nat);
                let p = final(self).admin.proposals@[id];
                &&& r matches Ok(s) && s@ == id
                &&& final(self).admin.proposal_counter == n
                &&& final(self).admin.multisig == old(self).admin.multisig
                &&& final(self).admin.proposals@ == old(self).admin.proposals@.insert(id, p)
                &&& p.id@ == id
                &&& p.proposer == proposer
                &&& p.action_type == action_type
                &&& p.target == target
                &&& p.data@ == data@
                &&& p.approvals@ == seq![proposer]
                &&& p.approval_count == 1
                &&& !p.executed
                &&& !p.rejected
                &&& p.created_at == now
                &&& p.expires_at == now + old(self).admin.multisig->0.proposal_ttl
                &&& final(self).events@.len() == old(self).events@.len() + 1
                &&& final(self).events@.drop_last() == old(self).events@
                &&& final(self).events@.last() matches EscrowEvent::ActionProposed(ev)
                    && ev.proposal_id@ == id && ev.proposer == proposer && ev.action_type == action_type
                &&& final(self).book == old(self).book
                &&& final(self).multi_party == old(self).multi_party
                &&& final(self).reputation == old(self).reputation
                &&& final(self).transfers == old(self).transfers
            },
    {
        let config = match &self.admin.multisig {
            Some(c) => c,
            None => return Err(Error::MultiSigNotInitialized),
        };
        if !contains_address(&config.admins, proposer) {
            return Err(Error::NotAnAdmin);
        }
        let ttl = config.proposal_ttl;
        let counter = self.admin.proposal_counter + 1;
        self.admin.proposal_counter = counter;
        let proposal_id = u64_to_string(counter);
        let mut approvals: Vec<Address> = Vec::new();
        approvals.push(proposer);
        let proposal = AdminProposal {
            id: proposal_id.clone(),
            proposer,
            action_type,
            target,
            data,
            approvals,
            approval_count: 1,
            executed: false,
            rejected: false,
            created_at: now,
            expires_at: now + ttl,
        };
        self.admin.proposals.insert(proposal_id.clone(), proposal);
        self.events.push(
            EscrowEvent::ActionProposed(ActionProposed { proposal_id: proposal_id.clone(), proposer, action_type }),
        );
        proof {
            assert(self.admin.proposals@[decimal(counter as nat)].approvals@ =~= seq![proposer]);
            assert(self.events@.drop_last() =~= old(self).events@);
        }
        Ok(proposal_id)
    }

    /// Admin `approver` approves proposal `proposal_id`, which must be open,
    /// unexpired, and not yet approved by it.
    pub fn approve_action(&mut self, now: u64, approver: Address, proposal_id: String) -> (r: Result<(), Error>)
        requires
            old(self).admin.proposals@.contains_key(proposal_id@) ==> old(self).admin.proposals@[proposal_id@].approval_count < u32::MAX,
        ensures
            r == approve_action_outcome(old(self).admin, now, approver, proposal_id@),
            r is Err ==> *final(self) == *old(self),
            r is Ok ==> {
                let p = old(self).admin.proposals@[proposal_id@];
                let q = final(self).admin.proposals@[proposal_id@];
                &&& final(self).admin.proposals@ == old(self).admin.proposals@.insert(proposal_id@, q)
                &&& q.approvals@ == p.approvals@.push(approver)
                &&& q.approval_count == p.approval_count + 1
                &&& q.id == p.id && q.proposer == p.proposer && q.action_type == p.action_type
                &&& q.target == p.target && q.data@ == p.data@ && q.executed == p.executed
                &&& q.rejected == p.rejected && q.created_at == p.created_at && q.expires_at == p.expires_at
                &&& final(self).admin.multisig == old(self).admin.multisig
                &&& final(self).admin.proposal_counter == old(self).admin.proposal_counter
                &&& final(self).events@.len() == old(self).events@.len() + 1
                &&& final(self).events@.drop_last() == old(self).events@
                &&& final(self).events@.last() matches EscrowEvent::ActionApproved(ev)
                    && ev.proposal_id@ == proposal_id@ && ev.approver == approver
                    && ev.approval_count == p.approval_count + 1
                &&& final(self).book == old(self).book
                &&& final(self).multi_party == old(self).multi_party
                &&& final(self).reputation == old(self).reputation
                &&& final(self).transfers == old(self).transfers
            },
    {
        let config = match &self.admin.multisig {
            Some(c) => c,
            None => return Err(Error::MultiSigNotInitialized),
        };
        if !contains_address(&config.admins, approver) {
            return Err(Error::NotAnAdmin);
        }
        let proposal = match self.admin.proposals.get(proposal_id.as_str()) {
            Some(p) => p,
            None => return Err(Error::ProposalNotFound),
        };
        if proposal.executed || proposal.rejected {
            return Err(Error::ProposalAlreadyExecuted);
        }
        if now > proposal.expires_at {
            return Err(Error::ProposalExpired);
        }
        if contains_address(&proposal.approvals, approver) {
            return Err(Error::AlreadyApproved);
        }
        let mut approvals = copy_addresses(&proposal.approvals);
        approvals.push(approver);
        let updated = AdminProposal {
            id: proposal.id.clone(),
            proposer: proposal.proposer,
            action_type: proposal.action_type,
            target: proposal.target,
            data: copy_bytes(&proposal.data),
            approvals,
            approval_count: proposal.approval_count + 1,
            executed: proposal.executed,
            rejected: proposal.rejected,
            created_at: proposal.created_at,
            expires_at: proposal.expires_at,
        };
        let count = updated.approval_count;
        self.admin.proposals.insert(proposal_id.clone(), updated);
        self.events.push(
            EscrowEvent::ActionApproved(ActionApproved { proposal_id, approver, approval_count: count }),
        );
        proof {
            assert(self.events@.drop_last() =~= old(self).events@);
        }
        Ok(())
    }

    /// Executes proposal `proposal_id` once it has the required approvals
    /// and has not expired: it is marked executed and its action is carried
    /// out. When the action itself is refused, the action's error is
    /// answered, and the state that comes back with it is what was written
    /// before the failure (the proposal marked executed); the caller discards
    /// it, as it discards the state of every failed request.
    pub fn execute_action(&mut self, now: u64, proposal_id: String) -> (r: Result<(), Error>)
        requires
            old(self).wf(),
            old(self).admin.proposals@.contains_key(proposal_id@) ==> proposal_fits(
                *old(self),
                old(self).admin.proposals@[proposal_id@],
                now,
            ),
        ensures
            final(self).wf(),
            execute_error(old(self).admin, now, proposal_id@) matches Some(err) ==> r == Err::<(), Error>(err)
                && *final(self) == *old(self),
            execute_error(old(self).admin, now, proposal_id@) is None ==> {
                let p = old(self).admin.proposals@[proposal_id@];
                let q = final(self).admin.proposals@[proposal_id@];
                &&& final(self).admin.proposals@ == old(self).admin.proposals@.insert(
                    proposal_id@,
                    AdminProposal { executed: true, ..q },
                )
                &&& q.id == p.id && q.proposer == p.proposer && q.action_type == p.action_type
                &&& q.target == p.target && q.data@ == p.data@ && q.approvals@ == p.approvals@
                &&& q.approval_count == p.approval_count && q.rejected == p.rejected
                &&& q.created_at == p.created_at && q.expires_at == p.expires_at
                &&& q.executed
                &&& match proposal_outcome(*old(self), p, now) {
                    Err(err) => {
                        &&& r == Err::<(), Error>(err)
                        &&& final(self).admin.multisig == old(self).admin.multisig
                        &&& final(self).admin.proposal_counter == old(self).admin.proposal_counter
                        &&& final(self).events == old(self).events
                        &&& final(self).book == old(self).book
                        &&& final(self).multi_party == old(self).multi_party
                        &&& final(self).reputation == old(self).reputation
                        &&& final(self).transfers == old(self).transfers
                    },
                    Ok(()) => {
                        &&& r is Ok
                        &&& exists|mid: EscrowContract| {
                            &&& proposal_carried_out(*old(self), mid, p, now)
                            &&& final(self).admin.multisig == mid.admin.multisig
                            &&& final(self).admin.proposal_counter == mid.admin.proposal_counter
                            &&& final(self).book == mid.book
                            &&& final(self).multi_party == mid.multi_party
                            &&& final(self).reputation == mid.reputation
                            &&& final(self).transfers == mid.transfers
                            &&& final(self).events@.len() == mid.events@.len() + 1
                            &&& final(self).events@.drop_last() == mid.events@
                            &&& final(self).events@.last() matches EscrowEvent::ActionExecuted(ev)
                                && ev.proposal_id@ == proposal_id@
                        }
                    },
                }
            },
    {
        let config = match &self.admin.multisig {
            Some(c) => c,
            None => return Err(Error::MultiSigNotInitialized),
        };
        let required = config.required_signatures;
        let proposal = match self.admin.proposals.get(proposal_id.as_str()) {
            Some(p) => p,
            None => return Err(Error::ProposalNotFound),
        };
        if proposal.executed || proposal.rejected {
            return Err(Error::ProposalAlreadyExecuted);
        }
        if now > proposal.expires_at {
            return Err(Error::ProposalExpired);
        }
        if proposal.approval_count < required {
            return Err(Error::MultiSigThresholdNotMet);
        }
        let action = AdminProposal {
            id: proposal.id.clone(),
            proposer: proposal.proposer,
            action_type: proposal.action_type,
            target: proposal.target,
            data: copy_bytes(&proposal.data),
            approvals: copy_addresses(&proposal.approvals),
            approval_count: proposal.approval_count,
            executed: true,
            rejected: proposal.rejected,
            created_at: proposal.created_at,
            expires_at: proposal.expires_at,
        };
        let ghost p = *proposal;
        let ghost before = *self;
        let action_type = action.action_type;
        let target = action.target;
        let escrow_id = read_u64_from_bytes(&action.data, 0);
        let flag = byte_at(&action.data, 8) != 0;
        let count = escrow_id as u32;
        self.admin.proposals.insert(proposal_id.clone(), action);
        let ghost marked = *self;
        let result = self.dispatch_action(now, action_type, target, escrow_id, flag, count);
        match result {
            Err(err) => Err(err),
            Ok(()) => {
                let ghost mid = *self;
                self.events.push(EscrowEvent::ActionExecuted(ActionExecuted { proposal_id }));
                proof {
                    assert(self.events@.drop_last() =~= mid.events@);
                    let witness = EscrowContract { admin: AdminState { proposals: before.admin.proposals, ..mid.admin }, ..mid };
                    assert(proposal_carried_out(before, witness, p, now));
                }
                Ok(())
            },
        }
    }

    /// Carries out an action of type `kind`: `target` is the admin it names,
    /// `escrow_id` and `flag` the escrow and flag a release or a resolution
    /// carries, `required` the count an update carries.
    fn dispatch_action(&mut self, now: u64, kind: ActionType, target: Address, escrow_id: u64, flag: bool, required: u32) -> (r: Result<(), Error>)
        requires
            old(self).wf(),
            dispatch_fits(*old(self), kind, target, escrow_id, flag, now),
        ensures
            final(self).wf(),
            r == dispatch_outcome(*old(self), kind, target, escrow_id, flag, required, now),
            r is Err ==> *final(self) == *old(self),
            r is Ok ==> dispatched(*old(self), *final(self), kind, target, escrow_id, flag, required, now),
    {
        match kind {
            ActionType::ReleaseEscrow => self.release(now, escrow_id, flag),
            ActionType::ResolveDispute => {
                if !self.book.escrows.contains_key(&escrow_id) {
                    return Err(Error::EscrowNotFound);
                }
                let escrow = self.get_escrow(escrow_id);
                if escrow.status != EscrowStatus::Disputed {
                    return Err(Error::NotDisputed);
                }
                self.settle_dispute(now, escrow_id, flag);
                Ok(())
            },
            ActionType::AddAdmin => {
                let config = match &self.admin.multisig {
                    Some(c) => c,
                    None => return Err(Error::MultiSigNotInitialized),
                };
                if !contains_address(&config.admins, target) {
                    let mut config = self.admin.multisig.take().unwrap();
                    config.admins.push(target);
                    config.total_admins = config.total_admins + 1;
                    self.admin.multisig = Some(config);
                    self.events.push(EscrowEvent::AdminAdded(AdminAdded { admin: target }));
                }
                Ok(())
            },
            ActionType::RemoveAdmin => {
                let config = match &self.admin.multisig {
                    Some(c) => c,
                    None => return Err(Error::MultiSigNotInitialized),
                };
                if config.total_admins <= config.required_signatures {
                    return Err(Error::InsufficientAdmins);
                }
                let new_admins = remove_from(&config.admins, target);
                let mut config = self.admin.multisig.take().unwrap();
                config.admins = new_admins;
                config.total_admins = config.total_admins - 1;
                self.admin.multisig = Some(config);
                self.events.push(EscrowEvent::AdminRemoved(AdminRemoved { admin: target }));
                Ok(())
            },
            ActionType::UpdateRequiredSignatures => {
                let config = match &self.admin.multisig {
                    Some(c) => c,
                    None => return Err(Error::MultiSigNotInitialized),
                };
                if required == 0 || required > config.total_admins {
                    return Err(Error::InsufficientAdmins);
                }
                let mut config = self.admin.multisig.take().unwrap();
                config.required_signatures = required;
                self.admin.multisig = Some(config);
                Ok(())
            },
            _ => Ok(()),
        }
    }

    /// Admin `rejecter` rejects proposal `proposal_id`, which must be open.
    pub fn reject_action(&mut self, rejecter: Address, proposal_id: String) -> (r: Result<(), Error>)
        ensures
            r == reject_outcome(old(self).admin, rejecter, proposal_id@),
            r is Err ==> *final(self) == *old(self),
            r is Ok ==> {
                let p = old(self).admin.proposals@[proposal_id@];
                let q = final(self).admin.proposals@[proposal_id@];
                &&& final(self).admin.proposals@ == old(self).admin.proposals@.insert(
                    proposal_id@,
                    AdminProposal { rejected: true, ..q },
                )
                &&& q.id == p.id && q.proposer == p.proposer && q.action_type == p.action_type
                &&& q.target == p.target && q.data@ == p.data@ && q.approvals@ == p.approvals@
                &&& q.approval_count == p.approval_count && q.executed == p.executed
                &&& q.created_at == p.created_at && q.expires_at == p.expires_at
                &&& final(self).admin.multisig == old(self).admin.multisig
                &&& final(self).admin.proposal_counter == old(self).admin.proposal_counter
                &&& final(self).events@.len() == old(self).events@.len() + 1
                &&& final(self).events@.drop_last() == old(self).events@
                &&& final(self).events@.last() matches EscrowEvent::ActionRejected(ev)
                    && ev.proposal_id@ == proposal_id@ && ev.rejected_by == rejecter
                &&& final(self).book == old(self).book
                &&& final(self).multi_party == old(self).multi_party
                &&& final(self).reputation == old(self).reputation
                &&& final(self).transfers == old(self).transfers
            },
    {
        let config = match &self.admin.multisig {
            Some(c) => c,
            None => return Err(Error::MultiSigNotInitialized),
        };
        if !contains_address(&config.admins, rejecter) {
            return Err(Error::NotAnAdmin);
        }
        let proposal = match self.admin.proposals.get(proposal_id.as_str()) {
            Some(p) => p,
            None => return Err(Error::ProposalNotFound),
        };
        if proposal.executed || proposal.rejected {
            return Err(Error::ProposalAlreadyExecuted);
        }
        let updated = AdminProposal {
            id: proposal.id.clone(),
            proposer: proposal.proposer,
            action_type: proposal.action_type,
            target: proposal.target,
            data: copy_bytes(&proposal.data),
            approvals: copy_addresses(&proposal.approvals),
            approval_count: proposal.approval_count,
            executed: proposal.executed,
            rejected: true,
            created_at: proposal.created_at,
            expires_at: proposal.expires_at,
        };
        self.admin.proposals.insert(proposal_id.clone(), updated);
        self.events.push(EscrowEvent::ActionRejected(ActionRejected { proposal_id, rejected_by: rejecter }));
        proof {
            assert(self.events@.drop_last() =~= old(self).events@);
        }
        Ok(())
    }
}

impl EscrowContract {
    /// Admin `caller` adds `new_admin`; nothing changes if it already is one.
    pub fn add_admin(&mut self, caller: Address, new_admin: Address) -> (r: Result<(), Error>)
        requires
            old(self).admin.multisig matches Some(cfg) ==> (!cfg.admins@.contains(new_admin) ==> cfg.total_admins < u32::MAX),
        ensures
            r == match admin_error(old(self).admin.multisig, caller) {
                Some(err) => Err::<(), Error>(err),
                None => Ok(()),
            },
            r is Err || old(self).admin.multisig->0.admins@.contains(new_admin) ==> *final(self) == *old(self),
            r is Ok && !old(self).admin.multisig->0.admins@.contains(new_admin) ==> {
                let cfg = old(self).admin.multisig->0;
                &&& config_is(final(self).admin.multisig, cfg.admins@.push(new_admin), cfg.required_signatures,
                    (cfg.total_admins + 1) as u32, cfg.proposal_ttl)
                &&& final(self).events@ == old(self).events@.push(EscrowEvent::AdminAdded(AdminAdded { admin: new_admin }))
                &&& final(self).admin.proposals == old(self).admin.proposals
                &&& final(self).admin.proposal_counter == old(self).admin.proposal_counter
                &&& final(self).book == old(self).book
                &&& final(self).multi_party == old(self).multi_party
                &&& final(self).reputation == old(self).reputation
                &&& final(self).transfers == old(self).transfers
            },
    {
        let config = match &self.admin.multisig {
            Some(c) => c,
            None => return Err(Error::MultiSigNotInitialized),
        };
        if !contains_address(&config.admins, caller) {
            return Err(Error::NotAnAdmin);
        }
        if !contains_address(&config.admins, new_admin) {
            let mut config = self.admin.multisig.take().unwrap();
            config.admins.push(new_admin);
            config.total_admins = config.total_admins + 1;
            self.admin.multisig = Some(config);
            self.events.push(EscrowEvent::AdminAdded(AdminAdded { admin: new_admin }));
        }
        Ok(())
    }

    /// Admin `caller` removes `admin`, provided that more admins remain than
    /// signatures are required and that `admin` is one.
    pub fn remove_admin(&mut self, caller: Address, admin: Address) -> (r: Result<(), Error>)
        ensures
            r == match admin_error(old(self).admin.multisig, caller) {
                Some(err) => Err::<(), Error>(err),
                None => {
                    let cfg = old(self).admin.multisig->0;
                    if cfg.total_admins <= cfg.required_signatures {
                        Err(Error::InsufficientAdmins)
                    } else if !cfg.admins@.contains(admin) {
                        Err(Error::NotAnAdmin)
                    } else {
                        Ok(())
                    }
                },
            },
            r is Err ==> *final(self) == *old(self),
            r is Ok ==> {
                let cfg = old(self).admin.multisig->0;
                &&& config_is(final(self).admin.multisig, without(cfg.admins@, admin), cfg.required_signatures,
                    (cfg.total_admins - 1) as u32, cfg.proposal_ttl)
                &&& final(self).events@ == old(self).events@.push(EscrowEvent::AdminRemoved(AdminRemoved { admin }))
                &&& final(self).admin.proposals == old(self).admin.proposals
                &&& final(self).admin.proposal_counter == old(self).admin.proposal_counter
                &&& final(self).book == old(self).book
                &&& final(self).multi_party == old(self).multi_party
                &&& final(self).reputation == old(self).reputation
                &&& final(self).transfers == old(self).transfers
            },
    {
        let config = match &self.admin.multisig {
            Some(c) => c,
            None => return Err(Error::MultiSigNotInitialized),
        };
        if !contains_address(&config.admins, caller) {
            return Err(Error::NotAnAdmin);
        }
        if config.total_admins <= config.required_signatures {
            return Err(Error::InsufficientAdmins);
        }
        let new_admins = remove_from(&config.admins, admin);
        proof {
            lemma_without_len(config.admins@, admin);
        }
        if new_admins.len() == config.admins.len() {
            return Err(Error::NotAnAdmin);
        }
        let mut config = self.admin.multisig.take().unwrap();
        config.admins = new_admins;
        config.total_admins = config.total_admins - 1;
        self.admin.multisig = Some(config);
        self.events.push(EscrowEvent::AdminRemoved(AdminRemoved { admin }));
        Ok(())
    }

    /// Admin `caller` sets the number of approvals an action needs, between 1
    /// and the number of admins.
    pub fn update_required_signatures(&mut self, caller: Address, required: u32) -> (r: Result<(), Error>)
        ensures
            r == match admin_error(old(self).admin.multisig, caller) {
                Some(err) => Err::<(), Error>(err),
                None => if required == 0 || required > old(self).admin.multisig->0.total_admins {
                    Err(Error::InsufficientAdmins)
                } else {
                    Ok(())
                },
            },
            r is Err ==> *final(self) == *old(self),
            r is Ok ==> {
                let cfg = old(self).admin.multisig->0;
                &&& config_is(final(self).admin.multisig, cfg.admins@, required, cfg.total_admins, cfg.proposal_ttl)
                &&& final(self).events == old(self).events
                &&& final(self).admin.proposals == old(self).admin.proposals
                &&& final(self).admin.proposal_counter == old(self).admin.proposal_counter
                &&& final(self).book == old(self).book
                &&& final(self).multi_party == old(self).multi_party
                &&& final(self).reputation == old(self).reputation
                &&& final(self).transfers == old(self).transfers
            },
    {
        let config = match &self.admin.multisig {
            Some(c) => c,
            None => return Err(Error::MultiSigNotInitialized),
        };
        if !contains_address(&config.admins, caller) {
            return Err(Error::NotAnAdmin);
        }
        if required == 0 || required > config.total_admins {
            return Err(Error::InsufficientAdmins);
        }
        let mut config = self.admin.multisig.take().unwrap();
        config.required_signatures = required;
        self.admin.multisig = Some(config);
        Ok(())
    }
}

/// A copy of `v`, byte for byte.
fn copy_bytes(v: &Vec<u8>) -> (r: Vec<u8>)
    ensures
        r@ == v@,
{
    let mut r: Vec<u8> = Vec::new();
    let mut i: usize = 0;
    while i < v.len()
        invariant
            0 <= i <= v.len(),
            r@ == v@.subrange(0, i as int),
        decreases v.len() - i,
    {
        r.push(v[i]);
        i = i + 1;
    }
    assert(r@ =~= v@);
    r
}

/// The byte at `i` of `data`, 0 past its end.
fn byte_at(data: &Vec<u8>, i: usize) -> (r: u8)
    ensures
        r == byte_or_zero(data@, i as int),
{
    if i < data.len() { data[i] } else { 0 }
}

} // verus!
