//! The escrow contract's state, what it is made of, and the views that the
//! contracts of its operations speak of.
use vstd::prelude::*;
use vstd::hash_map::{HashMapWithView, StringHashMap};
use crate::ledger::{Address, TokenTransfer};
use crate::index::{ids_of, page_end};
use crate::escrow::types::{
    AdminProposal, Escrow, EscrowEvent, Evidence, MultiPartyEscrow, MultiSigConfig,
    ReputationConfig, ReputationScore, VestingSchedule,
};

verus! {

/// The administrative part of the state: the admin set and the proposals.
pub struct AdminState {
    pub multisig: Option<MultiSigConfig>,
    pub proposal_counter: u64,
    pub proposals: StringHashMap<AdminProposal>,
}

/// The two-party escrows, their indexes, their evidence and their vesting schedules.
pub struct EscrowBook {
    pub escrow_counter: u64,
    pub escrows: HashMapWithView<u64, Escrow>,
    /// For each customer, the ids of its escrows in creation order.
    pub customer_escrows: HashMapWithView<Address, Vec<u64>>,
    /// For each merchant, the ids of its escrows in creation order.
    pub merchant_escrows: HashMapWithView<Address, Vec<u64>>,
    /// For each escrow, the evidence submitted in its dispute, in order.
    pub evidence: HashMapWithView<u64, Vec<Evidence>>,
    pub vesting_schedules: HashMapWithView<u64, VestingSchedule>,
}

/// The multi-party escrows.
pub struct MultiPartyBook {
    pub counter: u64,
    pub escrows: HashMapWithView<u64, MultiPartyEscrow>,
}

/// Reputation scores and the configuration of their rewards and penalties.
pub struct ReputationBook {
    pub scores: HashMapWithView<Address, ReputationScore>,
    pub config: Option<ReputationConfig>,
}

/// The state of the escrow contract.
///
/// `events` holds the events published so far and `transfers` the token
/// movements requested so far, both in order; the host publishes the one and
/// carries out the other.
pub struct EscrowContract {
    pub admin: AdminState,
    pub book: EscrowBook,
    pub multi_party: MultiPartyBook,
    pub reputation: ReputationBook,
    pub events: Vec<EscrowEvent>,
    pub transfers: Vec<TokenTransfer>,
}

/// The evidence recorded for `escrow_id`, none if nothing was recorded.
pub open spec fn evidence_of(evidence: Map<u64, Vec<Evidence>>, escrow_id: u64) -> Seq<Evidence> {
    if evidence.contains_key(escrow_id) {
        evidence[escrow_id]@
    } else {
        Seq::empty()
    }
}

/// The entries of a page of `ids`, looked up in `escrows`.
pub open spec fn escrow_page(ids: Seq<u64>, escrows: Map<u64, Escrow>, offset: int, limit: int) -> Seq<Escrow> {
    let end = page_end(ids.len() as int, offset, limit);
    if offset < end {
        ids.subrange(offset, end).map_values(|id: u64| escrows[id])
    } else {
        Seq::empty()
    }
}

impl EscrowBook {
    /// Every id that an index lists names a stored escrow.
    pub open spec fn wf(&self) -> bool {
        &&& forall|a: Address, id: u64|
            #[trigger] ids_of(self.customer_escrows@, a).contains(id) ==> self.escrows@.contains_key(id)
        &&& forall|a: Address, id: u64|
            #[trigger] ids_of(self.merchant_escrows@, a).contains(id) ==> self.escrows@.contains_key(id)
    }
}

impl EscrowContract {
    /// The contract's invariant.
    pub open spec fn wf(&self) -> bool {
        self.book.wf()
    }

    /// A contract with nothing stored.
    pub fn new() -> (c: EscrowContract)
        ensures
            c.wf(),
            c.admin.multisig is None,
            c.admin.proposal_counter == 0,
            c.admin.proposals@ == Map::<Seq<char>, AdminProposal>::empty(),
            c.book.escrow_counter == 0,
            c.book.escrows@ == Map::<u64, Escrow>::empty(),
            c.book.customer_escrows@ == Map::<Address, Vec<u64>>::empty(),
            c.book.merchant_escrows@ == Map::<Address, Vec<u64>>::empty(),
            c.book.evidence@ == Map::<u64, Vec<Evidence>>::empty(),
            c.book.vesting_schedules@ == Map::<u64, VestingSchedule>::empty(),
            c.multi_party.counter == 0,
            c.multi_party.escrows@ == Map::<u64, MultiPartyEscrow>::empty(),
            c.reputation.scores@ == Map::<Address, ReputationScore>::empty(),
            c.reputation.config is None,
            c.events@ == Seq::<EscrowEvent>::empty(),
            c.transfers@ == Seq::<TokenTransfer>::empty(),
    {
        EscrowContract {
            admin: AdminState {
                multisig: None,
                proposal_counter: 0,
                proposals: StringHashMap::new(),
            },
            book: EscrowBook {
                escrow_counter: 0,
                escrows: HashMapWithView::new(),
                customer_escrows: HashMapWithView::new(),
                merchant_escrows: HashMapWithView::new(),
                evidence: HashMapWithView::new(),
                vesting_schedules: HashMapWithView::new(),
            },
            multi_party: MultiPartyBook { counter: 0, escrows: HashMapWithView::new() },
            reputation: ReputationBook { scores: HashMapWithView::new(), config: None },
            events: Vec::new(),
            transfers: Vec::new(),
        }
    }
}

impl EscrowBook {
    /// `other` differs from `self` at most in its escrows.
    pub open spec fn same_except_escrows(&self, other: &EscrowBook) -> bool {
        &&& self.escrow_counter == other.escrow_counter
        &&& self.customer_escrows == other.customer_escrows
        &&& self.merchant_escrows == other.merchant_escrows
        &&& self.evidence == other.evidence
        &&& self.vesting_schedules == other.vesting_schedules
    }
}

} // verus!
