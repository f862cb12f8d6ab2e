//! The records the escrow contract keeps, its errors and the events it publishes.
use vstd::prelude::*;
use crate::ledger::Address;

verus! {

/// Where an escrow stands.
#[derive(Clone, Copy, Debug, PartialEq, Eq, Structural)]
pub enum EscrowStatus {
    Locked,
    Released,
    Disputed,
    Resolved,
}

/// The escrow contract's errors.
#[derive(Clone, Copy, Debug, PartialEq, Eq, Structural)]
pub enum Error {
    EscrowNotFound,
    InvalidStatus,
    AlreadyProcessed,
    Unauthorized,
    ReleaseNotYetAvailable,
    NotDisputed,
    TimeoutNotReached,
    ReleaseOnHoldPeriod,
    InvalidVestingSchedule,
    CliffPeriodNotPassed,
    MilestoneAlreadyReleased,
    InsufficientVestedAmount,
    TransferFailed,
    InvalidParticipantCount,
    InvalidSharesSum,
    DuplicateApproval,
    ApprovalsThresholdNotMet,
    MultiSigNotInitialized,
    ProposalNotFound,
    ProposalExpired,
    ProposalAlreadyExecuted,
    MultiSigThresholdNotMet,
    InsufficientAdmins,
    NotAnAdmin,
    AlreadyApproved,
}

/// Reputation of one account.
#[derive(Clone, Copy, Debug, PartialEq, Eq, Structural)]
pub struct ReputationScore {
    pub address: Address,
    pub total_transactions: u32,
    pub disputes_initiated: u32,
    pub disputes_won: u32,
    pub disputes_lost: u32,
    pub score: i64,
    pub last_updated: u64,
}

/// Magnitudes of the reputation rewards and penalties.
#[derive(Clone, Copy, Debug, PartialEq, Eq, Structural)]
pub struct ReputationConfig {
    pub win_reward: i64,
    pub loss_penalty: i64,
    pub completion_reward: i64,
    pub dispute_initiation_penalty: i64,
}

/// A two-party escrow.
#[derive(Clone, Copy, Debug, PartialEq, Eq, Structural)]
pub struct Escrow {
    pub id: u64,
    pub customer: Address,
    pub merchant: Address,
    pub amount: i128,
    pub token: Address,
    pub status: EscrowStatus,
    pub created_at: u64,
    pub release_timestamp: u64,
    pub dispute_started_at: u64,
    pub last_activity_at: u64,
    pub escalation_level: u64,
    pub min_hold_period: u64,
}

/// The part a participant plays in a multi-party escrow.
#[derive(Clone, Debug, PartialEq, Eq)]
pub enum ParticipantRole {
    Customer,
    Merchant,
    ServiceProvider,
    Arbitrator,
    Custom(String),
}

/// A participant of a multi-party escrow; `share_bps` is its share in basis
/// points out of 10000.
#[derive(Clone, Debug, PartialEq, Eq)]
pub struct Participant {
    pub address: Address,
    pub share_bps: u32,
    pub role: ParticipantRole,
    pub required_approval: bool,
}

/// An escrow shared among several participants.
#[derive(Clone, Debug, PartialEq, Eq)]
pub struct MultiPartyEscrow {
    pub id: u64,
    pub participants: Vec<Participant>,
    pub total_amount: i128,
    pub token: Address,
    pub status: EscrowStatus,
    pub approvals: Vec<Address>,
    pub required_approvals: u32,
    pub created_at: u64,
    pub release_timestamp: u64,
}

/// A piece of evidence submitted in a dispute.
#[derive(Clone, Debug, PartialEq, Eq)]
pub struct Evidence {
    pub submitter: Address,
    pub ipfs_hash: String,
    pub submitted_at: u64,
}

/// One step of a milestone vesting schedule.
#[derive(Clone, Debug, PartialEq, Eq)]
pub struct VestingMilestone {
    pub unlock_timestamp: u64,
    pub amount: i128,
    pub released: bool,
    pub description: String,
}

/// How the amount of a vesting escrow becomes releasable over time.
#[derive(Clone, Debug, PartialEq, Eq)]
pub struct VestingSchedule {
    pub escrow_id: u64,
    pub total_amount: i128,
    pub released_amount: i128,
    pub start_timestamp: u64,
    pub cliff_timestamp: u64,
    pub end_timestamp: u64,
    pub milestones: Vec<VestingMilestone>,
}

/// The kinds of administrative actions that admins propose and approve.
#[derive(Clone, Copy, Debug, PartialEq, Eq, Structural)]
pub enum ActionType {
    ReleaseEscrow,
    ResolveDispute,
    CompletePayment,
    RefundPayment,
    AddAdmin,
    RemoveAdmin,
    UpdateRequiredSignatures,
}

/// The admins of the contract and how many of them must approve an action.
#[derive(Clone, Debug, PartialEq, Eq)]
pub struct MultiSigConfig {
    pub admins: Vec<Address>,
    pub required_signatures: u32,
    pub total_admins: u32,
    pub proposal_ttl: u64,
}

/// A proposed administrative action.
#[derive(Clone, Debug, PartialEq, Eq)]
pub struct AdminProposal {
    pub id: String,
    pub proposer: Address,
    pub action_type: ActionType,
    pub target: Address,
    pub data: Vec<u8>,
    pub approvals: Vec<Address>,
    pub approval_count: u32,
    pub executed: bool,
    pub rejected: bool,
    pub created_at: u64,
    pub expires_at: u64,
}

/// An escrow was created.
#[derive(Clone, Copy, Debug, PartialEq, Eq, Structural)]
pub struct EscrowCreated {
    pub escrow_id: u64,
    pub customer: Address,
    pub merchant: Address,
    pub amount: i128,
    pub token: Address,
    pub release_timestamp: u64,
}

/// A multi-party escrow was created.
#[derive(Clone, Copy, Debug, PartialEq, Eq, Structural)]
pub struct MultiPartyEscrowCreated {
    pub escrow_id: u64,
    pub participant_count: u32,
}

/// An escrow's amount went to the merchant.
#[derive(Clone, Copy, Debug, PartialEq, Eq, Structural)]
pub struct EscrowReleased {
    pub escrow_id: u64,
    pub merchant: Address,
    pub amount: i128,
}

/// A participant approved the release of a multi-party escrow.
#[derive(Clone, Copy, Debug, PartialEq, Eq, Structural)]
pub struct ParticipantApproved {
    pub escrow_id: u64,
    pub approver: Address,
}

/// A multi-party escrow was paid out.
#[derive(Clone, Copy, Debug, PartialEq, Eq, Structural)]
pub struct MultiPartyEscrowReleased {
    pub escrow_id: u64,
}

/// An escrow was disputed.
#[derive(Clone, Copy, Debug, PartialEq, Eq, Structural)]
pub struct EscrowDisputed {
    pub escrow_id: u64,
    pub disputed_by: Address,
}

/// A dispute or refund settled an escrow.
#[derive(Clone, Copy, Debug, PartialEq, Eq, Structural)]
pub struct EscrowResolved {
    pub escrow_id: u64,
    pub released_to_merchant: bool,
    pub amount: i128,
}

/// Evidence was submitted in a dispute.
#[derive(Clone, Debug, PartialEq, Eq)]
pub struct EvidenceSubmitted {
    pub escrow_id: u64,
    pub submitter: Address,
    pub ipfs_hash: String,
}

/// A dispute was escalated.
#[derive(Clone, Copy, Debug, PartialEq, Eq, Structural)]
pub struct DisputeEscalated {
    pub escrow_id: u64,
    pub level: u64,
}

/// An account's reputation score changed.
#[derive(Clone, Copy, Debug, PartialEq, Eq, Structural)]
pub struct ReputationUpdated {
    pub address: Address,
    pub old_score: i64,
    pub new_score: i64,
}

/// The reputation configuration was replaced.
#[derive(Clone, Copy, Debug, PartialEq, Eq, Structural)]
pub struct ReputationConfigUpdated {
    pub win_reward: i64,
    pub loss_penalty: i64,
    pub completion_reward: i64,
    pub dispute_initiation_penalty: i64,
}

/// A vesting escrow was created.
#[derive(Clone, Copy, Debug, PartialEq, Eq, Structural)]
pub struct VestingScheduleCreated {
    pub escrow_id: u64,
    pub total_amount: i128,
}

/// A vested amount was released.
#[derive(Clone, Copy, Debug, PartialEq, Eq, Structural)]
pub struct VestedAmountReleased {
    pub escrow_id: u64,
    pub amount: i128,
    pub released_at: u64,
}

/// A vesting milestone was marked released.
#[derive(Clone, Copy, Debug, PartialEq, Eq, Structural)]
pub struct MilestoneReleased {
    pub escrow_id: u64,
    pub milestone_index: u32,
    pub amount: i128,
}

/// An admin proposed an action.
#[derive(Clone, Debug, PartialEq, Eq)]
pub struct ActionProposed {
    pub proposal_id: String,
    pub proposer: Address,
    pub action_type: ActionType,
}

/// An admin approved a proposal.
#[derive(Clone, Debug, PartialEq, Eq)]
pub struct ActionApproved {
    pub proposal_id: String,
    pub approver: Address,
    pub approval_count: u32,
}

/// A proposal was executed.
#[derive(Clone, Debug, PartialEq, Eq)]
pub struct ActionExecuted {
    pub proposal_id: String,
}

/// A proposal was rejected.
#[derive(Clone, Debug, PartialEq, Eq)]
pub struct ActionRejected {
    pub proposal_id: String,
    pub rejected_by: Address,
}

/// An admin was added.
#[derive(Clone, Copy, Debug, PartialEq, Eq, Structural)]
pub struct AdminAdded {
    pub admin: Address,
}

/// An admin was removed.
#[derive(Clone, Copy, Debug, PartialEq, Eq, Structural)]
pub struct AdminRemoved {
    pub admin: Address,
}

/// The events the escrow contract publishes, in the order it publishes them.
#[derive(Clone, Debug, PartialEq, Eq)]
pub enum EscrowEvent {
    EscrowCreated(EscrowCreated),
    MultiPartyEscrowCreated(MultiPartyEscrowCreated),
    EscrowReleased(EscrowReleased),
    ParticipantApproved(ParticipantApproved),
    MultiPartyEscrowReleased(MultiPartyEscrowReleased),
    EscrowDisputed(EscrowDisputed),
    EscrowResolved(EscrowResolved),
    EvidenceSubmitted(EvidenceSubmitted),
    DisputeEscalated(DisputeEscalated),
    ReputationUpdated(ReputationUpdated),
    ReputationConfigUpdated(ReputationConfigUpdated),
    VestingScheduleCreated(VestingScheduleCreated),
    VestedAmountReleased(VestedAmountReleased),
    MilestoneReleased(MilestoneReleased),
    ActionProposed(ActionProposed),
    ActionApproved(ActionApproved),
    ActionExecuted(ActionExecuted),
    ActionRejected(ActionRejected),
    AdminAdded(AdminAdded),
    AdminRemoved(AdminRemoved),
}

} // verus!
