//! The records of the escrow: participants, agreements, milestones, reputation,
//! disputes, and what an entrypoint answers with.
use vstd::prelude::*;

verus! {

/// Layout version carried by every [`ContractSummary`].
pub const CONTRACT_SUMMARY_SCHEMA_VERSION: u32 = 1;

/// A participant, a token or the escrow itself.
///
/// The escrow only ever compares addresses, so an address is the number under
/// which the host knows it. Two addresses are the same exactly when their
/// numbers are.
#[derive(Clone, Copy, Debug, PartialEq, Eq, Structural)]
pub struct Address {
    pub id: u64,
}

/// Every way in which the escrow itself refuses a request.
#[derive(Clone, Copy, Debug, PartialEq, Eq, Structural)]
pub enum Error {
    InvalidParticipant,
    EmptyMilestones,
    InvalidMilestoneAmount,
    InvalidDepositAmount,
    /// The milestone index of a single release is out of bounds.
    InvalidMilestone,
    ContractNotFound,
    EmptyRefundRequest,
    DuplicateMilestoneInRefund,
    AlreadyReleased,
    AlreadyRefunded,
    InsufficientFunds,
    AlreadyInitialized,
    InsufficientAccumulatedFees,
    /// `initialize` has not been called.
    NotInitialized,
    UnauthorizedRole,
    ContractPaused,
    EmergencyActive,
    InvalidState,
    InvalidRating,
    SelfRating,
    ReputationAlreadyIssued,
    NotCompleted,
    FreelancerMismatch,
    InvalidStatusTransition,
    ArbiterRequired,
    InvalidDisputeSplit,
    AccountingInvariantViolated,
    PotentialOverflow,
    AlreadyFinalized,
    AmountMustBePositive,
    /// No settlement token has been bound for custody transfers.
    SettlementTokenNotConfigured,
    /// A settlement token has already been bound.
    SettlementTokenAlreadyBound,
    /// The sum of milestone amounts exceeds the configured maximum.
    TotalCapExceeded,
    /// Too many milestones were provided.
    TooManyMilestones,
    /// An arbiter is required by the release authorization mode but not provided.
    MissingArbiter,
    /// The provided arbiter is also the client or the freelancer.
    InvalidArbiter,
    /// The contract is cancelled and accepts no further value-moving operation.
    ContractCancelled,
    /// The contract has been refunded and is terminal.
    ContractRefunded,
    /// The address supplied as settlement token does not answer as a token.
    InvalidSettlementToken,
    /// The address supplied as settlement token is the escrow itself.
    SettlementTokenIsSelf,
    /// The address supplied as settlement token is the escrow admin.
    SettlementTokenIsAdmin,
    /// The reputation comment is empty.
    EmptyComment,
    /// The reputation comment is longer than 200 bytes.
    CommentTooLong,
    /// The release request names no milestone.
    EmptyReleaseIndices,
    /// The release request names a milestone twice.
    DuplicateMilestoneInRelease,
    /// A milestone of a batch release has been released before.
    MilestoneAlreadyReleased,
    /// A governance admin rotation was accepted before its delay elapsed.
    TimelockNotElapsed,
    /// The milestone index is out of bounds.
    IndexOutOfBounds,
    /// The same party approved this milestone before.
    AlreadyApproved,
    /// The approvals that the release mode asks for are missing or expired.
    InsufficientApprovals,
    /// The next contract id is already taken.
    ContractIdCollision,
    /// The contract ids are used up.
    ContractIdOverflow,
    /// The work evidence is longer than 256 bytes.
    EvidenceTooLong,
    /// A governance parameter is out of its range.
    InvalidProtocolParameters,
    /// The milestone has a deadline that has not passed.
    MilestoneNotOverdue,
}

impl Error {
    /// The number under which callers of the escrow see this error.
    pub open spec fn code_spec(self) -> u32 {
        match self {
            Error::InvalidParticipant => 1,
            Error::EmptyMilestones => 2,
            Error::InvalidMilestoneAmount => 3,
            Error::InvalidDepositAmount => 4,
            Error::InvalidMilestone => 5,
            Error::ContractNotFound => 6,
            Error::EmptyRefundRequest => 7,
            Error::DuplicateMilestoneInRefund => 8,
            Error::AlreadyReleased => 9,
            Error::AlreadyRefunded => 10,
            Error::InsufficientFunds => 11,
            Error::AlreadyInitialized => 12,
            Error::InsufficientAccumulatedFees => 13,
            Error::NotInitialized => 14,
            Error::UnauthorizedRole => 15,
            Error::ContractPaused => 16,
            Error::EmergencyActive => 17,
            Error::InvalidState => 18,
            Error::InvalidRating => 19,
            Error::SelfRating => 20,
            Error::ReputationAlreadyIssued => 21,
            Error::NotCompleted => 22,
            Error::FreelancerMismatch => 23,
            Error::InvalidStatusTransition => 24,
            Error::ArbiterRequired => 25,
            Error::InvalidDisputeSplit => 26,
            Error::AccountingInvariantViolated => 27,
            Error::PotentialOverflow => 28,
            Error::AlreadyFinalized => 29,
            Error::AmountMustBePositive => 30,
            Error::SettlementTokenNotConfigured => 31,
            Error::SettlementTokenAlreadyBound => 32,
            Error::TotalCapExceeded => 33,
            Error::TooManyMilestones => 34,
            Error::MissingArbiter => 35,
            Error::InvalidArbiter => 36,
            Error::ContractCancelled => 37,
            Error::ContractRefunded => 38,
            Error::InvalidSettlementToken => 39,
            Error::SettlementTokenIsSelf => 40,
            Error::SettlementTokenIsAdmin => 41,
            Error::EmptyComment => 42,
            Error::CommentTooLong => 43,
            Error::EmptyReleaseIndices => 44,
            Error::DuplicateMilestoneInRelease => 45,
            Error::MilestoneAlreadyReleased => 46,
            Error::TimelockNotElapsed => 48,
            Error::IndexOutOfBounds => 49,
            Error::AlreadyApproved => 50,
            Error::InsufficientApprovals => 51,
            Error::ContractIdCollision => 52,
            Error::ContractIdOverflow => 53,
            Error::EvidenceTooLong => 54,
            Error::InvalidProtocolParameters => 55,
            Error::MilestoneNotOverdue => 56,
        }
    }

    /// The number under which callers of the escrow see this error.
    pub fn code(&self) -> (code: u32)
        ensures
            code == self.code_spec(),
    {
        match self {
            Error::InvalidParticipant => 1,
            Error::EmptyMilestones => 2,
            Error::InvalidMilestoneAmount => 3,
            Error::InvalidDepositAmount => 4,
            Error::InvalidMilestone => 5,
            Error::ContractNotFound => 6,
            Error::EmptyRefundRequest => 7,
            Error::DuplicateMilestoneInRefund => 8,
            Error::AlreadyReleased => 9,
            Error::AlreadyRefunded => 10,
            Error::InsufficientFunds => 11,
            Error::AlreadyInitialized => 12,
            Error::InsufficientAccumulatedFees => 13,
            Error::NotInitialized => 14,
            Error::UnauthorizedRole => 15,
            Error::ContractPaused => 16,
            Error::EmergencyActive => 17,
            Error::InvalidState => 18,
            Error::InvalidRating => 19,
            Error::SelfRating => 20,
            Error::ReputationAlreadyIssued => 21,
            Error::NotCompleted => 22,
            Error::FreelancerMismatch => 23,
            Error::InvalidStatusTransition => 24,
            Error::ArbiterRequired => 25,
            Error::InvalidDisputeSplit => 26,
            Error::AccountingInvariantViolated => 27,
            Error::PotentialOverflow => 28,
            Error::AlreadyFinalized => 29,
            Error::AmountMustBePositive => 30,
            Error::SettlementTokenNotConfigured => 31,
            Error::SettlementTokenAlreadyBound => 32,
            Error::TotalCapExceeded => 33,
            Error::TooManyMilestones => 34,
            Error::MissingArbiter => 35,
            Error::InvalidArbiter => 36,
            Error::ContractCancelled => 37,
            Error::ContractRefunded => 38,
            Error::InvalidSettlementToken => 39,
            Error::SettlementTokenIsSelf => 40,
            Error::SettlementTokenIsAdmin => 41,
            Error::EmptyComment => 42,
            Error::CommentTooLong => 43,
            Error::EmptyReleaseIndices => 44,
            Error::DuplicateMilestoneInRelease => 45,
            Error::MilestoneAlreadyReleased => 46,
            Error::TimelockNotElapsed => 48,
            Error::IndexOutOfBounds => 49,
            Error::AlreadyApproved => 50,
            Error::InsufficientApprovals => 51,
            Error::ContractIdCollision => 52,
            Error::ContractIdOverflow => 53,
            Error::EvidenceTooLong => 54,
            Error::InvalidProtocolParameters => 55,
            Error::MilestoneNotOverdue => 56,
        }
    }
}

/// Why an entrypoint stopped before it changed anything.
#[derive(Clone, Copy, Debug, PartialEq, Eq, Structural)]
pub enum Halt {
    /// The escrow refuses the request.
    Failed(Error),
    /// The host has to confirm that this address authorized the call before the
    /// entrypoint can go on.
    AuthRequired(Address),
    /// The host has to ask this address for a token balance before the
    /// entrypoint can go on.
    ProbeRequired(Address),
}

/// Where an agreement stands in its life.
#[derive(Clone, Copy, Debug, PartialEq, Eq, Structural)]
pub enum ContractStatus {
    Created,
    Accepted,
    Funded,
    Completed,
    Disputed,
    Cancelled,
    Refunded,
    PartiallyFunded,
}

/// Who approves milestone releases.
#[derive(Clone, Copy, Debug, PartialEq, Eq, Structural)]
pub enum ReleaseAuthorization {
    /// The client alone.
    ClientOnly,
    /// The client or the arbiter; one of them is enough.
    ClientAndArbiter,
    /// The arbiter alone.
    ArbiterOnly,
    /// The client and the freelancer, both.
    MultiSig,
}

/// How a contract is meant to be funded.
#[derive(Clone, Copy, Debug, PartialEq, Eq, Structural)]
pub enum DepositMode {
    ExactTotal,
    Incremental,
}

/// One agreement between a client and a freelancer.
#[derive(Clone, Copy, Debug, PartialEq, Eq)]
pub struct Contract {
    pub client: Address,
    pub freelancer: Address,
    pub arbiter: Option<Address>,
    pub status: ContractStatus,
    pub total_deposited: i128,
    pub funded_amount: i128,
    /// What was paid out to the freelancer, net of protocol fees.
    pub released_amount: i128,
    pub refunded_amount: i128,
    pub release_authorization: ReleaseAuthorization,
    pub reputation_issued: bool,
}

impl Contract {
    /// What is neither released nor refunded yet.
    pub open spec fn available(self) -> int {
        self.funded_amount - self.released_amount - self.refunded_amount
    }

    /// The books of one agreement: nothing is negative, all that came in is on
    /// record, and no more went out than came in.
    pub open spec fn balanced(self) -> bool {
        &&& self.funded_amount >= 0
        &&& self.total_deposited == self.funded_amount
        &&& self.released_amount >= 0
        &&& self.refunded_amount >= 0
        &&& self.available() >= 0
    }

    /// `caller` is one whom the mode of the agreement lets approve and release.
    pub open spec fn may_release(self, caller: Address) -> bool {
        match self.release_authorization {
            ReleaseAuthorization::ClientOnly => caller == self.client,
            ReleaseAuthorization::ArbiterOnly => self.arbiter == Some(caller),
            ReleaseAuthorization::ClientAndArbiter => caller == self.client || self.arbiter
                == Some(caller),
            ReleaseAuthorization::MultiSig => caller == self.client || caller == self.freelancer,
        }
    }

    pub(crate) fn compute_available(&self) -> (amount: i128)
        requires
            self.balanced(),
        ensures
            amount == self.available(),
    {
        self.funded_amount - self.released_amount - self.refunded_amount
    }

    pub(crate) fn check_may_release(&self, caller: Address) -> (ok: bool)
        ensures
            ok == self.may_release(caller),
    {
        let is_client = caller == self.client;
        let is_freelancer = caller == self.freelancer;
        let is_arbiter = self.arbiter == Some(caller);
        match self.release_authorization {
            ReleaseAuthorization::ClientOnly => is_client,
            ReleaseAuthorization::ArbiterOnly => is_arbiter,
            ReleaseAuthorization::ClientAndArbiter => is_client || is_arbiter,
            ReleaseAuthorization::MultiSig => is_client || is_freelancer,
        }
    }
}

/// One deliverable of an agreement.
#[derive(Debug, PartialEq, Eq)]
pub struct Milestone {
    pub amount: i128,
    pub funded_amount: i128,
    pub released: bool,
    pub refunded: bool,
    /// Deliverable reference, as the bytes that the freelancer submitted.
    pub work_evidence: Option<Vec<u8>>,
    pub refunded_amount: i128,
    /// Unix time in seconds after which the client may reclaim this milestone
    /// without an arbiter. `None` means that it never expires.
    pub deadline: Option<u64>,
}

impl Milestone {
    /// Released or refunded: nothing more happens to it.
    pub open spec fn settled(self) -> bool {
        self.released || self.refunded
    }

    /// This milestone after its release.
    pub open spec fn after_release(self) -> Milestone {
        Milestone { released: true, funded_amount: self.amount, ..self }
    }

    /// This milestone after its refund.
    pub open spec fn after_refund(self) -> Milestone {
        Milestone { refunded: true, refunded_amount: self.amount, ..self }
    }

    /// Overdue at `now`: it has a deadline, `now` is past it, and it is unreleased.
    pub open spec fn overdue_at(self, now: u64) -> bool {
        &&& !self.released
        &&& self.deadline matches Some(deadline)
        &&& now > deadline
    }

    pub(crate) fn check_overdue(&self, now: u64) -> (overdue: bool)
        ensures
            overdue == self.overdue_at(now),
    {
        if self.released {
            return false;
        }
        match self.deadline {
            None => false,
            Some(deadline) => now > deadline,
        }
    }
}

/// Who approved the release of a milestone.
#[derive(Clone, Copy, Debug, PartialEq, Eq)]
pub struct MilestoneApprovals {
    pub client_approved: bool,
    pub freelancer_approved: bool,
    pub arbiter_approved: bool,
}

/// The steps that make a deployment ready for production.
#[derive(Clone, Copy, Debug, PartialEq, Eq)]
pub struct ReadinessChecklist {
    /// `initialize` has been called.
    pub initialized: bool,
    /// The protocol governance parameters have been set.
    pub governed_params_set: bool,
    /// An emergency control has been exercised.
    pub emergency_controls_enabled: bool,
}

impl Default for ReadinessChecklist {
    fn default() -> (checklist: Self)
        ensures
            !checklist.initialized,
            !checklist.governed_params_set,
            !checklist.emergency_controls_enabled,
    {
        ReadinessChecklist {
            initialized: false,
            governed_params_set: false,
            emergency_controls_enabled: false,
        }
    }
}

/// Parameters that governance sets for the whole protocol.
#[derive(Clone, Copy, Debug, PartialEq, Eq)]
pub struct GovernedParameters {
    pub protocol_fee_bps: u32,
    pub max_escrow_total_stroops: i128,
}

/// A governance admin rotation that waits for its delay.
#[derive(Clone, Copy, Debug, PartialEq, Eq)]
pub struct PendingAdminProposal {
    pub proposed: Address,
    pub proposed_at_ledger: u32,
}

/// A change of client that waits for the new client.
#[derive(Clone, Copy, Debug, PartialEq, Eq)]
pub struct PendingClientMigration {
    pub current_client: Address,
    pub proposed_client: Address,
}

/// Close metadata of a finalized agreement.
#[derive(Clone, Copy, Debug, PartialEq, Eq)]
pub struct FinalizationRecord {
    pub finalizer: Address,
    pub status: ContractStatus,
    pub finalized_at: u64,
}

/// What a freelancer has earned in ratings.
#[derive(Clone, Copy, Debug, PartialEq, Eq)]
pub struct Reputation {
    pub completed_contracts: i128,
    pub total_rating: i128,
    pub last_rating: i128,
}

impl Reputation {
    /// The record of a freelancer that nobody has rated.
    pub open spec fn none() -> Reputation {
        Reputation { completed_contracts: 0, total_rating: 0, last_rating: 0 }
    }

    /// Each rated contract counts between one and five.
    pub open spec fn consistent(self) -> bool {
        &&& 0 <= self.completed_contracts
        &&& self.completed_contracts <= self.total_rating
        &&& self.total_rating <= 5 * self.completed_contracts
        &&& 0 <= self.last_rating <= 5
    }

    /// This record after one more rating.
    pub open spec fn after_rating(self, rating: u32) -> Reputation {
        Reputation {
            completed_contracts: (self.completed_contracts + 1) as i128,
            total_rating: (self.total_rating + rating) as i128,
            last_rating: rating as i128,
        }
    }

    /// The record can take one more rating within its integers.
    pub open spec fn has_room(self) -> bool {
        self.completed_contracts < i128::MAX && self.total_rating <= i128::MAX - 5
    }
}

impl Default for Reputation {
    fn default() -> (reputation: Self)
        ensures
            reputation == Reputation::none(),
    {
        Reputation { completed_contracts: 0, total_rating: 0, last_rating: 0 }
    }
}

/// Everything about a freelancer's reputation in one record.
#[derive(Clone, Copy, Debug, PartialEq, Eq)]
pub struct ReputationView {
    pub completed_contracts: i128,
    pub total_rating: i128,
    pub last_rating: i128,
    /// Average rating in basis points; 0 when nothing has been rated.
    pub average_rating_bps: i128,
    /// Completed contracts that await a rating.
    pub pending_credits: i128,
}

impl Default for ReputationView {
    fn default() -> (reputation: Self)
        ensures
            reputation.completed_contracts == 0,
            reputation.total_rating == 0,
            reputation.last_rating == 0,
            reputation.average_rating_bps == 0,
            reputation.pending_credits == 0,
    {
        ReputationView {
            completed_contracts: 0,
            total_rating: 0,
            last_rating: 0,
            average_rating_bps: 0,
            pending_credits: 0,
        }
    }
}

/// A custom division of what is left in dispute.
#[derive(Clone, Copy, Debug, PartialEq, Eq, Structural)]
pub struct DisputeSplit {
    pub client_amount: i128,
    pub freelancer_amount: i128,
}

pub type SplitAmounts = DisputeSplit;

/// An arbiter's decision.
#[derive(Clone, Copy, Debug, PartialEq, Eq, Structural)]
pub enum DisputeResolution {
    FullRefund,
    PartialRefund,
    FullPayout,
    Split(DisputeSplit),
}

impl DisputeResolution {
    /// The number under which the decision is published.
    pub open spec fn code_spec(self) -> u32 {
        match self {
            DisputeResolution::FullRefund => 0,
            DisputeResolution::PartialRefund => 1,
            DisputeResolution::FullPayout => 2,
            DisputeResolution::Split(_) => 3,
        }
    }

    /// The number under which the decision is published.
    pub fn code(&self) -> (code: u32)
        ensures
            code == self.code_spec(),
    {
        match self {
            DisputeResolution::FullRefund => 0,
            DisputeResolution::PartialRefund => 1,
            DisputeResolution::FullPayout => 2,
            DisputeResolution::Split(_) => 3,
        }
    }
}

/// One milestone of a [`ContractSummary`].
#[derive(Clone, Copy, Debug, PartialEq, Eq)]
pub struct MilestoneSummary {
    pub index: u32,
    pub amount: i128,
    pub released: bool,
    pub refunded: bool,
}

/// An agreement and its milestones, for readers outside the escrow.
#[derive(Debug, PartialEq, Eq)]
pub struct ContractSummary {
    pub schema_version: u32,
    pub client: Address,
    pub freelancer: Address,
    pub arbiter: Option<Address>,
    pub status: ContractStatus,
    pub reputation_issued: bool,
    pub total_amount: i128,
    pub funded_amount: i128,
    pub released_amount: i128,
    pub refundable_balance: i128,
    pub released_milestone_count: u32,
    pub milestones: Vec<MilestoneSummary>,
}

/// The limits that hold for every agreement.
#[derive(Clone, Copy, Debug, PartialEq, Eq)]
pub struct ContractBounds {
    /// Maximum number of milestones per contract.
    pub max_milestones: u32,
    /// Maximum amount of a single milestone, in stroops.
    pub max_single_milestone_stroops: i128,
    /// Maximum sum of all milestone amounts, in stroops.
    pub max_total_escrow_stroops: i128,
    /// Protocol fee ceiling in basis points (10 000 is 100 %).
    pub max_fee_bps: u32,
}

} // verus!
