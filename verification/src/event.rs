//! What an accepted request leaves behind for the host: token transfers to carry
//! out and events to publish.
use vstd::prelude::*;
use crate::types::{Address, ContractStatus};

verus! {

/// A token movement that the host has to carry out for an accepted request.
#[derive(Clone, Copy, Debug, PartialEq, Eq)]
pub struct Transfer {
    pub token: Address,
    pub from: Address,
    pub to: Address,
    pub amount: i128,
}

/// What an accepted request publishes.
#[derive(Debug, PartialEq, Eq)]
pub enum Event {
    Initialized { admin: Address, timestamp: u64 },
    SettlementTokenBound { admin: Address, token: Address, timestamp: u64 },
    ContractCreated { contract_id: u32, client: Address, freelancer: Address, timestamp: u64 },
    MilestoneReleased {
        contract_id: u32,
        milestone_index: u32,
        amount: i128,
        fee: i128,
        new_released_amount: i128,
        caller: Address,
        timestamp: u64,
    },
    MilestonesReleased {
        contract_id: u32,
        milestone_indices: Vec<u32>,
        total_gross: i128,
        total_fee: i128,
        new_released_amount: i128,
        caller: Address,
        timestamp: u64,
    },
    ContractCompleted { contract_id: u32, caller: Address, timestamp: u64 },
    Refunded {
        contract_id: u32,
        total_refund_amount: i128,
        new_status: ContractStatus,
        timestamp: u64,
    },
    Cancelled {
        contract_id: u32,
        client: Address,
        previous_status: ContractStatus,
        timestamp: u64,
    },
    DisputeOpened { contract_id: u32, caller: Address },
    DisputeResolved { contract_id: u32, resolution_code: u32 },
    ReputationIssued {
        contract_id: u32,
        client: Address,
        freelancer: Address,
        rating: u32,
        completed_contracts: i128,
        total_rating: i128,
        last_rating: i128,
        caller: Address,
        timestamp: u64,
    },
    EvidenceSubmitted {
        contract_id: u32,
        milestone_index: u32,
        freelancer: Address,
        timestamp: u64,
    },
    FeesWithdrawn { admin: Address, to: Address, amount: i128, timestamp: u64 },
    Paused { admin: Address, timestamp: u64 },
    Unpaused { admin: Address, timestamp: u64 },
    EmergencyActivated { admin: Address, timestamp: u64 },
    EmergencyResolved { admin: Address, timestamp: u64 },
    Finalized { contract_id: u32, finalizer: Address, timestamp: u64 },
    ClientMigrationCancelled { contract_id: u32, current_client: Address, timestamp: u64 },
    ProtocolFeeSet { admin: Address, fee_bps: u32, timestamp: u64 },
    AdminProposed { admin: Address, proposed: Address, timestamp: u64 },
    AdminAccepted { previous: Address, admin: Address, timestamp: u64 },
    AdminProposalCancelled { admin: Address, timestamp: u64 },
}

impl Event {
    /// The first topic of the published event.
    pub open spec fn topic_spec(self) -> Seq<char> {
        match self {
            Event::Initialized { .. } => "init"@,
            Event::SettlementTokenBound { .. } => "settlement_token_bound"@,
            Event::ContractCreated { .. } => "created"@,
            Event::MilestoneReleased { .. } => "mlstn_rls"@,
            Event::MilestonesReleased { .. } => "b_rls"@,
            Event::ContractCompleted { .. } => "ctrct_cmp"@,
            Event::Refunded { .. } => "refunded"@,
            Event::Cancelled { .. } => "cancelled"@,
            Event::DisputeOpened { .. } => "dispute"@,
            Event::DisputeResolved { .. } => "dispute"@,
            Event::ReputationIssued { .. } => "rep_iss"@,
            Event::EvidenceSubmitted { .. } => "evidence"@,
            Event::FeesWithdrawn { .. } => "fee"@,
            Event::Paused { .. } => "pause"@,
            Event::Unpaused { .. } => "unpaused"@,
            Event::EmergencyActivated { .. } => "emergency"@,
            Event::EmergencyResolved { .. } => "emergency"@,
            Event::Finalized { .. } => "finalized"@,
            Event::ClientMigrationCancelled { .. } => "client_migration_cancelled"@,
            Event::ProtocolFeeSet { .. } => "protocol_fee_bps"@,
            Event::AdminProposed { .. } => "admin"@,
            Event::AdminAccepted { .. } => "admin"@,
            Event::AdminProposalCancelled { .. } => "admin"@,
        }
    }

    /// The second topic, for the events that carry a name there.
    pub open spec fn subtopic_spec(self) -> Option<Seq<char>> {
        match self {
            Event::Initialized { .. } => Some("admin_set"@),
            Event::DisputeOpened { .. } => Some("opened"@),
            Event::DisputeResolved { .. } => Some("resolved"@),
            Event::FeesWithdrawn { .. } => Some("withdraw"@),
            Event::EmergencyActivated { .. } => Some("activated"@),
            Event::EmergencyResolved { .. } => Some("resolved"@),
            Event::AdminProposed { .. } => Some("proposed"@),
            Event::AdminAccepted { .. } => Some("accepted"@),
            Event::AdminProposalCancelled { .. } => Some("cancelled"@),
            _ => None,
        }
    }

    /// The first topic of the published event.
    pub fn topic(&self) -> (topic: &'static str)
        ensures
            topic@ == self.topic_spec(),
    {
        match self {
            Event::Initialized { .. } => "init",
            Event::SettlementTokenBound { .. } => "settlement_token_bound",
            Event::ContractCreated { .. } => "created",
            Event::MilestoneReleased { .. } => "mlstn_rls",
            Event::MilestonesReleased { .. } => "b_rls",
            Event::ContractCompleted { .. } => "ctrct_cmp",
            Event::Refunded { .. } => "refunded",
            Event::Cancelled { .. } => "cancelled",
            Event::DisputeOpened { .. } => "dispute",
            Event::DisputeResolved { .. } => "dispute",
            Event::ReputationIssued { .. } => "rep_iss",
            Event::EvidenceSubmitted { .. } => "evidence",
            Event::FeesWithdrawn { .. } => "fee",
            Event::Paused { .. } => "pause",
            Event::Unpaused { .. } => "unpaused",
            Event::EmergencyActivated { .. } => "emergency",
            Event::EmergencyResolved { .. } => "emergency",
            Event::Finalized { .. } => "finalized",
            Event::ClientMigrationCancelled { .. } => "client_migration_cancelled",
            Event::ProtocolFeeSet { .. } => "protocol_fee_bps",
            Event::AdminProposed { .. } => "admin",
            Event::AdminAccepted { .. } => "admin",
            Event::AdminProposalCancelled { .. } => "admin",
        }
    }

    /// The second topic, for the events that carry a name there.
    pub fn subtopic(&self) -> (subtopic: Option<&'static str>)
        ensures
            match subtopic {
                Some(name) => self.subtopic_spec() == Some(name@),
                None => self.subtopic_spec() is None,
            },
    {
        match self {
            Event::Initialized { .. } => Some("admin_set"),
            Event::DisputeOpened { .. } => Some("opened"),
            Event::DisputeResolved { .. } => Some("resolved"),
            Event::FeesWithdrawn { .. } => Some("withdraw"),
            Event::EmergencyActivated { .. } => Some("activated"),
            Event::EmergencyResolved { .. } => Some("resolved"),
            Event::AdminProposed { .. } => Some("proposed"),
            Event::AdminAccepted { .. } => Some("accepted"),
            Event::AdminProposalCancelled { .. } => Some("cancelled"),
            _ => None,
        }
    }
}

} // verus!
