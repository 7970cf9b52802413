pub mod admin;
pub mod amount_validation;
pub mod approvals;
pub mod create_contract;
pub mod deposit;
pub mod dispute;
pub mod env;
pub mod escrow;
pub mod event;
pub mod evidence;
pub mod fees;
pub mod finalize;
pub mod governance;
pub mod laws;
pub mod migration;
pub mod operation;
pub mod reads;
pub mod refund;
pub mod release;
pub mod reputation;
pub mod ttl;
pub mod types;

pub use amount_validation::accumulate_amounts;
pub use amount_validation::{MAX_MILESTONES, MAX_SINGLE_AMOUNT_STROOPS, MAX_TOTAL_ESCROW_STROOPS};
pub use dispute::{final_status_after_resolution, resolution_payouts};
pub use env::{Config, Env, Invocation, State};
pub use escrow::Escrow;
pub use event::{Event, Transfer};
pub use ttl::{ADMIN_ROTATION_MIN_DELAY_LEDGERS, PENDING_MIGRATION_TTL_LEDGERS};
pub use types::{
    Address, Contract, ContractBounds, ContractStatus, ContractSummary, DepositMode,
    DisputeResolution, DisputeSplit, FinalizationRecord, GovernedParameters, Halt, Milestone,
    MilestoneApprovals, MilestoneSummary, PendingAdminProposal, PendingClientMigration,
    ReadinessChecklist, ReleaseAuthorization, Reputation, ReputationView, SplitAmounts,
    CONTRACT_SUMMARY_SCHEMA_VERSION,
};
pub use types::Error;
pub use types::Error as EscrowError;
