//! The changes that callers can ask for, as values, so that laws can speak of all
//! of them.
use vstd::prelude::*;
use crate::admin::{
    bind_effect, bind_refusal, emergency_effect, emergency_refusal, initialize_effect,
    initialize_refusal, pause_effect, pause_refusal, resolve_emergency_effect, unpause_effect,
    unpause_refusal,
};
use crate::approvals::{approve_effect, approve_refusal};
use crate::create_contract::{create_effect, create_refusal};
use crate::deposit::{deposit_effect, deposit_refusal};
use crate::dispute::{raise_effect, raise_refusal, resolve_effect, resolve_refusal};
use crate::env::State;
use crate::evidence::{evidence_effect, evidence_refusal};
use crate::fees::{withdraw_effect, withdraw_refusal};
use crate::finalize::{finalize_effect, finalize_refusal};
use crate::governance::{
    accept_admin_effect, accept_admin_refusal, cancel_proposal_effect, cancel_proposal_refusal,
    governance_refusal, propose_effect, set_fee_effect, set_fee_refusal,
};
use crate::migration::{
    accept_migration_effect, accept_migration_refusal, cancel_migration_effect,
    cancel_migration_refusal, propose_migration_effect, propose_migration_refusal,
};
use crate::refund::{cancel_effect, cancel_refusal, refund_effect, refund_refusal};
use crate::release::{batch_effect, batch_refusal, release_effect, release_refusal};
use crate::reputation::{rating_effect, rating_refusal};
use crate::types::{Address, DisputeResolution, Halt, ReleaseAuthorization};

verus! {

/// A call of one of the entrypoints that change something, with its arguments.
pub enum Operation {
    Initialize { admin: Address },
    BindSettlementToken { admin: Address, token: Address },
    SetProtocolFee { new_bps: u32 },
    ProposeAdmin { proposed: Address },
    AcceptAdmin,
    CancelAdminProposal,
    Pause,
    Unpause,
    ActivateEmergency,
    ResolveEmergency,
    WithdrawFees { amount: i128, to: Address },
    Create {
        client: Address,
        freelancer: Address,
        arbiter: Option<Address>,
        amounts: Seq<i128>,
        mode: ReleaseAuthorization,
    },
    Deposit { contract_id: u32, caller: Address, amount: i128 },
    Approve { contract_id: u32, caller: Address, milestone_index: u32 },
    Release { contract_id: u32, caller: Address, milestone_index: u32 },
    ReleaseBatch { contract_id: u32, caller: Address, milestone_indices: Vec<u32> },
    Refund { contract_id: u32, milestone_indices: Vec<u32> },
    Cancel { contract_id: u32, client: Address },
    RaiseDispute { contract_id: u32, caller: Address },
    ResolveDispute { contract_id: u32, caller: Address, resolution: DisputeResolution },
    Rate { contract_id: u32, caller: Address, rating: u32, comment: Vec<u8> },
    SubmitEvidence {
        contract_id: u32,
        caller: Address,
        milestone_index: u32,
        evidence: Vec<u8>,
    },
    Finalize { contract_id: u32, finalizer: Address },
    ProposeMigration { contract_id: u32, current_client: Address, new_client: Address },
    AcceptMigration { contract_id: u32, new_client: Address },
    CancelMigration { contract_id: u32, current_client: Address },
}

impl Operation {
    /// Why the call is refused in `s`.
    pub open spec fn refusal(self, s: State) -> Option<Halt> {
        match self {
            Operation::Initialize { admin } => initialize_refusal(s, admin),
            Operation::BindSettlementToken { admin, token } => bind_refusal(s, admin, token),
            Operation::SetProtocolFee { new_bps } => set_fee_refusal(s, new_bps),
            Operation::ProposeAdmin { proposed } => governance_refusal(s),
            Operation::AcceptAdmin => accept_admin_refusal(s),
            Operation::CancelAdminProposal => cancel_proposal_refusal(s),
            Operation::Pause => pause_refusal(s),
            Operation::Unpause => unpause_refusal(s),
            Operation::ActivateEmergency => emergency_refusal(s),
            Operation::ResolveEmergency => pause_refusal(s),
            Operation::WithdrawFees { amount, to } => withdraw_refusal(s, amount),
            Operation::Create { client, freelancer, arbiter, amounts, mode } => create_refusal(
                s,
                client,
                freelancer,
                arbiter,
                amounts,
                mode,
            ),
            Operation::Deposit { contract_id, caller, amount } => deposit_refusal(
                s,
                contract_id,
                caller,
                amount,
            ),
            Operation::Approve { contract_id, caller, milestone_index } => approve_refusal(
                s,
                contract_id,
                caller,
                milestone_index,
            ),
            Operation::Release { contract_id, caller, milestone_index } => release_refusal(
                s,
                contract_id,
                caller,
                milestone_index,
            ),
            Operation::ReleaseBatch { contract_id, caller, milestone_indices } => batch_refusal(
                s,
                contract_id,
                caller,
                milestone_indices@,
            ),
            Operation::Refund { contract_id, milestone_indices } => refund_refusal(
                s,
                contract_id,
                milestone_indices@,
            ),
            Operation::Cancel { contract_id, client } => cancel_refusal(s, contract_id, client),
            Operation::RaiseDispute { contract_id, caller } => raise_refusal(
                s,
                contract_id,
                caller,
            ),
            Operation::ResolveDispute { contract_id, caller, resolution } => resolve_refusal(
                s,
                contract_id,
                caller,
                resolution,
            ),
            Operation::Rate { contract_id, caller, rating, comment } => rating_refusal(
                s,
                contract_id,
                caller,
                rating,
                comment@,
            ),
            Operation::SubmitEvidence { contract_id, caller, milestone_index, evidence } =>
                evidence_refusal(s, contract_id, caller, milestone_index, evidence@),
            Operation::Finalize { contract_id, finalizer } => finalize_refusal(
                s,
                contract_id,
                finalizer,
            ),
            Operation::ProposeMigration { contract_id, current_client, new_client } =>
                propose_migration_refusal(s, contract_id, current_client, new_client),
            Operation::AcceptMigration { contract_id, new_client } => accept_migration_refusal(
                s,
                contract_id,
                new_client,
            ),
            Operation::CancelMigration { contract_id, current_client } =>
                cancel_migration_refusal(s, contract_id, current_client),
        }
    }

    /// What the call leaves behind in `s` if it is not refused.
    pub open spec fn effect(self, s: State) -> State {
        match self {
            Operation::Initialize { admin } => initialize_effect(s, admin),
            Operation::BindSettlementToken { admin, token } => bind_effect(s, admin, token),
            Operation::SetProtocolFee { new_bps } => set_fee_effect(s, new_bps),
            Operation::ProposeAdmin { proposed } => propose_effect(s, proposed),
            Operation::AcceptAdmin => accept_admin_effect(s),
            Operation::CancelAdminProposal => cancel_proposal_effect(s),
            Operation::Pause => pause_effect(s),
            Operation::Unpause => unpause_effect(s),
            Operation::ActivateEmergency => emergency_effect(s),
            Operation::ResolveEmergency => resolve_emergency_effect(s),
            Operation::WithdrawFees { amount, to } => withdraw_effect(s, amount, to),
            Operation::Create { client, freelancer, arbiter, amounts, mode } => create_effect(
                s,
                client,
                freelancer,
                arbiter,
                amounts,
                mode,
            ),
            Operation::Deposit { contract_id, caller, amount } => deposit_effect(
                s,
                contract_id,
                caller,
                amount,
            ),
            Operation::Approve { contract_id, caller, milestone_index } => approve_effect(
                s,
                contract_id,
                caller,
                milestone_index,
            ),
            Operation::Release { contract_id, caller, milestone_index } => release_effect(
                s,
                contract_id,
                caller,
                milestone_index,
            ),
            Operation::ReleaseBatch { contract_id, caller, milestone_indices } => batch_effect(
                s,
                contract_id,
                caller,
                milestone_indices,
            ),
            Operation::Refund { contract_id, milestone_indices } => refund_effect(
                s,
                contract_id,
                milestone_indices@,
            ),
            Operation::Cancel { contract_id, client } => cancel_effect(s, contract_id, client),
            Operation::RaiseDispute { contract_id, caller } => raise_effect(
                s,
                contract_id,
                caller,
            ),
            Operation::ResolveDispute { contract_id, caller, resolution } => resolve_effect(
                s,
                contract_id,
                resolution,
            ),
            Operation::Rate { contract_id, caller, rating, comment } => rating_effect(
                s,
                contract_id,
                caller,
                rating,
                comment,
            ),
            Operation::SubmitEvidence { contract_id, caller, milestone_index, evidence } =>
                evidence_effect(s, contract_id, milestone_index, evidence),
            Operation::Finalize { contract_id, finalizer } => finalize_effect(
                s,
                contract_id,
                finalizer,
            ),
            Operation::ProposeMigration { contract_id, current_client, new_client } =>
                propose_migration_effect(s, contract_id, current_client, new_client),
            Operation::AcceptMigration { contract_id, new_client } => accept_migration_effect(
                s,
                contract_id,
                new_client,
            ),
            Operation::CancelMigration { contract_id, current_client } =>
                cancel_migration_effect(s, contract_id, current_client),
        }
    }

    /// The agreement that the call is about. A new agreement is about none.
    pub open spec fn subject(self) -> Option<u32> {
        match self {
            Operation::Deposit { contract_id, .. } => Some(contract_id),
            Operation::Approve { contract_id, .. } => Some(contract_id),
            Operation::Release { contract_id, .. } => Some(contract_id),
            Operation::ReleaseBatch { contract_id, .. } => Some(contract_id),
            Operation::Refund { contract_id, .. } => Some(contract_id),
            Operation::Cancel { contract_id, .. } => Some(contract_id),
            Operation::RaiseDispute { contract_id, .. } => Some(contract_id),
            Operation::ResolveDispute { contract_id, .. } => Some(contract_id),
            Operation::Rate { contract_id, .. } => Some(contract_id),
            Operation::SubmitEvidence { contract_id, .. } => Some(contract_id),
            Operation::Finalize { contract_id, .. } => Some(contract_id),
            Operation::ProposeMigration { contract_id, .. } => Some(contract_id),
            Operation::AcceptMigration { contract_id, .. } => Some(contract_id),
            Operation::CancelMigration { contract_id, .. } => Some(contract_id),
            _ => None,
        }
    }

    /// The counters that the call may count up have room for it.
    pub open spec fn has_room(self, s: State) -> bool {
        match self {
            Operation::Release { contract_id, .. } => s.credit_room(contract_id),
            Operation::ReleaseBatch { contract_id, .. } => s.credit_room(contract_id),
            Operation::Refund { contract_id, .. } => s.credit_room(contract_id),
            Operation::ResolveDispute { contract_id, .. } => s.credit_room(contract_id),
            Operation::Rate { contract_id, .. } => s.contracts.contains_key(contract_id)
                ==> s.reputation_of(s.contracts[contract_id].freelancer).has_room(),
            _ => true,
        }
    }
}

/// `op` is accepted in `before` and leads to `after`.
pub open spec fn steps(before: State, op: Operation, after: State) -> bool {
    &&& before.wf()
    &&& op.has_room(before)
    &&& op.refusal(before) is None
    &&& after == op.effect(before)
}

} // verus!
