//! What holds of the settings: who can change them, what is written once, how a
//! pause and an emergency end, and how a new admin takes over.
use vstd::prelude::*;
use crate::admin::{
    emergency_effect, emergency_refusal, pause_effect, pause_refusal, resolve_emergency_effect,
    unpause_effect, unpause_refusal, MAX_FEE_BPS,
};
use crate::env::{fail, State};
use crate::governance::{
    accept_admin_effect, accept_admin_refusal, cancel_proposal_effect, propose_effect,
};
use crate::operation::{steps, Operation};
use crate::ttl::ADMIN_ROTATION_MIN_DELAY_LEDGERS;
use crate::types::{Address, Error};

verus! {

/// Who has to authorize a call, if there is anybody who can.
pub open spec fn signer(s: State, op: Operation) -> Option<Address> {
    match op {
        Operation::Initialize { admin } => Some(admin),
        Operation::BindSettlementToken { admin, .. } => Some(admin),
        Operation::AcceptAdmin => match s.config.pending_admin {
            Some(proposal) => Some(proposal.proposed),
            None => None,
        },
        Operation::ActivateEmergency => s.config.admin,
        Operation::SetProtocolFee { .. } => s.config.admin,
        Operation::ProposeAdmin { .. } => s.config.admin,
        Operation::CancelAdminProposal => s.config.admin,
        Operation::Pause => s.config.admin,
        Operation::Unpause => s.config.admin,
        Operation::ResolveEmergency => s.config.admin,
        Operation::WithdrawFees { .. } => s.config.admin,
        Operation::Create { client, .. } => Some(client),
        Operation::Deposit { caller, .. } => Some(caller),
        Operation::Approve { caller, .. } => Some(caller),
        Operation::Release { caller, .. } => Some(caller),
        Operation::ReleaseBatch { caller, .. } => Some(caller),
        Operation::Refund { contract_id, .. } => Some(s.contracts[contract_id].client),
        Operation::Cancel { client, .. } => Some(client),
        Operation::RaiseDispute { caller, .. } => Some(caller),
        Operation::ResolveDispute { caller, .. } => Some(caller),
        Operation::Rate { caller, .. } => Some(caller),
        Operation::SubmitEvidence { caller, .. } => Some(caller),
        Operation::Finalize { finalizer, .. } => Some(finalizer),
        Operation::ProposeMigration { current_client, .. } => Some(current_client),
        Operation::AcceptMigration { new_client, .. } => Some(new_client),
        Operation::CancelMigration { current_client, .. } => Some(current_client),
    }
}

/// Nothing changes without the authorization of the one whom the call is up to.
pub proof fn law_changes_are_authorized(before: State, op: Operation, after: State)
    requires
        steps(before, op, after),
    ensures
        signer(before, op) matches Some(address) && before.authorized.contains(address),
{
}

/// Whether `address` has the part in the agreement that the call asks for.
pub open spec fn plays_part(s: State, op: Operation) -> bool {
    match op {
        Operation::Deposit { contract_id, caller, .. } => caller
            == s.contracts[contract_id].client,
        Operation::Approve { contract_id, caller, .. } => s.contracts[contract_id].may_release(
            caller,
        ),
        Operation::Release { contract_id, caller, .. } => s.contracts[contract_id].may_release(
            caller,
        ),
        Operation::ReleaseBatch { contract_id, caller, .. } =>
            s.contracts[contract_id].may_release(caller),
        Operation::Cancel { contract_id, client } => client == s.contracts[contract_id].client,
        Operation::RaiseDispute { contract_id, caller } => caller
            == s.contracts[contract_id].client || caller == s.contracts[contract_id].freelancer,
        Operation::ResolveDispute { contract_id, caller, .. } =>
            s.contracts[contract_id].arbiter == Some(caller),
        Operation::Rate { contract_id, caller, .. } => caller == s.contracts[contract_id].client
            && caller != s.contracts[contract_id].freelancer,
        Operation::SubmitEvidence { contract_id, caller, .. } => caller
            == s.contracts[contract_id].freelancer,
        Operation::ProposeMigration { contract_id, current_client, .. } => current_client
            == s.contracts[contract_id].client,
        Operation::AcceptMigration { contract_id, new_client } =>
            s.migrations[contract_id].proposed_client == new_client,
        Operation::CancelMigration { contract_id, current_client } => current_client
            == s.contracts[contract_id].client,
        Operation::BindSettlementToken { admin, .. } => s.config.admin == Some(admin),
        _ => true,
    }
}

/// A change that is up to one party is made by that party.
pub proof fn law_changes_are_made_by_their_parties(before: State, op: Operation, after: State)
    requires
        steps(before, op, after),
    ensures
        plays_part(before, op),
{
}

/// The escrow stays initialized, its token stays bound, and only an initialization
/// or the acceptance of a proposed admin changes the admin.
pub proof fn law_settings_are_written_once(before: State, op: Operation, after: State)
    requires
        steps(before, op, after),
    ensures
        before.config.initialized ==> after.config.initialized && !(op is Initialize),
        before.config.settlement_token is Some ==> after.config.settlement_token
            == before.config.settlement_token && !(op is BindSettlementToken),
        after.config.admin != before.config.admin ==> op is Initialize || op is AcceptAdmin,
        after.config.protocol_fee_bps != before.config.protocol_fee_bps ==> op is SetProtocolFee,
        after.config.paused != before.config.paused ==> op is Pause || op is Unpause || op
            is ActivateEmergency || op is ResolveEmergency,
        after.config.emergency != before.config.emergency ==> op is ActivateEmergency || op
            is ResolveEmergency,
        after.call == before.call,
        after.authorized == before.authorized,
{
}

/// The fee rate never goes above its ceiling.
pub proof fn law_fee_rate_stays_within_its_ceiling(before: State, op: Operation, after: State)
    requires
        steps(before, op, after),
        before.config.protocol_fee_bps <= MAX_FEE_BPS,
    ensures
        after.config.protocol_fee_bps <= MAX_FEE_BPS,
{
}

/// The steps of the readiness checklist are ticked by the calls that they name, and
/// none is ever unticked.
pub proof fn law_readiness_steps_are_ticked_for_good(before: State, op: Operation, after: State)
    requires
        steps(before, op, after),
    ensures
        after.config.checklist.initialized == (before.config.checklist.initialized || op
            is Initialize),
        after.config.checklist.governed_params_set == (before.config.checklist.governed_params_set
            || op is SetProtocolFee),
        after.config.checklist.emergency_controls_enabled == (
        before.config.checklist.emergency_controls_enabled || op is ActivateEmergency || op
            is ResolveEmergency),
{
}

/// A token that is bound is neither the escrow nor the admin, and answered as a
/// token.
pub proof fn law_bound_token_is_valid(before: State, op: Operation, after: State)
    requires
        steps(before, op, after),
        before.config.settlement_token is None,
        after.config.settlement_token is Some,
    ensures
        after.config.settlement_token != Some(after.call.contract_address),
        after.config.settlement_token != after.config.admin,
        before.token_probes.contains_key(after.config.settlement_token->0.id),
        before.token_probes[after.config.settlement_token->0.id],
{
}

/// The admin can end a pause, and that undoes it.
pub proof fn law_unpause_undoes_pause(s: State)
    requires
        s.wf(),
        pause_refusal(s) is None,
        !s.config.paused,
    ensures
        unpause_refusal(pause_effect(s)) is None,
        unpause_effect(pause_effect(s)).config == s.config,
{
}

/// During an emergency the escrow is paused, and an unpause is refused; only the
/// end of the emergency ends both.
pub proof fn law_emergency_blocks_unpause(s: State)
    requires
        s.wf(),
        s.config.initialized,
        emergency_refusal(s) is None,
    ensures
        emergency_effect(s).config.paused,
        emergency_effect(s).freeze() == fail(Error::EmergencyActive),
        unpause_refusal(emergency_effect(s)) == fail(Error::EmergencyActive),
        pause_refusal(emergency_effect(s)) is None,
        resolve_emergency_effect(emergency_effect(s)).freeze() is None,
        resolve_emergency_effect(emergency_effect(s)).config.checklist.emergency_controls_enabled,
{
}

/// An emergency is a pause at all times.
pub proof fn law_emergency_is_a_pause(s: State)
    requires
        s.wf(),
        s.config.emergency,
    ensures
        s.config.paused,
        s.freeze() == fail(Error::EmergencyActive),
{
}

/// A proposed admin can take over once the delay has passed, and not one ledger
/// before. `later` is a state with the settings that the proposal left, in another
/// invocation that the proposed admin authorized.
pub proof fn law_admin_rotation_waits(s: State, proposed: Address, later: State)
    requires
        s.wf(),
        s.config.initialized,
        later.config == propose_effect(s, proposed).config,
        later.authorized.contains(proposed),
    ensures
        later.call.sequence < s.call.sequence + ADMIN_ROTATION_MIN_DELAY_LEDGERS
            ==> accept_admin_refusal(later) == fail(Error::TimelockNotElapsed),
        later.call.sequence >= s.call.sequence + ADMIN_ROTATION_MIN_DELAY_LEDGERS
            ==> accept_admin_refusal(later) is None,
        accept_admin_effect(later).config.admin == Some(proposed),
        accept_admin_effect(later).config.pending_admin is None,
{
}

/// A proposal that is withdrawn or accepted cannot be accepted again.
pub proof fn law_admin_proposal_is_used_up(s: State)
    requires
        s.wf(),
        s.config.initialized,
    ensures
        accept_admin_refusal(cancel_proposal_effect(s)) == fail(Error::InvalidState),
        accept_admin_refusal(accept_admin_effect(s)) == fail(Error::InvalidState),
{
}

/// The ids of agreements are the numbers from one up to the next id, and there is
/// no agreement before the initialization.
pub open spec fn ids_allocated(s: State) -> bool {
    &&& !s.config.initialized ==> forall|id: u32| !s.contracts.contains_key(id)
    &&& s.config.initialized ==> forall|id: u32| #[trigger]
        s.contracts.contains_key(id) <==> 1 <= id < s.config.next_contract_id
}

/// Every change keeps the ids gapless. A new agreement gets the next id, which then
/// grows by one; nothing else makes an agreement.
pub proof fn law_ids_are_allocated_in_order(before: State, op: Operation, after: State)
    requires
        steps(before, op, after),
        ids_allocated(before),
    ensures
        ids_allocated(after),
        op is Create ==> {
            &&& !before.contracts.contains_key(before.config.next_contract_id)
            &&& after.contracts.contains_key(before.config.next_contract_id)
            &&& after.config.next_contract_id == before.config.next_contract_id + 1
        },
        !(op is Create) && before.config.initialized ==> after.config.next_contract_id
            == before.config.next_contract_id,
{
    assert forall|id: u32| after.contracts.contains_key(id) implies op is Create && id
        == before.config.next_contract_id || before.contracts.contains_key(id) by {
        lemma_known_ids(before, op, id);
    }
    assert forall|id: u32| before.contracts.contains_key(id) implies after.contracts.contains_key(
        id,
    ) by {
        lemma_known_ids(before, op, id);
    }
}

/// Only a new agreement adds an id, and none is ever removed.
proof fn lemma_known_ids(before: State, op: Operation, id: u32)
    requires
        op.refusal(before) is None,
    ensures
        op.effect(before).contracts.contains_key(id) == (before.contracts.contains_key(id) || op
            is Create && id == before.config.next_contract_id),
{
}

} // verus!
