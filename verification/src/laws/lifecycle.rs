//! What every change keeps of agreements, of their milestones and of the settings.
use vstd::prelude::*;
use crate::env::{approval_slot, fail, State};
use crate::operation::{steps, Operation};
use crate::refund::{first_refund_refusal, refund_item_refusal};
use crate::release::{batch_item_refusal, first_item_refusal, slots_of};
use crate::types::{Contract, ContractStatus, Error, Milestone};

verus! {

/// While a pause or an emergency is active, no agreement changes, none is made, and
/// no fees are withdrawn: every such call is refused.
pub proof fn law_frozen_escrow_refuses(s: State, op: Operation)
    requires
        s.config.paused || s.config.emergency,
        s.config.sound(),
        op.subject() is Some || op is Create || op is WithdrawFees,
    ensures
        op.refusal(s) is Some,
{
}

/// Before the escrow is initialized, no agreement can be made, funded, released,
/// refunded, cancelled or disputed, no evidence can be submitted, and no fees can
/// be withdrawn.
pub proof fn law_uninitialized_escrow_refuses(s: State, op: Operation)
    requires
        !s.config.initialized,
        op is Create || op is Deposit || op is Release || op is ReleaseBatch || op is Refund
            || op is Cancel || op is RaiseDispute || op is ResolveDispute || op is SubmitEvidence
            || op is WithdrawFees,
    ensures
        op.refusal(s) == fail(Error::NotInitialized),
{
}

/// The agreement, its milestones, its close record and its pending migration are
/// the same in both states.
pub open spec fn same_records(before: State, after: State, contract_id: u32) -> bool {
    &&& after.contracts.contains_key(contract_id) == before.contracts.contains_key(contract_id)
    &&& after.contracts[contract_id] == before.contracts[contract_id]
    &&& after.milestones.contains_key(contract_id) == before.milestones.contains_key(contract_id)
    &&& after.milestones[contract_id] == before.milestones[contract_id]
    &&& after.finalizations.contains_key(contract_id) == before.finalizations.contains_key(
        contract_id,
    )
    &&& after.finalizations[contract_id] == before.finalizations[contract_id]
    &&& after.migrations.contains_key(contract_id) == before.migrations.contains_key(contract_id)
    &&& after.migrations[contract_id] == before.migrations[contract_id]
}

/// So are the approvals of its milestones.
pub open spec fn same_approvals(before: State, after: State, contract_id: u32) -> bool {
    forall|index: u32| #[trigger]
        after.approvals_of(contract_id, index) == before.approvals_of(contract_id, index)
}

/// A change leaves the records of agreements that it is not about as they were.
pub(crate) proof fn lemma_records_independent(before: State, op: Operation, contract_id: u32)
    requires
        op.subject() != Some(contract_id),
        op is Create ==> contract_id != before.config.next_contract_id,
    ensures
        same_records(before, op.effect(before), contract_id),
{
    match op {
        Operation::Create { .. } => {},
        Operation::Deposit { .. } => {},
        Operation::Release { .. } => {},
        Operation::ReleaseBatch { .. } => {},
        Operation::Refund { .. } => {},
        Operation::Cancel { .. } => {},
        Operation::RaiseDispute { .. } => {},
        Operation::ResolveDispute { .. } => {},
        Operation::Rate { .. } => {},
        Operation::SubmitEvidence { .. } => {},
        _ => {},
    }
}

/// A change leaves the approvals of agreements that it is not about as they were.
#[verifier::spinoff_prover]
#[verifier::rlimit(40)]
proof fn lemma_approvals_independent(
    before: State,
    op: Operation,
    contract_id: u32,
    milestone_index: u32,
)
    requires
        op.subject() != Some(contract_id),
    ensures
        op.effect(before).approvals_of(contract_id, milestone_index) == before.approvals_of(
            contract_id,
            milestone_index,
        ),
{
    let slot = approval_slot(contract_id, milestone_index);
    match op {
        Operation::Approve { contract_id: other, milestone_index: index, .. } => {
            assert(approval_slot(other, index) != slot);
        },
        Operation::Release { contract_id: other, milestone_index: index, .. } => {
            assert(approval_slot(other, index) != slot);
        },
        Operation::ReleaseBatch { contract_id: other, milestone_indices, .. } => {
            assert(!slots_of(other, milestone_indices@).contains(slot));
        },
        _ => {},
    }
}

/// A change of one agreement leaves every other agreement, its milestones, its
/// approvals, its close record and its pending migration as they were.
pub proof fn law_agreements_are_independent(
    before: State,
    op: Operation,
    after: State,
    contract_id: u32,
)
    requires
        steps(before, op, after),
        before.contracts.contains_key(contract_id),
        op.subject() != Some(contract_id),
    ensures
        same_records(before, after, contract_id),
        same_approvals(before, after, contract_id),
{
    if op is Create {
        assert(!before.contracts.contains_key(before.config.next_contract_id));
    }
    lemma_records_independent(before, op, contract_id);
    assert(same_approvals(before, after, contract_id)) by {
        assert forall|index: u32| #[trigger]
            after.approvals_of(contract_id, index) == before.approvals_of(contract_id, index) by {
            lemma_approvals_independent(before, op, contract_id, index);
        }
    }
}

/// Every change of a finalized agreement is refused.
pub proof fn law_finalized_agreement_refuses(s: State, op: Operation, contract_id: u32)
    requires
        s.finalizations.contains_key(contract_id),
        op.subject() == Some(contract_id),
    ensures
        op.refusal(s) is Some,
{
}

/// A finalized agreement never changes again, and its close record stays as it was
/// written.
pub proof fn law_finalized_agreement_is_immutable(
    before: State,
    op: Operation,
    after: State,
    contract_id: u32,
)
    requires
        steps(before, op, after),
        before.contracts.contains_key(contract_id),
        before.finalizations.contains_key(contract_id),
    ensures
        same_records(before, after, contract_id),
        same_approvals(before, after, contract_id),
{
    if op.subject() != Some(contract_id) {
        law_agreements_are_independent(before, op, after, contract_id);
    } else {
        law_finalized_agreement_refuses(before, op, contract_id);
    }
}

/// Nothing more happens to an agreement in this status but ratings, migrations and
/// its close.
pub open spec fn terminal(status: ContractStatus) -> bool {
    ||| status == ContractStatus::Completed
    ||| status == ContractStatus::Cancelled
    ||| status == ContractStatus::Refunded
}

/// The status and the money of an agreement are the same in both records.
pub open spec fn same_books(before: Contract, after: Contract) -> bool {
    &&& after.status == before.status
    &&& after.total_deposited == before.total_deposited
    &&& after.funded_amount == before.funded_amount
    &&& after.released_amount == before.released_amount
    &&& after.refunded_amount == before.refunded_amount
}

/// No change of an agreement in a terminal status touches its money.
#[verifier::spinoff_prover]
proof fn lemma_terminal_step(before: State, op: Operation, contract_id: u32)
    requires
        op.refusal(before) is None,
        op.subject() == Some(contract_id),
        terminal(before.contracts[contract_id].status),
    ensures
        op.effect(before).contracts.contains_key(contract_id),
        same_books(
            before.contracts[contract_id],
            op.effect(before).contracts[contract_id],
        ),
        op.effect(before).milestones == before.milestones,
{
    match op {
        Operation::Deposit { .. } => {},
        Operation::Approve { .. } => {},
        Operation::Release { .. } => {},
        Operation::ReleaseBatch { .. } => {},
        Operation::Refund { .. } => {},
        Operation::Cancel { .. } => {},
        Operation::RaiseDispute { .. } => {},
        Operation::ResolveDispute { .. } => {},
        Operation::Rate { .. } => {},
        Operation::SubmitEvidence { .. } => {},
        _ => {},
    }
}

/// Completed, cancelled and refunded are final: no change touches the status, the
/// money or the milestones of such an agreement.
pub proof fn law_terminal_status_is_final(
    before: State,
    op: Operation,
    after: State,
    contract_id: u32,
)
    requires
        steps(before, op, after),
        before.contracts.contains_key(contract_id),
        terminal(before.contracts[contract_id].status),
    ensures
        after.contracts.contains_key(contract_id),
        same_books(before.contracts[contract_id], after.contracts[contract_id]),
        after.milestones.contains_key(contract_id) == before.milestones.contains_key(contract_id),
        after.milestones[contract_id] == before.milestones[contract_id],
{
    if op.subject() != Some(contract_id) {
        law_agreements_are_independent(before, op, after, contract_id);
    } else {
        lemma_terminal_step(before, op, contract_id);
    }
}

/// The parties and the mode of an agreement are the same in both records, but for
/// the client.
pub open spec fn same_terms(before: Contract, after: Contract) -> bool {
    &&& after.freelancer == before.freelancer
    &&& after.arbiter == before.arbiter
    &&& after.release_authorization == before.release_authorization
}

/// A change of an agreement keeps its terms.
#[verifier::spinoff_prover]
proof fn lemma_terms_step(before: State, op: Operation, contract_id: u32)
    requires
        op.refusal(before) is None,
        op.subject() == Some(contract_id),
    ensures
        ({
            let old_one = before.contracts[contract_id];
            let new_one = op.effect(before).contracts[contract_id];
            &&& before.contracts.contains_key(contract_id)
            &&& op.effect(before).contracts.contains_key(contract_id)
            &&& same_terms(old_one, new_one)
            &&& new_one.client == old_one.client || op is AcceptMigration
            &&& old_one.reputation_issued ==> new_one.reputation_issued
        }),
{
    match op {
        Operation::Deposit { .. } => {},
        Operation::Approve { .. } => {},
        Operation::Release { .. } => {},
        Operation::ReleaseBatch { .. } => {},
        Operation::Refund { .. } => {},
        Operation::Cancel { .. } => {},
        Operation::RaiseDispute { .. } => {},
        Operation::ResolveDispute { .. } => {},
        Operation::Rate { .. } => {},
        Operation::SubmitEvidence { .. } => {},
        _ => {},
    }
}

/// No change removes an agreement or alters its freelancer, its arbiter or its
/// mode. Only an accepted migration alters its client.
pub proof fn law_agreements_are_kept(
    before: State,
    op: Operation,
    after: State,
    contract_id: u32,
)
    requires
        steps(before, op, after),
        before.contracts.contains_key(contract_id),
    ensures
        after.contracts.contains_key(contract_id),
        same_terms(before.contracts[contract_id], after.contracts[contract_id]),
        after.contracts[contract_id].client == before.contracts[contract_id].client || op
            is AcceptMigration,
        before.contracts[contract_id].reputation_issued
            ==> after.contracts[contract_id].reputation_issued,
{
    if op.subject() != Some(contract_id) {
        law_agreements_are_independent(before, op, after, contract_id);
    } else {
        lemma_terms_step(before, op, contract_id);
    }
}

/// In an accepted batch release no milestone is refused.
pub(crate) proof fn lemma_batch_items_accepted(
    s: State,
    contract_id: u32,
    indices: Seq<u32>,
    from: int,
    k: int,
)
    requires
        first_item_refusal(s, contract_id, indices, from) is None,
        0 <= from <= k < indices.len(),
    ensures
        batch_item_refusal(s, contract_id, indices[k]) is None,
    decreases k - from,
{
    if from < k {
        lemma_batch_items_accepted(s, contract_id, indices, from + 1, k);
    }
}

/// In an accepted refund no milestone is refused.
pub(crate) proof fn lemma_refund_items_accepted(
    s: State,
    contract_id: u32,
    indices: Seq<u32>,
    from: int,
    k: int,
)
    requires
        first_refund_refusal(s, contract_id, indices, from) is None,
        0 <= from <= k < indices.len(),
    ensures
        refund_item_refusal(s, contract_id, indices[k]) is None,
    decreases k - from,
{
    if from < k {
        lemma_refund_items_accepted(s, contract_id, indices, from + 1, k);
    }
}

/// A milestone before and after a change: its amount and deadline are the same, and
/// once released or refunded it stays so.
pub open spec fn milestone_step(before: Milestone, op: Operation, after: Milestone) -> bool {
    &&& after.amount == before.amount
    &&& after.deadline == before.deadline
    &&& before.released ==> after == before
    &&& before.refunded ==> after.refunded && !after.released && after.refunded_amount
        == before.refunded_amount
    &&& after.released && !before.released ==> op is Release || op is ReleaseBatch
    &&& after.refunded && !before.refunded ==> op is Refund
}

/// What a change makes of one milestone of the agreement that it is about.
#[verifier::spinoff_prover]
#[verifier::rlimit(40)]
pub(crate) proof fn lemma_milestone_step(before: State, op: Operation, contract_id: u32, i: int)
    requires
        op.refusal(before) is None,
        op.subject() == Some(contract_id),
        before.milestones.contains_key(contract_id),
        0 <= i < before.milestones[contract_id].len() <= u32::MAX,
        before.milestones[contract_id][i].sound(),
    ensures
        op.effect(before).milestones.contains_key(contract_id),
        op.effect(before).milestones[contract_id].len() == before.milestones[contract_id].len(),
        milestone_step(
            before.milestones[contract_id][i],
            op,
            op.effect(before).milestones[contract_id][i],
        ),
{
    match op {
        Operation::ReleaseBatch { milestone_indices, .. } => {
            if milestone_indices@.contains(i as u32) {
                let k = choose|k: int|
                    0 <= k < milestone_indices@.len() && milestone_indices@[k] == i as u32;
                lemma_batch_items_accepted(before, contract_id, milestone_indices@, 0, k);
            }
        },
        Operation::Refund { milestone_indices, .. } => {
            if milestone_indices@.contains(i as u32) {
                let k = choose|k: int|
                    0 <= k < milestone_indices@.len() && milestone_indices@[k] == i as u32;
                lemma_refund_items_accepted(before, contract_id, milestone_indices@, 0, k);
            }
        },
        Operation::Release { .. } => {},
        Operation::Deposit { .. } => {},
        Operation::SubmitEvidence { .. } => {},
        _ => {},
    }
}

/// A milestone keeps its amount and its deadline, and once it is released or
/// refunded it stays so: it is never paid out twice, nor both ways.
pub proof fn law_settled_milestones_stay_settled(
    before: State,
    op: Operation,
    after: State,
    contract_id: u32,
    i: int,
)
    requires
        steps(before, op, after),
        before.contracts.contains_key(contract_id),
        before.milestones.contains_key(contract_id),
        0 <= i < before.milestones[contract_id].len(),
    ensures
        after.milestones.contains_key(contract_id),
        after.milestones[contract_id].len() == before.milestones[contract_id].len(),
        milestone_step(
            before.milestones[contract_id][i],
            op,
            after.milestones[contract_id][i],
        ),
{
    if op.subject() != Some(contract_id) {
        law_agreements_are_independent(before, op, after, contract_id);
    } else {
        assert(before.milestones[contract_id][i].sound());
        lemma_milestone_step(before, op, contract_id, i);
    }
}

} // verus!
