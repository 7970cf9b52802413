//! What holds of approvals, deliverable references, deadlines, migrations and
//! errors.
use vstd::prelude::*;
use crate::approvals::{approve_effect, approve_refusal, approved};
use crate::env::{approval_slot, fail, State};
use crate::evidence::{evidence_effect, evidence_refusal};
use crate::finalize::{finalize_effect, finalize_refusal};
use crate::laws::lifecycle::lemma_batch_items_accepted;
use crate::migration::{
    accept_migration_effect, accept_migration_refusal, cancel_migration_effect,
    propose_migration_effect, propose_migration_refusal,
};
use crate::operation::{steps, Operation};
use crate::refund::refund_item_refusal;
use crate::release::{release_refusal, slots_of};
use crate::types::{Address, Contract, Error, FinalizationRecord, Milestone, ReleaseAuthorization};

verus! {

/// Different milestones keep their approvals under different keys.
pub proof fn law_approvals_are_kept_apart(
    first_contract: u32,
    first_index: u32,
    second_contract: u32,
    second_index: u32,
)
    requires
        approval_slot(first_contract, first_index) == approval_slot(second_contract, second_index),
    ensures
        first_contract == second_contract,
        first_index == second_index,
{
}

/// Releases fail closed: without the approvals that the mode asks for, and so
/// without a live record of approvals, a milestone is not released.
pub proof fn law_release_needs_approvals(
    s: State,
    contract_id: u32,
    caller: Address,
    milestone_index: u32,
)
    requires
        !approved(
            s.contracts[contract_id].release_authorization,
            s.approvals_of(contract_id, milestone_index),
        ),
    ensures
        release_refusal(s, contract_id, caller, milestone_index) is Some,
{
}

/// An approval is on record once it is accepted, and cannot be given twice. It is
/// enough where one party decides; where client and freelancer both have to
/// approve, the first of them is not enough and the second is.
pub proof fn law_approvals_add_up(
    s: State,
    contract_id: u32,
    caller: Address,
    milestone_index: u32,
)
    requires
        approve_refusal(s, contract_id, caller, milestone_index) is None,
    ensures
        ({
            let mode = s.contracts[contract_id].release_authorization;
            let before = s.approvals_of(contract_id, milestone_index);
            let after = approve_effect(s, contract_id, caller, milestone_index);
            let record = after.approvals_of(contract_id, milestone_index);
            &&& record is Some
            &&& approve_refusal(after, contract_id, caller, milestone_index) == fail(
                Error::AlreadyApproved,
            )
            &&& mode != ReleaseAuthorization::MultiSig ==> approved(mode, record)
            &&& mode == ReleaseAuthorization::MultiSig && before is None ==> !approved(
                mode,
                record,
            )
            &&& mode == ReleaseAuthorization::MultiSig && before is Some && (
            before->0.client_approved || before->0.freelancer_approved) ==> approved(mode, record)
        }),
{
}

/// A release clears the approvals of its milestone, and the milestone cannot be
/// released again.
pub proof fn law_release_clears_approvals(
    before: State,
    op: Operation,
    after: State,
    contract_id: u32,
    milestone_index: u32,
    caller: Address,
)
    requires
        steps(before, op, after),
        match op {
            Operation::Release { contract_id: id, milestone_index: index, .. } => id
                == contract_id && index == milestone_index,
            Operation::ReleaseBatch { contract_id: id, milestone_indices, .. } => id
                == contract_id && milestone_indices@.contains(milestone_index),
            _ => false,
        },
    ensures
        after.approvals_of(contract_id, milestone_index) is None,
        after.milestones[contract_id][milestone_index as int].released,
        release_refusal(after, contract_id, caller, milestone_index) is Some,
{
    match op {
        Operation::ReleaseBatch { milestone_indices, .. } => {
            let k = choose|k: int|
                0 <= k < milestone_indices@.len() && milestone_indices@[k] == milestone_index;
            lemma_batch_items_accepted(before, contract_id, milestone_indices@, 0, k);
            assert(slots_of(contract_id, milestone_indices@).contains(
                approval_slot(contract_id, milestone_indices@[k]),
            ));
        },
        _ => {},
    }
}

/// A deliverable reference is on record once it is accepted, and changes nothing
/// else of its milestone. It can be replaced by another that is not too long.
pub proof fn law_evidence_is_kept_until_replaced(
    s: State,
    contract_id: u32,
    caller: Address,
    milestone_index: u32,
    evidence: Vec<u8>,
    next: Seq<u8>,
)
    requires
        evidence_refusal(s, contract_id, caller, milestone_index, evidence@) is None,
        next.len() <= 256,
    ensures
        ({
            let after = evidence_effect(s, contract_id, milestone_index, evidence);
            let old_one = s.milestones[contract_id][milestone_index as int];
            let new_one = after.milestones[contract_id][milestone_index as int];
            &&& new_one.work_evidence == Some(evidence)
            &&& new_one == (Milestone { work_evidence: Some(evidence), ..old_one })
            &&& evidence_refusal(after, contract_id, caller, milestone_index, next) is None
        }),
{
}

/// A milestone is overdue from the second after its deadline on, for as long as it
/// is not released; without a deadline it never is.
pub proof fn law_deadline_is_the_last_second_in_time(
    milestone: Milestone,
    deadline: u64,
    now: u64,
    later: u64,
)
    requires
        milestone.deadline == Some(deadline),
        now <= later,
    ensures
        !milestone.overdue_at(deadline),
        deadline < u64::MAX && !milestone.released ==> milestone.overdue_at((deadline + 1) as u64),
        milestone.overdue_at(now) ==> milestone.overdue_at(later),
        milestone.released ==> !milestone.overdue_at(now),
        !(Milestone { deadline: None, ..milestone }).overdue_at(now),
{
}

/// A milestone with a deadline is not refunded up to it. One without is refundable
/// at any time.
pub proof fn law_refund_waits_for_the_deadline(s: State, contract_id: u32, milestone_index: u32)
    requires
        s.milestones.contains_key(contract_id),
        milestone_index < s.milestones[contract_id].len(),
        !s.milestones[contract_id][milestone_index as int].settled(),
    ensures
        match s.milestones[contract_id][milestone_index as int].deadline {
            None => refund_item_refusal(s, contract_id, milestone_index) is None,
            Some(deadline) => refund_item_refusal(s, contract_id, milestone_index) == if
                s.call.timestamp > deadline {
                None
            } else {
                fail(Error::MilestoneNotOverdue)
            },
        },
{
}

/// A proposed client who accepts becomes the client, and nothing else of the
/// agreement changes. After that, and after a withdrawal, there is nothing to accept.
/// `later` is a state with the records that the proposal left, in another invocation
/// that the proposed client authorized.
pub proof fn law_migration_hands_over(
    s: State,
    contract_id: u32,
    current_client: Address,
    new_client: Address,
    later: State,
)
    requires
        s.wf(),
        propose_migration_refusal(s, contract_id, current_client, new_client) is None,
        later == (State {
            call: later.call,
            authorized: later.authorized,
            ..propose_migration_effect(s, contract_id, current_client, new_client)
        }),
        later.authorized.contains(new_client),
    ensures
        accept_migration_refusal(later, contract_id, new_client) is None,
        accept_migration_effect(later, contract_id, new_client).contracts[contract_id] == (
        Contract { client: new_client, ..s.contracts[contract_id] }),
        accept_migration_refusal(
            accept_migration_effect(later, contract_id, new_client),
            contract_id,
            new_client,
        ) == fail(Error::InvalidState),
        accept_migration_refusal(
            cancel_migration_effect(later, contract_id, current_client),
            contract_id,
            new_client,
        ) == fail(Error::InvalidState),
        new_client != s.contracts[contract_id].freelancer,
{
}

/// A finalization writes the close record, once.
pub proof fn law_close_record_is_written_once(
    s: State,
    contract_id: u32,
    finalizer: Address,
    other: Address,
)
    requires
        finalize_refusal(s, contract_id, finalizer) is None,
    ensures
        finalize_effect(s, contract_id, finalizer).finalizations[contract_id] == (
        FinalizationRecord {
            finalizer,
            status: s.contracts[contract_id].status,
            finalized_at: s.call.timestamp,
        }),
        finalize_refusal(finalize_effect(s, contract_id, finalizer), contract_id, other) == fail(
            Error::AlreadyFinalized,
        ),
{
}

/// Different errors have different numbers.
pub proof fn law_error_codes_differ(a: Error, b: Error)
    requires
        a.code_spec() == b.code_spec(),
    ensures
        a == b,
{
}

} // verus!
