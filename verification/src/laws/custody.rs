//! The escrow is never overdrawn: it holds the fees that it retained and, beside
//! them, what it still owes on its agreements.
use vstd::prelude::*;
use crate::amount_validation::{amounts_of, lemma_sums_bounded, sum_of, sum_of_milestones};
use crate::create_contract::fresh_milestone;
use crate::deposit::allocated;
use crate::env::{all_settled, milestones_sound, State};
use crate::laws::funding::{funding_of, lemma_full_share, lemma_shares_add_up};
use crate::laws::history::{
    answered, blank, from_outside, held_after, law_changes_keep_records_sound,
    law_counters_have_room, law_every_history_is_covered, law_every_history_is_sound,
    lemma_presented_sound, lemma_subject_outside, presented, state_after, Request,
};
use crate::laws::lifecycle::{
    law_agreements_are_kept, lemma_batch_items_accepted, lemma_records_independent,
    lemma_refund_items_accepted,
};
use crate::laws::money::{
    escrow_gain, escrow_is_no_party, law_other_changes_move_only_fees,
    law_tokens_move_as_the_books_do, lemma_other_step, lemma_refund_total, lemma_release_step,
    lemma_subject_known, released_now,
};
use crate::operation::{steps, Operation};
use crate::refund::{has_released_milestone, refunded_milestones};
use crate::release::{lemma_take_contains, released_milestones, total_amount};
use crate::types::{Address, Contract, ContractStatus, Milestone};

verus! {

/// What can be added up over milestones.
pub enum Part {
    /// All amounts.
    Amount,
    /// What came in for them.
    Funding,
    /// The amounts of those that are released.
    Released,
    /// The amounts of those that are refunded.
    Refunded,
    /// What came in for those that are neither.
    Unsettled,
}

/// What one milestone adds.
pub open spec fn part_of(milestone: Milestone, part: Part) -> int {
    match part {
        Part::Amount => milestone.amount as int,
        Part::Funding => milestone.funded_amount as int,
        Part::Released => if milestone.released {
            milestone.amount as int
        } else {
            0
        },
        Part::Refunded => if milestone.refunded {
            milestone.amount as int
        } else {
            0
        },
        Part::Unsettled => if milestone.settled() {
            0
        } else {
            milestone.funded_amount as int
        },
    }
}

/// What the first `n` milestones add up to.
pub open spec fn sum_part(milestones: Seq<Milestone>, part: Part, n: nat) -> int
    decreases n,
{
    if n == 0 {
        0
    } else {
        sum_part(milestones, part, (n - 1) as nat) + part_of(milestones[n - 1], part)
    }
}

/// What all milestones add up to.
pub open spec fn total_part(milestones: Seq<Milestone>, part: Part) -> int {
    sum_part(milestones, part, milestones.len())
}

/// What one milestone less or more in a list does to its sum.
proof fn lemma_sum_update(
    milestones: Seq<Milestone>,
    i: int,
    milestone: Milestone,
    part: Part,
    n: nat,
)
    requires
        0 <= i < milestones.len(),
        n <= milestones.len(),
    ensures
        sum_part(milestones.update(i, milestone), part, n) == sum_part(milestones, part, n) + if i
            < n {
            part_of(milestone, part) - part_of(milestones[i], part)
        } else {
            0
        },
    decreases n,
{
    if n > 0 {
        lemma_sum_update(milestones, i, milestone, part, (n - 1) as nat);
    }
}

/// Lists whose milestones add the same have the same sum.
proof fn lemma_sum_same(
    some: Seq<Milestone>,
    part: Part,
    other: Seq<Milestone>,
    other_part: Part,
    n: nat,
)
    requires
        n <= some.len(),
        n <= other.len(),
        forall|i: int|
            #![trigger some[i]]
            0 <= i < n ==> part_of(some[i], part) == part_of(other[i], other_part),
    ensures
        sum_part(some, part, n) == sum_part(other, other_part, n),
    decreases n,
{
    if n > 0 {
        lemma_sum_same(some, part, other, other_part, (n - 1) as nat);
        assert(part_of(some[n - 1], part) == part_of(other[n - 1], other_part));
    }
}

/// The sum of all amounts, said in two ways.
proof fn lemma_sum_of_amounts(milestones: Seq<Milestone>, n: nat)
    requires
        n <= milestones.len(),
    ensures
        sum_part(milestones, Part::Amount, n) == sum_of(amounts_of(milestones), n),
    decreases n,
{
    if n > 0 {
        lemma_sum_of_amounts(milestones, (n - 1) as nat);
        assert(amounts_of(milestones)[n - 1] == milestones[n - 1].amount);
    }
}

/// Where every milestone is settled or fully funded, the amounts are those released,
/// those refunded, and what came in for the rest.
proof fn lemma_sum_splits(milestones: Seq<Milestone>, n: nat)
    requires
        milestones_sound(milestones),
        n <= milestones.len(),
        forall|i: int|
            0 <= i < n ==> (#[trigger] milestones[i]).settled() || milestones[i].funded_amount
                == milestones[i].amount,
    ensures
        sum_part(milestones, Part::Amount, n) == sum_part(milestones, Part::Released, n)
            + sum_part(milestones, Part::Refunded, n) + sum_part(
            milestones,
            Part::Unsettled,
            n,
        ),
    decreases n,
{
    if n > 0 {
        lemma_sum_splits(milestones, (n - 1) as nat);
        assert(milestones[n - 1].sound());
    }
}

/// No part of sound milestones is negative.
proof fn lemma_sum_not_negative(milestones: Seq<Milestone>, part: Part, n: nat)
    requires
        milestones_sound(milestones),
        n <= milestones.len(),
    ensures
        0 <= sum_part(milestones, part, n),
    decreases n,
{
    if n > 0 {
        lemma_sum_not_negative(milestones, part, (n - 1) as nat);
        assert(milestones[n - 1].sound());
    }
}

/// Releasing unsettled milestones adds their amounts to those released.
proof fn lemma_released_sum(milestones: Seq<Milestone>, indices: Seq<u32>)
    requires
        milestones.len() <= u32::MAX,
        indices.no_duplicates(),
        forall|k: int|
            0 <= k < indices.len() ==> #[trigger] indices[k] < milestones.len()
                && !milestones[indices[k] as int].settled(),
    ensures
        total_part(released_milestones(milestones, indices), Part::Released) == total_part(
            milestones,
            Part::Released,
        ) + total_amount(milestones, indices),
    decreases indices.len(),
{
    if indices.len() == 0 {
        assert(released_milestones(milestones, indices) =~= milestones);
    } else {
        let rest = indices.drop_last();
        let last = indices[indices.len() - 1];
        assert forall|k: int| 0 <= k < rest.len() implies #[trigger] rest[k] < milestones.len()
            && !milestones[rest[k] as int].settled() by {
            assert(rest[k] == indices[k]);
        }
        assert(!rest.contains(last));
        lemma_released_sum(milestones, rest);
        let shorter = released_milestones(milestones, rest);
        assert(shorter[last as int] == milestones[last as int]);
        let marked = milestones[last as int].after_release();
        assert(released_milestones(milestones, indices) =~= shorter.update(last as int, marked)) by {
            lemma_one_more_named(indices);
        }
        lemma_sum_update(shorter, last as int, marked, Part::Released, milestones.len());
    }
}

/// Refunding unsettled milestones adds their amounts to those refunded.
proof fn lemma_refunded_sum(milestones: Seq<Milestone>, indices: Seq<u32>)
    requires
        milestones.len() <= u32::MAX,
        indices.no_duplicates(),
        forall|k: int|
            0 <= k < indices.len() ==> #[trigger] indices[k] < milestones.len()
                && !milestones[indices[k] as int].settled(),
    ensures
        total_part(refunded_milestones(milestones, indices), Part::Refunded) == total_part(
            milestones,
            Part::Refunded,
        ) + total_amount(milestones, indices),
    decreases indices.len(),
{
    if indices.len() == 0 {
        assert(refunded_milestones(milestones, indices) =~= milestones);
    } else {
        let rest = indices.drop_last();
        let last = indices[indices.len() - 1];
        assert forall|k: int| 0 <= k < rest.len() implies #[trigger] rest[k] < milestones.len()
            && !milestones[rest[k] as int].settled() by {
            assert(rest[k] == indices[k]);
        }
        assert(!rest.contains(last));
        lemma_refunded_sum(milestones, rest);
        let shorter = refunded_milestones(milestones, rest);
        assert(shorter[last as int] == milestones[last as int]);
        let marked = milestones[last as int].after_refund();
        assert(refunded_milestones(milestones, indices) =~= shorter.update(last as int, marked)) by {
            lemma_one_more_named(indices);
        }
        lemma_sum_update(shorter, last as int, marked, Part::Refunded, milestones.len());
    }
}

/// A list names what it names without its last index, and that index.
proof fn lemma_one_more_named(indices: Seq<u32>)
    requires
        indices.len() > 0,
    ensures
        forall|x: u32| #[trigger]
            indices.contains(x) == (indices.drop_last().contains(x) || x == indices.last()),
{
    assert(indices.take(indices.len() as int) =~= indices);
    assert(indices.take(indices.len() - 1) =~= indices.drop_last());
    assert forall|x: u32| #[trigger] indices.contains(x) == (indices.drop_last().contains(x) || x
        == indices.last()) by {
        lemma_take_contains(indices, indices.len() - 1, x);
    }
}

/// A milestone is refunded.
pub open spec fn some_refunded(milestones: Seq<Milestone>) -> bool {
    exists|i: int| 0 <= i < milestones.len() && (#[trigger] milestones[i]).refunded
}

/// What the escrow still owes on an agreement: what came in for its unsettled
/// milestones, and nothing once it is closed. A refund before all deposits are there
/// can pay back more than came in for its milestones; after one, what is left of the
/// deposits is owed.
pub open spec fn owed_on(contract: Contract, milestones: Seq<Milestone>) -> int {
    match contract.status {
        ContractStatus::Cancelled => 0,
        ContractStatus::Completed => 0,
        ContractStatus::Refunded => 0,
        ContractStatus::Created => if some_refunded(milestones) {
            contract.available()
        } else {
            total_part(milestones, Part::Unsettled)
        },
        _ => total_part(milestones, Part::Unsettled),
    }
}

/// The books of an agreement that is not closed agree with its milestones.
pub open spec fn accounted(contract: Contract, milestones: Seq<Milestone>) -> bool {
    match contract.status {
        ContractStatus::Cancelled => true,
        ContractStatus::Completed => true,
        ContractStatus::Refunded => true,
        ContractStatus::Created => {
            &&& contract.released_amount == 0
            &&& contract.refunded_amount == total_part(milestones, Part::Refunded)
            &&& contract.funded_amount == total_part(milestones, Part::Funding)
            &&& contract.funded_amount < total_part(milestones, Part::Amount)
            &&& forall|i: int|
                0 <= i < milestones.len() ==> !(#[trigger] milestones[i]).released
        },
        ContractStatus::Funded | ContractStatus::Disputed => {
            &&& contract.refunded_amount == total_part(milestones, Part::Refunded)
            &&& contract.funded_amount == total_part(milestones, Part::Amount)
            &&& forall|i: int|
                0 <= i < milestones.len() ==> (#[trigger] milestones[i]).funded_amount
                    == milestones[i].amount
        },
        _ => false,
    }
}

/// Before all deposits are there, what is left of an agreement is owed on it.
proof fn lemma_created_owes_what_is_left(contract: Contract, milestones: Seq<Milestone>)
    requires
        accounted(contract, milestones),
        contract.status == ContractStatus::Created,
        milestones_sound(milestones),
    ensures
        owed_on(contract, milestones) == contract.available(),
{
    if !some_refunded(milestones) {
        lemma_sum_same(
            milestones,
            Part::Unsettled,
            milestones,
            Part::Funding,
            milestones.len(),
        );
        lemma_no_refunds(milestones, milestones.len());
    }
}

proof fn lemma_no_refunds(milestones: Seq<Milestone>, n: nat)
    requires
        n <= milestones.len(),
        !some_refunded(milestones),
    ensures
        sum_part(milestones, Part::Refunded, n) == 0,
    decreases n,
{
    if n > 0 {
        lemma_no_refunds(milestones, (n - 1) as nat);
        assert(!milestones[n - 1].refunded);
    }
}

proof fn lemma_no_releases(milestones: Seq<Milestone>, n: nat)
    requires
        n <= milestones.len(),
        forall|i: int| 0 <= i < milestones.len() ==> !(#[trigger] milestones[i]).released,
    ensures
        sum_part(milestones, Part::Released, n) == 0,
    decreases n,
{
    if n > 0 {
        lemma_no_releases(milestones, (n - 1) as nat);
        assert(!milestones[n - 1].released);
    }
}

/// A change of an agreement keeps its books in agreement with its milestones, and
/// changes what is owed on it as it changes what is left of it, less the fees that it
/// retains. The decision of a dispute leaves nothing owed.
pub open spec fn owed_step(before: State, op: Operation, after: State, contract_id: u32) -> bool {
    let old_one = before.contracts[contract_id];
    let new_one = after.contracts[contract_id];
    let owed_before = owed_on(old_one, before.milestones[contract_id]);
    let owed_after = owed_on(new_one, after.milestones[contract_id]);
    let fee = after.config.accumulated_fees - before.config.accumulated_fees;
    &&& accounted(new_one, after.milestones[contract_id])
    &&& op is ResolveDispute ==> owed_after == 0
    &&& !(op is ResolveDispute) ==> owed_after - owed_before == new_one.available()
        - old_one.available() - fee
}

/// Settled milestones leave nothing unsettled.
proof fn lemma_all_settled_sum(milestones: Seq<Milestone>, n: nat)
    requires
        n <= milestones.len(),
        all_settled(milestones),
    ensures
        sum_part(milestones, Part::Unsettled, n) == 0,
    decreases n,
{
    if n > 0 {
        lemma_all_settled_sum(milestones, (n - 1) as nat);
        assert(milestones[n - 1].settled());
    }
}

proof fn lemma_owed_release(before: State, op: Operation, after: State, contract_id: u32)
    requires
        steps(before, op, after),
        op is Release || op is ReleaseBatch,
        op.subject() == Some(contract_id),
        accounted(before.contracts[contract_id], before.milestones[contract_id]),
    ensures
        owed_step(before, op, after, contract_id),
{
    let milestones = before.milestones[contract_id];
    let list = after.milestones[contract_id];
    let indices = released_now(op);
    assert(milestones_sound(milestones));
    assert(before.contracts[contract_id].status == ContractStatus::Funded);
    match op {
        Operation::Release { milestone_index, .. } => {
            assert(indices =~= seq![milestone_index]);
            assert(indices[0] == milestone_index);
            assert forall|x: u32| #[trigger] indices.contains(x) == (x == milestone_index) by {
                if x == milestone_index {
                    assert(indices[0] == x);
                }
            }
            assert(indices.no_duplicates());
            assert(list =~= released_milestones(milestones, indices));
        },
        Operation::ReleaseBatch { milestone_indices, .. } => {
            assert forall|k: int| 0 <= k < indices.len() implies #[trigger] indices[k]
                < milestones.len() && !milestones[indices[k] as int].settled() by {
                lemma_batch_items_accepted(before, contract_id, indices, 0, k);
            }
            assert(list =~= released_milestones(milestones, indices));
        },
        _ => {},
    }
    lemma_released_sum(milestones, indices);
    lemma_release_step(before, op, contract_id);
    law_changes_keep_records_sound(before, op, after);
    assert(milestones_sound(list));
    let n = milestones.len();
    lemma_sum_same(list, Part::Amount, milestones, Part::Amount, n);
    assert forall|i: int|
        #![trigger list[i]]
        0 <= i < n implies part_of(list[i], Part::Refunded) == part_of(
        milestones[i],
        Part::Refunded,
    ) && list[i].funded_amount == list[i].amount by {
        assert(milestones[i].funded_amount == milestones[i].amount);
    }
    lemma_sum_same(list, Part::Refunded, milestones, Part::Refunded, n);
    lemma_sum_splits(milestones, n);
    lemma_sum_splits(list, n);
    if all_settled(list) {
        lemma_all_settled_sum(list, n);
    }
}

proof fn lemma_owed_refund(before: State, op: Operation, after: State, contract_id: u32)
    requires
        steps(before, op, after),
        op is Refund,
        op.subject() == Some(contract_id),
        accounted(before.contracts[contract_id], before.milestones[contract_id]),
    ensures
        owed_step(before, op, after, contract_id),
{
    let contract = before.contracts[contract_id];
    let milestones = before.milestones[contract_id];
    let list = after.milestones[contract_id];
    let indices = match op {
        Operation::Refund { milestone_indices, .. } => milestone_indices@,
        _ => Seq::empty(),
    };
    let n = milestones.len();
    assert(milestones_sound(milestones));
    assert(contract.balanced());
    assert forall|k: int| 0 <= k < indices.len() implies #[trigger] indices[k] < milestones.len()
        && !milestones[indices[k] as int].settled() by {
        lemma_refund_items_accepted(before, contract_id, indices, 0, k);
    }
    assert(list =~= refunded_milestones(milestones, indices));
    lemma_refunded_sum(milestones, indices);
    lemma_refund_total(before, contract_id, indices);
    law_changes_keep_records_sound(before, op, after);
    assert(after.contracts[contract_id].balanced());
    assert(milestones_sound(list));
    lemma_sum_same(list, Part::Amount, milestones, Part::Amount, n);
    lemma_sum_same(list, Part::Funding, milestones, Part::Funding, n);
    lemma_sum_same(list, Part::Released, milestones, Part::Released, n);
    if contract.status == ContractStatus::Created {
        assert forall|i: int| 0 <= i < n implies !(#[trigger] list[i]).released by {
            assert(!milestones[i].released);
        }
        if all_settled(list) {
            assert forall|i: int|
                #![trigger list[i]]
                0 <= i < n implies part_of(list[i], Part::Refunded) == part_of(
                list[i],
                Part::Amount,
            ) by {
                assert(list[i].settled());
            }
            lemma_sum_same(list, Part::Refunded, list, Part::Amount, n);
            assert(false);
        }
        lemma_created_owes_what_is_left(contract, milestones);
        lemma_created_owes_what_is_left(after.contracts[contract_id], list);
    } else {
        assert forall|i: int| 0 <= i < n implies (#[trigger] list[i]).funded_amount
            == list[i].amount by {
            assert(milestones[i].funded_amount == milestones[i].amount);
        }
        lemma_sum_splits(milestones, n);
        lemma_sum_splits(list, n);
        if all_settled(list) {
            lemma_all_settled_sum(list, n);
        }
    }
}

proof fn lemma_funding_sum(milestones: Seq<Milestone>, n: nat)
    ensures
        sum_part(milestones, Part::Funding, n) == funding_of(milestones, n),
    decreases n,
{
    if n > 0 {
        lemma_funding_sum(milestones, (n - 1) as nat);
    }
}

proof fn lemma_owed_deposit(before: State, op: Operation, after: State, contract_id: u32)
    requires
        steps(before, op, after),
        op is Deposit,
        op.subject() == Some(contract_id),
        accounted(before.contracts[contract_id], before.milestones[contract_id]),
    ensures
        owed_step(before, op, after, contract_id),
{
    let contract = before.contracts[contract_id];
    let milestones = before.milestones[contract_id];
    let list = after.milestones[contract_id];
    let n = milestones.len();
    let funded = contract.funded_amount + op->Deposit_amount;
    assert(milestones_sound(milestones));
    assert(contract.balanced());
    law_changes_keep_records_sound(before, op, after);
    assert(milestones_sound(list));
    lemma_other_step(before, op, contract_id);
    lemma_sums_bounded(milestones, n);
    lemma_sum_of_amounts(milestones, n);
    assert(list =~= allocated(milestones, funded));
    lemma_sum_same(list, Part::Amount, milestones, Part::Amount, n);
    lemma_sum_same(list, Part::Refunded, milestones, Part::Refunded, n);
    assert forall|i: int| 0 <= i < n implies !(#[trigger] list[i]).released by {
        assert(!milestones[i].released);
    }
    lemma_created_owes_what_is_left(contract, milestones);
    if funded == sum_of_milestones(milestones) {
        assert forall|i: int| 0 <= i < n implies (#[trigger] list[i]).funded_amount
            == list[i].amount by {
            lemma_full_share(milestones, i);
        }
        lemma_sum_splits(list, n);
        lemma_no_releases(list, n);
    } else {
        lemma_shares_add_up(milestones, funded, n);
        lemma_funding_sum(list, n);
        lemma_created_owes_what_is_left(after.contracts[contract_id], list);
    }
}

proof fn lemma_owed_cancel(before: State, op: Operation, after: State, contract_id: u32)
    requires
        steps(before, op, after),
        op is Cancel,
        op.subject() == Some(contract_id),
        before.milestones.contains_key(contract_id),
        accounted(before.contracts[contract_id], before.milestones[contract_id]),
    ensures
        owed_step(before, op, after, contract_id),
{
    let contract = before.contracts[contract_id];
    let milestones = before.milestones[contract_id];
    let n = milestones.len();
    assert(milestones_sound(milestones));
    assert(contract.balanced());
    assert(!has_released_milestone(before, contract_id));
    if contract.status == ContractStatus::Created {
        lemma_created_owes_what_is_left(contract, milestones);
    } else {
        lemma_sum_splits(milestones, n);
        lemma_no_releases(milestones, n);
    }
}

/// The other changes leave the books and what is owed alone.
#[verifier::spinoff_prover]
proof fn lemma_owed_elsewhere(before: State, op: Operation, after: State, contract_id: u32)
    requires
        steps(before, op, after),
        op.subject() == Some(contract_id),
        !(op is Release || op is ReleaseBatch || op is Refund || op is Deposit || op is Cancel),
        accounted(before.contracts[contract_id], before.milestones[contract_id]),
    ensures
        owed_step(before, op, after, contract_id),
{
    let milestones = before.milestones[contract_id];
    let list = after.milestones[contract_id];
    let n = milestones.len();
    match op {
        Operation::SubmitEvidence { milestone_index, .. } => {
            assert(list.len() == n);
            assert forall|part: Part| #[trigger] total_part(list, part) == total_part(
                milestones,
                part,
            ) by {
                lemma_sum_same(list, part, milestones, part, n);
            }
            assert forall|i: int| 0 <= i < n implies (#[trigger] list[i]).funded_amount
                == list[i].amount by {
                assert(milestones[i].funded_amount == milestones[i].amount);
            }
        },
        Operation::ResolveDispute { .. } => {},
        Operation::RaiseDispute { .. } => {},
        Operation::Rate { .. } => {},
        _ => {
            assert(list == milestones);
        },
    }
}

proof fn lemma_owed_step(before: State, op: Operation, after: State, contract_id: u32)
    requires
        steps(before, op, after),
        op.subject() == Some(contract_id),
        before.milestones.contains_key(contract_id),
        accounted(before.contracts[contract_id], before.milestones[contract_id]),
    ensures
        owed_step(before, op, after, contract_id),
{
    if op is Release || op is ReleaseBatch {
        lemma_owed_release(before, op, after, contract_id);
    } else if op is Refund {
        lemma_owed_refund(before, op, after, contract_id);
    } else if op is Deposit {
        lemma_owed_deposit(before, op, after, contract_id);
    } else if op is Cancel {
        lemma_owed_cancel(before, op, after, contract_id);
    } else {
        lemma_owed_elsewhere(before, op, after, contract_id);
    }
}

/// Every agreement has milestones, with which its books agree.
pub open spec fn all_accounted(s: State) -> bool {
    forall|id: u32| #[trigger]
        s.contracts.contains_key(id) ==> s.milestones.contains_key(id) && accounted(
            s.contracts[id],
            s.milestones[id],
        )
}

/// What is owed on the agreements with ids below `n`, together.
pub open spec fn owed_below(s: State, n: nat) -> int
    decreases n,
{
    if n == 0 {
        0
    } else {
        owed_below(s, (n - 1) as nat) + if s.contracts.contains_key((n - 1) as u32) {
            owed_on(s.contracts[(n - 1) as u32], s.milestones[(n - 1) as u32])
        } else {
            0
        }
    }
}

/// What the escrow owes on all its agreements together.
pub open spec fn total_owed(s: State) -> int {
    owed_below(s, 0x1_0000_0000)
}

/// The agreement with this id is the same in both states, or in none.
pub open spec fn same_agreement(before: State, after: State, id: u32) -> bool {
    &&& after.contracts.contains_key(id) == before.contracts.contains_key(id)
    &&& before.contracts.contains_key(id) ==> after.contracts[id] == before.contracts[id]
        && after.milestones[id] == before.milestones[id]
}

/// A change of one agreement changes the sum by as much.
proof fn lemma_owed_changes_with_one(before: State, after: State, contract_id: u32, n: nat)
    requires
        n <= 0x1_0000_0000,
        before.contracts.contains_key(contract_id),
        after.contracts.contains_key(contract_id),
        forall|id: u32| id != contract_id ==> #[trigger] same_agreement(before, after, id),
    ensures
        owed_below(after, n) == owed_below(before, n) + if contract_id < n {
            owed_on(after.contracts[contract_id], after.milestones[contract_id]) - owed_on(
                before.contracts[contract_id],
                before.milestones[contract_id],
            )
        } else {
            0
        },
    decreases n,
{
    if n > 0 {
        lemma_owed_changes_with_one(before, after, contract_id, (n - 1) as nat);
        let id = (n - 1) as u32;
        if id != contract_id {
            assert(same_agreement(before, after, id));
        }
    }
}

/// A new agreement on which nothing is owed leaves the sum as it was.
proof fn lemma_owed_without_new(before: State, after: State, contract_id: u32, n: nat)
    requires
        n <= 0x1_0000_0000,
        !before.contracts.contains_key(contract_id),
        after.contracts.contains_key(contract_id),
        owed_on(after.contracts[contract_id], after.milestones[contract_id]) == 0,
        forall|id: u32| id != contract_id ==> #[trigger] same_agreement(before, after, id),
    ensures
        owed_below(after, n) == owed_below(before, n),
    decreases n,
{
    if n > 0 {
        lemma_owed_without_new(before, after, contract_id, (n - 1) as nat);
        let id = (n - 1) as u32;
        if id != contract_id {
            assert(same_agreement(before, after, id));
        }
    }
}

/// States with the same agreements owe the same.
proof fn lemma_owed_same(before: State, after: State, n: nat)
    requires
        after.contracts == before.contracts,
        after.milestones == before.milestones,
    ensures
        owed_below(after, n) == owed_below(before, n),
    decreases n,
{
    if n > 0 {
        lemma_owed_same(before, after, (n - 1) as nat);
    }
}

/// No agreement is owed less than nothing.
proof fn lemma_owed_not_negative(s: State, n: nat)
    requires
        s.wf(),
        all_accounted(s),
    ensures
        owed_below(s, n) >= 0,
    decreases n,
{
    if n > 0 {
        lemma_owed_not_negative(s, (n - 1) as nat);
        let id = (n - 1) as u32;
        if s.contracts.contains_key(id) {
            assert(s.contracts[id].balanced());
            assert(milestones_sound(s.milestones[id]));
            lemma_sum_not_negative(s.milestones[id], Part::Unsettled, s.milestones[id].len());
        }
    }
}

/// Nothing is owed on a new agreement, and its books agree with its milestones.
proof fn lemma_new_agreement_owes_nothing(before: State, op: Operation, after: State)
    requires
        steps(before, op, after),
        op is Create,
    ensures
        ({
            let id = before.config.next_contract_id;
            &&& !before.contracts.contains_key(id)
            &&& after.contracts.contains_key(id)
            &&& after.milestones.contains_key(id)
            &&& accounted(after.contracts[id], after.milestones[id])
            &&& owed_on(after.contracts[id], after.milestones[id]) == 0
        }),
{
    let id = before.config.next_contract_id;
    let list = after.milestones[id];
    law_changes_keep_records_sound(before, op, after);
    assert(milestones_sound(list));
    assert(list.len() > 0);
    assert forall|i: int| 0 <= i < list.len() implies !(#[trigger] list[i]).released
        && !list[i].refunded && list[i].funded_amount == 0 by {
        assert(list[i] == fresh_milestone(op->amounts[i]));
    }
    assert(!some_refunded(list));
    lemma_no_refunds(list, list.len());
    lemma_nothing_funded(list, list.len());
    lemma_amounts_positive(list, list.len());
    lemma_sum_same(list, Part::Unsettled, list, Part::Funding, list.len());
}

proof fn lemma_nothing_funded(milestones: Seq<Milestone>, n: nat)
    requires
        n <= milestones.len(),
        forall|i: int| 0 <= i < milestones.len() ==> (#[trigger] milestones[i]).funded_amount == 0,
    ensures
        sum_part(milestones, Part::Funding, n) == 0,
    decreases n,
{
    if n > 0 {
        lemma_nothing_funded(milestones, (n - 1) as nat);
        assert(milestones[n - 1].funded_amount == 0);
    }
}

proof fn lemma_amounts_positive(milestones: Seq<Milestone>, n: nat)
    requires
        milestones_sound(milestones),
        0 < n <= milestones.len(),
    ensures
        0 < sum_part(milestones, Part::Amount, n),
    decreases n,
{
    lemma_sum_not_negative(milestones, Part::Amount, (n - 1) as nat);
    assert(milestones[n - 1].sound());
}

/// A change adds to the tokens of the escrow what it adds to the retained fees and to
/// what is owed. The decision of a dispute leaves less owed and moves no tokens.
pub proof fn law_tokens_move_as_fees_and_debts_do(before: State, op: Operation, after: State)
    requires
        steps(before, op, after),
        escrow_is_no_party(before, op),
        all_accounted(before),
    ensures
        all_accounted(after),
        after.config.accumulated_fees + total_owed(after) - before.config.accumulated_fees
            - total_owed(before) <= escrow_gain(before, after),
        !(op is ResolveDispute) ==> after.config.accumulated_fees + total_owed(after)
            - before.config.accumulated_fees - total_owed(before) == escrow_gain(before, after),
{
    match op.subject() {
        Some(contract_id) => {
            lemma_subject_known(before, op, contract_id);
            law_agreements_are_kept(before, op, after, contract_id);
            lemma_owed_step(before, op, after, contract_id);
            assert forall|id: u32| id != contract_id implies #[trigger] same_agreement(
                before,
                after,
                id,
            ) by {
                lemma_records_independent(before, op, id);
            }
            lemma_owed_changes_with_one(before, after, contract_id, 0x1_0000_0000);
            lemma_milestones_kept(before, op, contract_id);
            assert forall|id: u32| #[trigger] after.contracts.contains_key(id) implies {
                &&& after.milestones.contains_key(id)
                &&& accounted(after.contracts[id], after.milestones[id])
            } by {
                if id != contract_id {
                    lemma_records_independent(before, op, id);
                    assert(before.contracts.contains_key(id));
                }
            }
            law_tokens_move_as_the_books_do(before, op, after, contract_id);
            if op is ResolveDispute {
                lemma_other_step(before, op, contract_id);
                let contract = before.contracts[contract_id];
                let milestones = before.milestones[contract_id];
                assert(contract.balanced());
                assert(milestones_sound(milestones));
                lemma_sum_not_negative(milestones, Part::Unsettled, milestones.len());
            }
        },
        None => {
            law_other_changes_move_only_fees(before, op, after);
            if op is Create {
                let new_id = before.config.next_contract_id;
                lemma_new_agreement_owes_nothing(before, op, after);
                assert forall|id: u32| id != new_id implies #[trigger] same_agreement(
                    before,
                    after,
                    id,
                ) by {
                    lemma_records_independent(before, op, id);
                }
                lemma_owed_without_new(before, after, new_id, 0x1_0000_0000);
                assert forall|id: u32| #[trigger] after.contracts.contains_key(id) implies {
                    &&& after.milestones.contains_key(id)
                    &&& accounted(after.contracts[id], after.milestones[id])
                } by {
                    if id != new_id {
                        lemma_records_independent(before, op, id);
                        assert(before.contracts.contains_key(id));
                    }
                }
            } else {
                assert(after.contracts == before.contracts);
                assert(after.milestones == before.milestones);
                lemma_owed_same(before, after, 0x1_0000_0000);
            }
        },
    }
}

proof fn lemma_milestones_kept(before: State, op: Operation, contract_id: u32)
    requires
        op.subject() == Some(contract_id),
        before.milestones.contains_key(contract_id),
    ensures
        op.effect(before).milestones.contains_key(contract_id),
{
}

/// Whatever calls an escrow gets, it is never overdrawn: it holds the fees that it
/// retained and has not paid out, and beside them what it owes on its agreements. It
/// holds exactly that much if no dispute was decided.
pub proof fn law_fees_and_debts_are_held(escrow: Address, history: Seq<Request>)
    requires
        forall|k: int| 0 <= k < history.len() ==> from_outside(escrow, #[trigger] history[k]),
    ensures
        ({
            let s = state_after(escrow, history);
            &&& all_accounted(s)
            &&& s.config.accumulated_fees + total_owed(s) <= held_after(escrow, history)
            &&& 0 <= s.config.accumulated_fees <= held_after(escrow, history)
            &&& (forall|k: int|
                0 <= k < history.len() ==> !((#[trigger] history[k]).op is ResolveDispute))
                ==> s.config.accumulated_fees + total_owed(s) == held_after(escrow, history)
        }),
    decreases history.len(),
{
    law_every_history_is_sound(escrow, history);
    if history.len() == 0 {
        lemma_blank_owes_nothing(escrow, 0x1_0000_0000);
    } else {
        let rest = history.drop_last();
        let request = history.last();
        let op = request.op;
        assert(request == history[history.len() - 1]);
        assert forall|k: int| 0 <= k < rest.len() implies from_outside(
            escrow,
            #[trigger] rest[k],
        ) by {
            assert(rest[k] == history[k]);
        }
        law_fees_and_debts_are_held(escrow, rest);
        if forall|k: int| 0 <= k < history.len() ==> !((#[trigger] history[k]).op
            is ResolveDispute) {
            assert forall|k: int| 0 <= k < rest.len() implies !((#[trigger] rest[k]).op
                is ResolveDispute) by {
                assert(rest[k] == history[k]);
            }
        }
        let before = state_after(escrow, rest);
        let seen = presented(before, request);
        let after = answered(before, request);
        law_every_history_is_sound(escrow, rest);
        law_every_history_is_covered(escrow, rest);
        lemma_presented_sound(before, request);
        lemma_owed_same(before, seen, 0x1_0000_0000);
        assert(all_accounted(seen));
        if op.refusal(seen) is None {
            law_counters_have_room(seen, op);
            lemma_subject_outside(seen, op, escrow);
            law_tokens_move_as_fees_and_debts_do(seen, op, after);
        }
    }
    lemma_owed_not_negative(state_after(escrow, history), 0x1_0000_0000);
}

proof fn lemma_blank_owes_nothing(escrow: Address, n: nat)
    ensures
        owed_below(blank(escrow), n) == 0,
    decreases n,
{
    if n > 0 {
        lemma_blank_owes_nothing(escrow, (n - 1) as nat);
    }
}

} // verus!
