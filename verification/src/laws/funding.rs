//! What holds of deposits: how they fund the milestones of an agreement.
use vstd::prelude::*;
use crate::amount_validation::{amounts_of, lemma_sums_bounded, sum_of, sum_of_milestones};
use crate::deposit::{allocated, share_of};
use crate::env::{milestones_sound, State};
use crate::laws::lifecycle::{law_agreements_are_independent, lemma_milestone_step};
use crate::operation::{steps, Operation};
use crate::types::{ContractStatus, Milestone};

verus! {

/// The sum of what the first `n` milestones are funded with.
pub open spec fn funding_of(milestones: Seq<Milestone>, n: nat) -> int
    decreases n,
{
    if n == 0 {
        0
    } else {
        funding_of(milestones, (n - 1) as nat) + milestones[n - 1].funded_amount
    }
}

/// The shares of the first milestones add up to the deposits, up to the sum of
/// their amounts.
pub(crate) proof fn lemma_shares_add_up(milestones: Seq<Milestone>, funded: int, n: nat)
    requires
        milestones_sound(milestones),
        n <= milestones.len(),
        0 <= funded <= sum_of_milestones(milestones),
        forall|i: int| 0 <= i < milestones.len() ==> !(#[trigger] milestones[i]).released,
    ensures
        funding_of(allocated(milestones, funded), n) == if funded <= sum_of(
            amounts_of(milestones),
            n,
        ) {
            funded
        } else {
            sum_of(amounts_of(milestones), n)
        },
    decreases n,
{
    if n > 0 {
        lemma_shares_add_up(milestones, funded, (n - 1) as nat);
        let i = n - 1;
        assert(milestones[i].sound());
        assert(!milestones[i].released);
        assert(amounts_of(milestones)[i] == milestones[i].amount);
        lemma_sums_bounded(milestones, n);
        lemma_sums_bounded(milestones, i as nat);
        assert(0 <= share_of(milestones, funded, i) <= milestones[i].amount);
        assert(allocated(milestones, funded)[i].funded_amount == share_of(milestones, funded, i));
    }
}

/// Deposits fund the milestones in their order: together the milestones have what
/// came in, none has more than its amount, one that has less is followed only by
/// ones that have nothing, and all are fully funded once their sum has come in.
pub proof fn law_deposits_fund_milestones_in_order(milestones: Seq<Milestone>, funded: int)
    requires
        milestones_sound(milestones),
        0 <= funded <= sum_of_milestones(milestones),
        forall|i: int| 0 <= i < milestones.len() ==> !(#[trigger] milestones[i]).released,
    ensures
        funding_of(allocated(milestones, funded), milestones.len()) == funded,
        forall|i: int|
            0 <= i < milestones.len() ==> 0 <= (#[trigger] allocated(
                milestones,
                funded,
            )[i]).funded_amount <= milestones[i].amount,
        forall|i: int, j: int|
            0 <= i < j < milestones.len() && (#[trigger] allocated(
                milestones,
                funded,
            )[i]).funded_amount < milestones[i].amount ==> (#[trigger] allocated(
                milestones,
                funded,
            )[j]).funded_amount == 0,
        funded == sum_of_milestones(milestones) ==> forall|i: int|
            0 <= i < milestones.len() ==> (#[trigger] allocated(
                milestones,
                funded,
            )[i]).funded_amount == milestones[i].amount,
{
    lemma_shares_add_up(milestones, funded, milestones.len());
    assert forall|i: int| 0 <= i < milestones.len() implies 0 <= (#[trigger] allocated(
        milestones,
        funded,
    )[i]).funded_amount <= milestones[i].amount by {
        assert(milestones[i].sound());
    }
    assert forall|i: int, j: int|
        0 <= i < j < milestones.len() && (#[trigger] allocated(
            milestones,
            funded,
        )[i]).funded_amount < milestones[i].amount implies (#[trigger] allocated(
        milestones,
        funded,
    )[j]).funded_amount == 0 by {
        assert(milestones[i].sound());
        assert(milestones[j].sound());
        assert(amounts_of(milestones)[i] == milestones[i].amount);
        assert(sum_of(amounts_of(milestones), (i + 1) as nat) == sum_of(
            amounts_of(milestones),
            i as nat,
        ) + milestones[i].amount);
        lemma_sums_bounded(milestones, j as nat);
        assert(sum_of(amounts_of(milestones), (i + 1) as nat) <= sum_of(
            amounts_of(milestones),
            j as nat,
        ));
    }
    if funded == sum_of_milestones(milestones) {
        assert forall|i: int| 0 <= i < milestones.len() implies (#[trigger] allocated(
            milestones,
            funded,
        )[i]).funded_amount == milestones[i].amount by {
            lemma_full_share(milestones, i);
        }
    }
}

/// The sum of all milestones funds each of them fully.
pub(crate) proof fn lemma_full_share(milestones: Seq<Milestone>, i: int)
    requires
        milestones_sound(milestones),
        0 <= i < milestones.len(),
    ensures
        allocated(milestones, sum_of_milestones(milestones))[i].funded_amount
            == milestones[i].amount,
{
    let amounts = amounts_of(milestones);
    assert(milestones[i].sound());
    assert(amounts[i] == milestones[i].amount);
    assert(sum_of(amounts, (i + 1) as nat) == sum_of(amounts, i as nat) + milestones[i].amount);
    lemma_sums_bounded(milestones, milestones.len());
    assert(sum_of(amounts, (i + 1) as nat) <= sum_of(amounts, milestones.len()));
}

/// Nothing is released of an agreement that awaits deposits, and all milestones of
/// a funded one are fully funded.
pub open spec fn funding_sound(status: ContractStatus, milestones: Seq<Milestone>) -> bool {
    &&& status == ContractStatus::Created ==> forall|i: int|
        0 <= i < milestones.len() ==> !(#[trigger] milestones[i]).released
    &&& status == ContractStatus::Funded ==> forall|i: int|
        0 <= i < milestones.len() ==> (#[trigger] milestones[i]).funded_amount
            == milestones[i].amount
}

/// A new agreement is soundly funded, and every change of it keeps that up: an
/// agreement is funded only when each of its milestones is.
pub proof fn law_funded_agreements_have_funded_milestones(
    before: State,
    op: Operation,
    after: State,
    contract_id: u32,
)
    requires
        steps(before, op, after),
        after.contracts.contains_key(contract_id),
        before.contracts.contains_key(contract_id) ==> before.milestones.contains_key(contract_id)
            && funding_sound(
            before.contracts[contract_id].status,
            before.milestones[contract_id],
        ),
    ensures
        after.milestones.contains_key(contract_id),
        funding_sound(after.contracts[contract_id].status, after.milestones[contract_id]),
{
    let milestones = before.milestones[contract_id];
    if !before.contracts.contains_key(contract_id) {
        assert(op is Create);
        assert(before.config.next_contract_id == contract_id);
    } else if op.subject() != Some(contract_id) {
        law_agreements_are_independent(before, op, after, contract_id);
    } else {
        assert(milestones_sound(milestones));
        assert(after.milestones[contract_id].len() == milestones.len()) by {
            if milestones.len() > 0 {
                assert(milestones[0].sound());
                lemma_milestone_step(before, op, contract_id, 0);
            }
        }
        assert forall|i: int| 0 <= i < milestones.len() implies {
            &&& after.contracts[contract_id].status == ContractStatus::Created ==> !(
            #[trigger] after.milestones[contract_id][i]).released
            &&& after.contracts[contract_id].status == ContractStatus::Funded
                ==> after.milestones[contract_id][i].funded_amount
                == after.milestones[contract_id][i].amount
        } by {
            lemma_funding_step(before, op, contract_id, i);
        }
    }
}

proof fn lemma_funding_step(before: State, op: Operation, contract_id: u32, i: int)
    requires
        op.refusal(before) is None,
        op.subject() == Some(contract_id),
        before.contracts.contains_key(contract_id),
        before.milestones.contains_key(contract_id),
        milestones_sound(before.milestones[contract_id]),
        0 <= i < before.milestones[contract_id].len(),
        funding_sound(before.contracts[contract_id].status, before.milestones[contract_id]),
    ensures
        ({
            let status = op.effect(before).contracts[contract_id].status;
            let milestone = op.effect(before).milestones[contract_id][i];
            &&& status == ContractStatus::Created ==> !milestone.released
            &&& status == ContractStatus::Funded ==> milestone.funded_amount == milestone.amount
        }),
{
    let milestones = before.milestones[contract_id];
    assert(milestones[i].sound());
    lemma_milestone_step(before, op, contract_id, i);
    match op {
        Operation::Deposit { .. } => {
            lemma_full_share(milestones, i);
        },
        Operation::Release { .. } => {},
        Operation::ReleaseBatch { .. } => {},
        Operation::Refund { .. } => {},
        Operation::SubmitEvidence { .. } => {},
        _ => {},
    }
}

} // verus!
