//! Money back to the client: refunds of milestones and cancellations.
use vstd::prelude::*;
use crate::amount_validation::{MAX_MILESTONES, MAX_SINGLE_AMOUNT_STROOPS};
use crate::env::{
    all_refunded, all_settled, answers, check_all_refunded, check_all_settled, fail,
    milestones_sound, Env, State,
};
use crate::escrow::Escrow;
use crate::event::Event;
use crate::release::{check_no_duplicates, lemma_take_contains, total_amount};
use crate::types::{Address, Contract, ContractStatus, Error, Halt, Milestone};

verus! {

broadcast use vstd::std_specs::hash::group_hash_axioms;

/// The milestones after all that `indices` names have been refunded.
pub open spec fn refunded_milestones(milestones: Seq<Milestone>, indices: Seq<u32>) -> Seq<
    Milestone,
> {
    Seq::new(
        milestones.len(),
        |i: int|
            if indices.contains(i as u32) {
                milestones[i].after_refund()
            } else {
                milestones[i]
            },
    )
}

/// Why one milestone cannot be refunded.
pub open spec fn refund_item_refusal(s: State, contract_id: u32, milestone_index: u32) -> Option<
    Halt,
> {
    let milestones = s.milestones[contract_id];
    let milestone = milestones[milestone_index as int];
    if milestone_index >= milestones.len() {
        fail(Error::IndexOutOfBounds)
    } else if milestone.released {
        fail(Error::AlreadyReleased)
    } else if milestone.refunded {
        fail(Error::AlreadyRefunded)
    } else if milestone.deadline is Some && !milestone.overdue_at(s.call.timestamp) {
        fail(Error::MilestoneNotOverdue)
    } else {
        None
    }
}

/// The refusal of the first milestone, from position `k` on, that cannot be
/// refunded.
pub open spec fn first_refund_refusal(
    s: State,
    contract_id: u32,
    indices: Seq<u32>,
    k: int,
) -> Option<Halt>
    decreases indices.len() - k,
{
    if k < 0 || k >= indices.len() {
        None
    } else if refund_item_refusal(s, contract_id, indices[k]) is Some {
        refund_item_refusal(s, contract_id, indices[k])
    } else {
        first_refund_refusal(s, contract_id, indices, k + 1)
    }
}

/// An agreement whose milestones can still be refunded.
pub open spec fn refundable_status(status: ContractStatus) -> bool {
    ||| status == ContractStatus::Created
    ||| status == ContractStatus::Funded
    ||| status == ContractStatus::Disputed
}

/// Why a refund is refused.
pub open spec fn refund_refusal(s: State, contract_id: u32, indices: Seq<u32>) -> Option<Halt> {
    let contract = s.contracts[contract_id];
    let milestones = s.milestones[contract_id];
    if !s.config.initialized {
        fail(Error::NotInitialized)
    } else if s.freeze() is Some {
        s.freeze()
    } else if indices.len() == 0 {
        fail(Error::EmptyRefundRequest)
    } else if !indices.no_duplicates() {
        fail(Error::DuplicateMilestoneInRefund)
    } else if s.closed(contract_id) is Some {
        s.closed(contract_id)
    } else if !refundable_status(contract.status) {
        fail(Error::InvalidState)
    } else if !s.authorized.contains(contract.client) {
        Some(Halt::AuthRequired(contract.client))
    } else if !s.milestones.contains_key(contract_id) {
        fail(Error::ContractNotFound)
    } else if first_refund_refusal(s, contract_id, indices, 0) is Some {
        first_refund_refusal(s, contract_id, indices, 0)
    } else if contract.available() < total_amount(milestones, indices) {
        fail(Error::InsufficientFunds)
    } else if s.config.settlement_token is None {
        fail(Error::SettlementTokenNotConfigured)
    } else {
        None
    }
}

/// The status of an agreement whose milestones are now `milestones`: refunded once
/// all of them are, completed once all are settled and some were released.
pub open spec fn status_after_refund(
    status: ContractStatus,
    milestones: Seq<Milestone>,
) -> ContractStatus {
    if !all_settled(milestones) {
        status
    } else if all_refunded(milestones) {
        ContractStatus::Refunded
    } else {
        ContractStatus::Completed
    }
}

/// What a refund leaves behind. A refund that completes the agreement earns the
/// freelancer a reputation credit; one that refunds all of it does not.
pub open spec fn refund_effect(s: State, contract_id: u32, indices: Seq<u32>) -> State {
    let before = s.contracts[contract_id];
    let total = total_amount(s.milestones[contract_id], indices);
    let milestones = refunded_milestones(s.milestones[contract_id], indices);
    let status = status_after_refund(before.status, milestones);
    let after = Contract {
        refunded_amount: (before.refunded_amount + total) as i128,
        status,
        ..before
    };
    let paid = s.with_payment(before.client, total).with_milestones(
        contract_id,
        milestones,
    ).with_contract(contract_id, after).with_event(
        Event::Refunded {
            contract_id,
            total_refund_amount: total as i128,
            new_status: status,
            timestamp: s.call.timestamp,
        },
    );
    if all_settled(milestones) && !all_refunded(milestones) {
        paid.with_credit(before.freelancer)
    } else {
        paid
    }
}

/// A milestone of the agreement is on record as released.
pub open spec fn has_released_milestone(s: State, contract_id: u32) -> bool {
    &&& s.milestones.contains_key(contract_id)
    &&& exists|i: int|
        0 <= i < s.milestones[contract_id].len() && (
        #[trigger] s.milestones[contract_id][i]).released
}

/// Why a cancellation is refused. A release at the full fee rate pays out nothing,
/// so the released amount alone does not tell whether there was one.
pub open spec fn cancel_refusal(s: State, contract_id: u32, client: Address) -> Option<Halt> {
    let contract = s.contracts[contract_id];
    if !s.config.initialized {
        fail(Error::NotInitialized)
    } else if s.freeze() is Some {
        s.freeze()
    } else if s.closed(contract_id) is Some {
        s.closed(contract_id)
    } else if client != contract.client {
        fail(Error::UnauthorizedRole)
    } else if contract.status == ContractStatus::Cancelled {
        fail(Error::ContractCancelled)
    } else if contract.status != ContractStatus::Created && contract.status
        != ContractStatus::Funded {
        fail(Error::InvalidStatusTransition)
    } else if contract.released_amount != 0 || has_released_milestone(s, contract_id) {
        fail(Error::InvalidStatusTransition)
    } else if !s.authorized.contains(client) {
        Some(Halt::AuthRequired(client))
    } else if contract.available() > 0 && s.config.settlement_token is None {
        fail(Error::NotInitialized)
    } else {
        None
    }
}

/// What a cancellation leaves behind: all that was left is paid back to the
/// client. Where nothing was left, no transfer is made.
pub open spec fn cancel_effect(s: State, contract_id: u32, client: Address) -> State {
    let before = s.contracts[contract_id];
    let paid = if before.available() > 0 {
        s.with_payment(client, before.available())
    } else {
        s
    };
    paid.with_contract(
        contract_id,
        Contract {
            refunded_amount: (before.refunded_amount + before.available()) as i128,
            status: ContractStatus::Cancelled,
            ..before
        },
    ).with_event(
        Event::Cancelled {
            contract_id,
            client,
            previous_status: before.status,
            timestamp: s.call.timestamp,
        },
    )
}

/// Whether every milestone of a request can be refunded, and the sum of their
/// amounts.
fn check_refunds(env: &Env, contract_id: u32, indices: &Vec<u32>) -> (result: Result<i128, Halt>)
    requires
        env@.wf(),
        env@.milestones.contains_key(contract_id),
    ensures
        match result {
            Ok(total) => {
                &&& first_refund_refusal(env@, contract_id, indices@, 0) is None
                &&& total == total_amount(env@.milestones[contract_id], indices@)
                &&& 0 <= total
                &&& forall|k: int|
                    0 <= k < indices@.len() ==> refund_item_refusal(
                        env@,
                        contract_id,
                        #[trigger] indices@[k],
                    ) is None
            },
            Err(halt) => first_refund_refusal(env@, contract_id, indices@, 0) == Some(halt),
        },
{
    let milestones = env.read_milestones(contract_id)?;
    let mut total: i128 = 0;
    for k in 0..indices.len()
        invariant
            env@.wf(),
            env@.milestones.contains_key(contract_id),
            milestones@ == env@.milestones[contract_id],
            first_refund_refusal(env@, contract_id, indices@, 0) == first_refund_refusal(
                env@,
                contract_id,
                indices@,
                k as int,
            ),
            total == total_amount(milestones@, indices@.take(k as int)),
            0 <= total <= k * MAX_SINGLE_AMOUNT_STROOPS,
            forall|j: int|
                0 <= j < k ==> refund_item_refusal(
                    env@,
                    contract_id,
                    #[trigger] indices@[j],
                ) is None,
    {
        let index: u32 = indices[k];
        assert(indices@.take(k + 1).drop_last() =~= indices@.take(k as int));
        if index as usize >= milestones.len() {
            return Err(Halt::Failed(Error::IndexOutOfBounds));
        }
        let milestone = &milestones[index as usize];
        assert(milestone.sound());
        if milestone.released {
            return Err(Halt::Failed(Error::AlreadyReleased));
        }
        if milestone.refunded {
            return Err(Halt::Failed(Error::AlreadyRefunded));
        }
        if milestone.deadline.is_some() {
            if !milestone.check_overdue(env.call.timestamp) {
                return Err(Halt::Failed(Error::MilestoneNotOverdue));
            }
        }
        total = total + milestone.amount;
    }
    assert(indices@.take(indices@.len() as int) =~= indices@);
    Ok(total)
}

/// Marks the milestones of a request as refunded.
fn mark_refunded(milestones: &mut Vec<Milestone>, indices: &Vec<u32>)
    requires
        forall|k: int|
            0 <= k < indices@.len() ==> (#[trigger] indices@[k]) < old(milestones)@.len(),
        old(milestones)@.len() <= MAX_MILESTONES,
    ensures
        final(milestones)@ == refunded_milestones(old(milestones)@, indices@),
{
    let ghost before = milestones@;
    assert(milestones@ =~= refunded_milestones(before, indices@.take(0)));
    for k in 0..indices.len()
        invariant
            forall|j: int| 0 <= j < indices@.len() ==> (#[trigger] indices@[j]) < before.len(),
            before.len() <= MAX_MILESTONES,
            milestones@ == refunded_milestones(before, indices@.take(k as int)),
    {
        let index: usize = indices[k] as usize;
        let amount: i128 = milestones[index].amount;
        milestones[index].refunded = true;
        milestones[index].refunded_amount = amount;
        assert(milestones@ =~= refunded_milestones(before, indices@.take(k + 1))) by {
            assert forall|i: int|
                #![trigger before[i]]
                0 <= i < before.len() implies indices@.take(k + 1).contains(i as u32) == (
            indices@.take(k as int).contains(i as u32) || i == index) by {
                lemma_take_contains(indices@, k as int, i as u32);
            }
        }
    }
    assert(indices@.take(indices@.len() as int) =~= indices@);
}

/// Whether a milestone of the agreement is on record as released.
fn check_released_milestone(env: &Env, contract_id: u32) -> (found: bool)
    ensures
        found == has_released_milestone(env@, contract_id),
{
    let milestones = match env.milestones.get(&contract_id) {
        Some(milestones) => milestones,
        None => return false,
    };
    assert(milestones@ == env@.milestones[contract_id]);
    for i in 0..milestones.len()
        invariant
            milestones@ == env@.milestones[contract_id],
            env@.milestones.contains_key(contract_id),
            forall|j: int| 0 <= j < i ==> !(#[trigger] milestones@[j]).released,
    {
        if milestones[i].released {
            assert(env@.milestones[contract_id][i as int].released);
            return true;
        }
    }
    false
}

impl Escrow {
    /// Whether a milestone is overdue: it has a deadline, the deadline has passed,
    /// and it is not released. At the deadline itself it is not overdue yet. A
    /// milestone that does not exist is never overdue.
    pub fn is_milestone_overdue(env: &Env, contract_id: u32, milestone_index: u32) -> (overdue:
        bool)
        ensures
            overdue == (env@.milestones.contains_key(contract_id) && milestone_index
                < env@.milestones[contract_id].len()
                && env@.milestones[contract_id][milestone_index as int].overdue_at(
                env@.call.timestamp,
            )),
    {
        match env.read_milestones(contract_id) {
            Err(_) => false,
            Ok(milestones) => {
                if milestone_index as usize >= milestones.len() {
                    return false;
                }
                milestones[milestone_index as usize].check_overdue(env.call.timestamp)
            },
        }
    }

    /// Pays the amounts of the named milestones back to the client and returns
    /// their sum.
    ///
    /// A milestone with a deadline can only be refunded once it is overdue; one
    /// without a deadline at any time. One milestone that cannot be refunded
    /// refuses the whole request.
    pub fn refund_unreleased_milestones(
        env: &mut Env,
        contract_id: u32,
        milestone_indices: Vec<u32>,
    ) -> (result: Result<i128, Halt>)
        requires
            old(env)@.wf(),
            old(env)@.credit_room(contract_id),
        ensures
            match result {
                Ok(total) => {
                    &&& refund_refusal(old(env)@, contract_id, milestone_indices@) is None
                    &&& total == total_amount(
                        old(env)@.milestones[contract_id],
                        milestone_indices@,
                    )
                    &&& final(env)@ == refund_effect(old(env)@, contract_id, milestone_indices@)
                },
                Err(halt) => {
                    &&& refund_refusal(old(env)@, contract_id, milestone_indices@) == Some(halt)
                    &&& final(env)@ == old(env)@
                },
            },
            final(env)@.wf(),
    {
        env.require_initialized()?;
        env.require_not_paused()?;
        if milestone_indices.len() == 0 {
            return Err(Halt::Failed(Error::EmptyRefundRequest));
        }
        if !check_no_duplicates(&milestone_indices) {
            return Err(Halt::Failed(Error::DuplicateMilestoneInRefund));
        }
        let contract = env.read_open_contract(contract_id)?;
        if contract.status != ContractStatus::Created && contract.status
            != ContractStatus::Funded && contract.status != ContractStatus::Disputed {
            return Err(Halt::Failed(Error::InvalidState));
        }
        env.require_auth(contract.client)?;
        let _ = env.read_milestones(contract_id)?;
        let total: i128 = check_refunds(env, contract_id, &milestone_indices)?;
        if contract.compute_available() < total {
            return Err(Halt::Failed(Error::InsufficientFunds));
        }
        let token = env.require_settlement_token()?;

        let ghost s = env@;
        let timestamp: u64 = env.call.timestamp;
        let mut milestones = env.take_milestones(contract_id);
        mark_refunded(&mut milestones, &milestone_indices);
        let ghost list = milestones@;
        assert(milestones_sound(list)) by {
            assert forall|i: int| 0 <= i < list.len() implies (#[trigger] list[i]).sound() by {
                assert(s.milestones[contract_id][i].sound());
                if milestone_indices@.contains(i as u32) {
                    let k = choose|k: int|
                        0 <= k < milestone_indices@.len() && milestone_indices@[k] == i as u32;
                    assert(refund_item_refusal(s, contract_id, milestone_indices@[k]) is None);
                }
            }
        }
        env.pay(token, contract.client, total);
        let mut after = contract;
        after.refunded_amount = contract.refunded_amount + total;
        if check_all_settled(&milestones) {
            if check_all_refunded(&milestones) {
                after.status = ContractStatus::Refunded;
            } else {
                after.status = ContractStatus::Completed;
                env.grant_pending_reputation_credit(contract.freelancer);
            }
        }
        env.write_milestones(contract_id, milestones);
        env.write_contract(contract_id, after);
        env.publish(
            Event::Refunded {
                contract_id,
                total_refund_amount: total,
                new_status: after.status,
                timestamp,
            },
        );
        assert(env@ == refund_effect(s, contract_id, milestone_indices@)) by {
            let effect = refund_effect(s, contract_id, milestone_indices@);
            assert(s.milestones.remove(contract_id).insert(contract_id, list)
                =~= s.milestones.insert(contract_id, list));
            assert(env@.contracts == effect.contracts);
            assert(env@.transfers == effect.transfers);
            assert(env@.events == effect.events);
            assert(env@ =~= effect);
        }
        Ok(total)
    }

    /// Cancels an agreement of which nothing has been released, and pays all that
    /// is left of it back to the client.
    ///
    /// Only the client can cancel, and only while the agreement is created or
    /// funded.
    pub fn cancel_contract(env: &mut Env, contract_id: u32, client: Address) -> (result: Result<
        bool,
        Halt,
    >)
        requires
            old(env)@.wf(),
        ensures
            answers(
                result,
                cancel_refusal(old(env)@, contract_id, client),
                old(env)@,
                final(env)@,
                cancel_effect(old(env)@, contract_id, client),
            ),
            final(env)@.wf(),
    {
        env.require_initialized()?;
        env.require_not_paused()?;
        let contract = env.read_open_contract(contract_id)?;
        if client != contract.client {
            return Err(Halt::Failed(Error::UnauthorizedRole));
        }
        if contract.status == ContractStatus::Cancelled {
            return Err(Halt::Failed(Error::ContractCancelled));
        }
        if contract.status != ContractStatus::Created && contract.status
            != ContractStatus::Funded {
            return Err(Halt::Failed(Error::InvalidStatusTransition));
        }
        if contract.released_amount != 0 || check_released_milestone(env, contract_id) {
            return Err(Halt::Failed(Error::InvalidStatusTransition));
        }
        env.require_auth(client)?;
        let refund_amount: i128 = contract.compute_available();
        if refund_amount > 0 {
            let token = match env.config.settlement_token {
                Some(token) => token,
                None => return Err(Halt::Failed(Error::NotInitialized)),
            };
            env.pay(token, client, refund_amount);
        }
        let mut after = contract;
        after.refunded_amount = contract.refunded_amount + refund_amount;
        after.status = ContractStatus::Cancelled;
        env.write_contract(contract_id, after);
        let timestamp: u64 = env.call.timestamp;
        env.publish(
            Event::Cancelled {
                contract_id,
                client,
                previous_status: contract.status,
                timestamp,
            },
        );
        Ok(true)
    }
}

} // verus!
