//! Releases of milestones to the freelancer.
use vstd::prelude::*;
use crate::amount_validation::{MAX_MILESTONES, MAX_SINGLE_AMOUNT_STROOPS};
use crate::approvals::{approved, check_approvals};
use crate::env::{
    all_settled, answers, approval_slot, check_all_settled, compute_approval_slot, fail,
    milestones_sound, Config, Env, State,
};
use crate::escrow::Escrow;
use crate::event::Event;
use crate::fees::{fee_of, fee_unchargeable};
use crate::types::{Address, Contract, ContractStatus, Error, Halt, Milestone};

verus! {

broadcast use vstd::std_specs::hash::group_hash_axioms;

/// What a release leaves behind: the net amount paid to the freelancer, the fee
/// retained, the milestones replaced by `milestones`, their approvals cleared, and
/// `event` published. Once every milestone is settled the agreement is completed
/// and its freelancer gains a reputation credit.
pub open spec fn released(
    s: State,
    contract_id: u32,
    caller: Address,
    milestones: Seq<Milestone>,
    net: int,
    fee: int,
    slots: Set<u64>,
    event: Event,
) -> State {
    let before = s.contracts[contract_id];
    let done = all_settled(milestones);
    let after = Contract {
        released_amount: (before.released_amount + net) as i128,
        status: if done { ContractStatus::Completed } else { before.status },
        ..before
    };
    let paid = State {
        approvals: s.approvals.remove_keys(slots),
        ..s.with_payment(before.freelancer, net).with_config(
            Config { accumulated_fees: (s.config.accumulated_fees + fee) as i128, ..s.config },
        ).with_milestones(contract_id, milestones).with_contract(contract_id, after).with_event(
            event,
        )
    };
    if done {
        paid.with_credit(before.freelancer).with_event(
            Event::ContractCompleted { contract_id, caller, timestamp: s.call.timestamp },
        )
    } else {
        paid
    }
}

/// Why the release of one milestone is refused.
pub open spec fn release_refusal(
    s: State,
    contract_id: u32,
    caller: Address,
    milestone_index: u32,
) -> Option<Halt> {
    let contract = s.contracts[contract_id];
    let milestones = s.milestones[contract_id];
    let milestone = milestones[milestone_index as int];
    if !s.config.initialized {
        fail(Error::NotInitialized)
    } else if s.freeze() is Some {
        s.freeze()
    } else if !s.authorized.contains(caller) {
        Some(Halt::AuthRequired(caller))
    } else if s.closed(contract_id) is Some {
        s.closed(contract_id)
    } else if contract.status != ContractStatus::Funded {
        fail(Error::InvalidState)
    } else if !contract.may_release(caller) {
        fail(Error::UnauthorizedRole)
    } else if !s.milestones.contains_key(contract_id) {
        fail(Error::ContractNotFound)
    } else if milestone_index >= milestones.len() {
        fail(Error::InvalidMilestone)
    } else if milestone.released {
        fail(Error::AlreadyReleased)
    } else if milestone.refunded {
        fail(Error::AlreadyRefunded)
    } else if !approved(
        contract.release_authorization,
        s.approvals_of(contract_id, milestone_index),
    ) {
        fail(Error::InsufficientApprovals)
    } else if milestone.funded_amount < milestone.amount || contract.available()
        < milestone.amount {
        fail(Error::InsufficientFunds)
    } else if fee_unchargeable(milestone.amount, s.config.protocol_fee_bps) {
        fail(Error::PotentialOverflow)
    } else if contract.available() - s.config.accumulated_fees < milestone.amount {
        fail(Error::InsufficientFunds)
    } else if s.config.settlement_token is None {
        fail(Error::SettlementTokenNotConfigured)
    } else {
        None
    }
}

/// What the release of one milestone leaves behind.
pub open spec fn release_effect(
    s: State,
    contract_id: u32,
    caller: Address,
    milestone_index: u32,
) -> State {
    let milestones = s.milestones[contract_id];
    let milestone = milestones[milestone_index as int];
    let gross = milestone.amount;
    let fee = fee_of(gross as int, s.config.protocol_fee_bps);
    let net = gross - fee;
    released(
        s,
        contract_id,
        caller,
        milestones.update(milestone_index as int, milestone.after_release()),
        net,
        fee,
        set![approval_slot(contract_id, milestone_index)],
        Event::MilestoneReleased {
            contract_id,
            milestone_index,
            amount: gross,
            fee: fee as i128,
            new_released_amount: (s.contracts[contract_id].released_amount + net) as i128,
            caller,
            timestamp: s.call.timestamp,
        },
    )
}

/// The sum of the amounts of the milestones that `indices` names.
pub open spec fn total_amount(milestones: Seq<Milestone>, indices: Seq<u32>) -> int
    decreases indices.len(),
{
    if indices.len() == 0 {
        0
    } else {
        total_amount(milestones, indices.drop_last()) + milestones[indices.last() as int].amount
    }
}

/// The sum of the fees on the milestones that `indices` names.
pub open spec fn total_fee(milestones: Seq<Milestone>, indices: Seq<u32>, fee_bps: u32) -> int
    decreases indices.len(),
{
    if indices.len() == 0 {
        0
    } else {
        total_fee(milestones, indices.drop_last(), fee_bps) + fee_of(
            milestones[indices.last() as int].amount as int,
            fee_bps,
        )
    }
}

/// The milestones after all that `indices` names have been released.
pub open spec fn released_milestones(milestones: Seq<Milestone>, indices: Seq<u32>) -> Seq<
    Milestone,
> {
    Seq::new(
        milestones.len(),
        |i: int|
            if indices.contains(i as u32) {
                milestones[i].after_release()
            } else {
                milestones[i]
            },
    )
}

/// The approval keys of the milestones that `indices` names.
pub open spec fn slots_of(contract_id: u32, indices: Seq<u32>) -> Set<u64> {
    Set::new(
        |slot: u64|
            exists|k: int|
                0 <= k < indices.len() && slot == approval_slot(contract_id, #[trigger] indices[k]),
    )
}

/// Why one milestone cannot be part of a batch release.
pub open spec fn batch_item_refusal(s: State, contract_id: u32, milestone_index: u32) -> Option<
    Halt,
> {
    let milestones = s.milestones[contract_id];
    let milestone = milestones[milestone_index as int];
    if milestone_index >= milestones.len() {
        fail(Error::IndexOutOfBounds)
    } else if milestone.released {
        fail(Error::MilestoneAlreadyReleased)
    } else if milestone.refunded {
        fail(Error::AlreadyRefunded)
    } else if !approved(
        s.contracts[contract_id].release_authorization,
        s.approvals_of(contract_id, milestone_index),
    ) {
        fail(Error::InsufficientApprovals)
    } else {
        None
    }
}

/// The refusal of the first milestone, from position `k` on, that cannot be part
/// of a batch release.
pub open spec fn first_item_refusal(s: State, contract_id: u32, indices: Seq<u32>, k: int) -> Option<
    Halt,
>
    decreases indices.len() - k,
{
    if k < 0 || k >= indices.len() {
        None
    } else if batch_item_refusal(s, contract_id, indices[k]) is Some {
        batch_item_refusal(s, contract_id, indices[k])
    } else {
        first_item_refusal(s, contract_id, indices, k + 1)
    }
}

/// The fee on one of the milestones that `indices` names cannot be charged.
pub open spec fn some_fee_unchargeable(
    milestones: Seq<Milestone>,
    indices: Seq<u32>,
    fee_bps: u32,
) -> bool {
    exists|k: int|
        0 <= k < indices.len() && fee_unchargeable(
            milestones[#[trigger] indices[k] as int].amount,
            fee_bps,
        )
}

/// Why a batch release is refused.
pub open spec fn batch_refusal(
    s: State,
    contract_id: u32,
    caller: Address,
    indices: Seq<u32>,
) -> Option<Halt> {
    let contract = s.contracts[contract_id];
    let milestones = s.milestones[contract_id];
    if !s.config.initialized {
        fail(Error::NotInitialized)
    } else if s.freeze() is Some {
        s.freeze()
    } else if !s.authorized.contains(caller) {
        Some(Halt::AuthRequired(caller))
    } else if indices.len() == 0 {
        fail(Error::EmptyReleaseIndices)
    } else if !indices.no_duplicates() {
        fail(Error::DuplicateMilestoneInRelease)
    } else if s.closed(contract_id) is Some {
        s.closed(contract_id)
    } else if contract.status != ContractStatus::Funded {
        fail(Error::InvalidState)
    } else if !contract.may_release(caller) {
        fail(Error::UnauthorizedRole)
    } else if !s.milestones.contains_key(contract_id) {
        fail(Error::ContractNotFound)
    } else if first_item_refusal(s, contract_id, indices, 0) is Some {
        first_item_refusal(s, contract_id, indices, 0)
    } else if contract.available() - s.config.accumulated_fees < total_amount(
        milestones,
        indices,
    ) {
        fail(Error::InsufficientFunds)
    } else if some_fee_unchargeable(milestones, indices, s.config.protocol_fee_bps) {
        fail(Error::PotentialOverflow)
    } else if s.config.settlement_token is None {
        fail(Error::SettlementTokenNotConfigured)
    } else {
        None
    }
}

/// What a batch release leaves behind. `milestone_indices` is the request as it
/// was made.
pub open spec fn batch_effect(
    s: State,
    contract_id: u32,
    caller: Address,
    milestone_indices: Vec<u32>,
) -> State {
    let milestones = s.milestones[contract_id];
    let gross = total_amount(milestones, milestone_indices@);
    let fee = total_fee(milestones, milestone_indices@, s.config.protocol_fee_bps);
    let net = gross - fee;
    released(
        s,
        contract_id,
        caller,
        released_milestones(milestones, milestone_indices@),
        net,
        fee,
        slots_of(contract_id, milestone_indices@),
        Event::MilestonesReleased {
            contract_id,
            milestone_indices,
            total_gross: gross as i128,
            total_fee: fee as i128,
            new_released_amount: (s.contracts[contract_id].released_amount + net) as i128,
            caller,
            timestamp: s.call.timestamp,
        },
    )
}

/// A fee that can be charged on a positive amount lies between zero and the amount.
pub proof fn lemma_fee_bounds(amount: i128, fee_bps: u32)
    requires
        amount > 0,
    ensures
        fee_of(amount as int, fee_bps) >= 0,
        !fee_unchargeable(amount, fee_bps) ==> fee_of(amount as int, fee_bps) <= amount,
{
    assert(amount * fee_bps >= 0) by (nonlinear_arith)
        requires
            amount > 0,
    ;
    if fee_bps == 0 {
        assert(amount * fee_bps == 0) by (nonlinear_arith)
            requires
                fee_bps == 0,
        ;
    }
}

/// One more index of a list holds what the shorter list held and that index.
pub proof fn lemma_take_contains(indices: Seq<u32>, k: int, index: u32)
    requires
        0 <= k < indices.len(),
    ensures
        indices.take(k + 1).contains(index) == (indices.take(k).contains(index) || index
            == indices[k]),
{
    let shorter = indices.take(k);
    let longer = indices.take(k + 1);
    if shorter.contains(index) {
        let j = choose|j: int| 0 <= j < shorter.len() && shorter[j] == index;
        assert(longer[j] == index);
    }
    if index == indices[k] {
        assert(longer[k] == index);
    }
    if longer.contains(index) {
        let j = choose|j: int| 0 <= j < longer.len() && longer[j] == index;
        if j < k {
            assert(shorter[j] == index);
        }
    }
}

/// Whether no index occurs twice.
pub(crate) fn check_no_duplicates(indices: &Vec<u32>) -> (unique: bool)
    ensures
        unique == indices@.no_duplicates(),
{
    for i in 0..indices.len()
        invariant
            forall|a: int, b: int|
                0 <= a < i && a < b < indices@.len() ==> indices@[a] != indices@[b],
    {
        for j in i + 1..indices.len()
            invariant
                i < indices@.len(),
                forall|a: int, b: int|
                    0 <= a < i && a < b < indices@.len() ==> indices@[a] != indices@[b],
                forall|b: int| i < b < j ==> indices@[i as int] != indices@[b],
        {
            if indices[i] == indices[j] {
                return false;
            }
        }
    }
    true
}

/// Whether every milestone of a batch can be released, and the sum of their amounts.
fn check_batch(
    env: &Env,
    contract: &Contract,
    contract_id: u32,
    indices: &Vec<u32>,
) -> (result: Result<i128, Halt>)
    requires
        env@.wf(),
        env@.contracts.contains_key(contract_id),
        env@.contracts[contract_id] == *contract,
        env@.milestones.contains_key(contract_id),
    ensures
        match result {
            Ok(total) => {
                let milestones = env@.milestones[contract_id];
                &&& first_item_refusal(env@, contract_id, indices@, 0) is None
                &&& total == total_amount(milestones, indices@)
                &&& 0 <= total
                &&& forall|k: int|
                    0 <= k < indices@.len() ==> batch_item_refusal(
                        env@,
                        contract_id,
                        #[trigger] indices@[k],
                    ) is None
            },
            Err(halt) => first_item_refusal(env@, contract_id, indices@, 0) == Some(halt),
        },
{
    let milestones = env.read_milestones(contract_id)?;
    let mut total: i128 = 0;
    for k in 0..indices.len()
        invariant
            env@.wf(),
            env@.contracts.contains_key(contract_id),
            env@.contracts[contract_id] == *contract,
            env@.milestones.contains_key(contract_id),
            milestones@ == env@.milestones[contract_id],
            first_item_refusal(env@, contract_id, indices@, 0) == first_item_refusal(
                env@,
                contract_id,
                indices@,
                k as int,
            ),
            total == total_amount(milestones@, indices@.take(k as int)),
            0 <= total <= k * MAX_SINGLE_AMOUNT_STROOPS,
            forall|j: int|
                0 <= j < k ==> batch_item_refusal(
                    env@,
                    contract_id,
                    #[trigger] indices@[j],
                ) is None,
    {
        let index: u32 = indices[k];
        assert(indices@.take(k + 1).drop_last() =~= indices@.take(k as int));
        if index as usize >= milestones.len() {
            return Err(Halt::Failed(Error::IndexOutOfBounds));
        }
        let milestone = &milestones[index as usize];
        assert(milestone.sound());
        if milestone.released {
            return Err(Halt::Failed(Error::MilestoneAlreadyReleased));
        }
        if milestone.refunded {
            return Err(Halt::Failed(Error::AlreadyRefunded));
        }
        check_approvals(env, contract, contract_id, index)?;
        total = total + milestone.amount;
    }
    assert(indices@.take(indices@.len() as int) =~= indices@);
    Ok(total)
}

/// The sum of the fees on the milestones of a batch.
fn sum_fees(
    env: &Env,
    milestones: &Vec<Milestone>,
    indices: &Vec<u32>,
    fee_bps: u32,
) -> (result: Result<i128, Halt>)
    requires
        milestones_sound(milestones@),
        forall|k: int| 0 <= k < indices@.len() ==> (#[trigger] indices@[k]) < milestones@.len(),
        total_amount(milestones@, indices@) <= i128::MAX,
    ensures
        match result {
            Ok(fee) => {
                &&& !some_fee_unchargeable(milestones@, indices@, fee_bps)
                &&& fee == total_fee(milestones@, indices@, fee_bps)
                &&& 0 <= fee <= total_amount(milestones@, indices@)
            },
            Err(halt) => some_fee_unchargeable(milestones@, indices@, fee_bps) && halt
                == Halt::Failed(Error::PotentialOverflow),
        },
{
    let mut total: i128 = 0;
    for k in 0..indices.len()
        invariant
            milestones_sound(milestones@),
            forall|j: int|
                0 <= j < indices@.len() ==> (#[trigger] indices@[j]) < milestones@.len(),
            total == total_fee(milestones@, indices@.take(k as int), fee_bps),
            0 <= total <= total_amount(milestones@, indices@.take(k as int)),
            total_amount(milestones@, indices@.take(k as int)) <= k * MAX_SINGLE_AMOUNT_STROOPS,
            forall|j: int|
                0 <= j < k ==> !fee_unchargeable(
                    milestones@[#[trigger] indices@[j] as int].amount,
                    fee_bps,
                ),
    {
        let index: u32 = indices[k];
        assert(indices@.take(k + 1).drop_last() =~= indices@.take(k as int));
        let gross: i128 = milestones[index as usize].amount;
        assert(milestones@[index as int].sound());
        assert(gross == milestones@[indices@[k as int] as int].amount);
        let fee: i128 = Escrow::calculate_protocol_fee(env, gross, fee_bps)?;
        proof {
            lemma_fee_bounds(gross, fee_bps);
        }
        total = total + fee;
    }
    assert(indices@.take(indices@.len() as int) =~= indices@);
    Ok(total)
}

/// Marks the milestones of a batch as released.
fn mark_released(milestones: &mut Vec<Milestone>, indices: &Vec<u32>)
    requires
        forall|k: int|
            0 <= k < indices@.len() ==> (#[trigger] indices@[k]) < old(milestones)@.len(),
        old(milestones)@.len() <= MAX_MILESTONES,
    ensures
        final(milestones)@ == released_milestones(old(milestones)@, indices@),
{
    let ghost before = milestones@;
    assert(milestones@ =~= released_milestones(before, indices@.take(0)));
    for k in 0..indices.len()
        invariant
            forall|j: int| 0 <= j < indices@.len() ==> (#[trigger] indices@[j]) < before.len(),
            before.len() <= MAX_MILESTONES,
            milestones@ == released_milestones(before, indices@.take(k as int)),
    {
        let index: usize = indices[k] as usize;
        let gross: i128 = milestones[index].amount;
        milestones[index].released = true;
        milestones[index].funded_amount = gross;
        assert(milestones@ =~= released_milestones(before, indices@.take(k + 1))) by {
            assert forall|i: int|
                #![trigger before[i]]
                0 <= i < before.len() implies indices@.take(k + 1).contains(i as u32) == (
            indices@.take(k as int).contains(i as u32) || i == index) by {
                lemma_take_contains(indices@, k as int, i as u32);
            }
        }
    }
    assert(indices@.take(indices@.len() as int) =~= indices@);
}

/// Clears the approvals of the milestones of a batch.
fn clear_approvals(env: &mut Env, contract_id: u32, indices: &Vec<u32>)
    ensures
        final(env)@ == (State {
            approvals: old(env)@.approvals.remove_keys(slots_of(contract_id, indices@)),
            ..old(env)@
        }),
{
    let ghost s = env@;
    assert(s.approvals.remove_keys(slots_of(contract_id, indices@.take(0))) =~= s.approvals);
    for k in 0..indices.len()
        invariant
            env@ == (State {
                approvals: s.approvals.remove_keys(
                    slots_of(contract_id, indices@.take(k as int)),
                ),
                ..s
            }),
    {
        let slot: u64 = compute_approval_slot(contract_id, indices[k]);
        env.approvals.remove(&slot);
        assert(slots_of(contract_id, indices@.take(k + 1)) =~= slots_of(
            contract_id,
            indices@.take(k as int),
        ).insert(slot)) by {
            let old_part = indices@.take(k as int);
            let new_part = indices@.take(k + 1);
            assert forall|other: u64|
                slots_of(contract_id, new_part).contains(other) == (slots_of(
                    contract_id,
                    old_part,
                ).contains(other) || other == slot) by {
                if slots_of(contract_id, old_part).contains(other) {
                    let j = choose|j: int|
                        0 <= j < old_part.len() && other == approval_slot(
                            contract_id,
                            #[trigger] old_part[j],
                        );
                    assert(new_part[j] == old_part[j]);
                }
                if other == slot {
                    assert(other == approval_slot(contract_id, new_part[k as int]));
                }
                if slots_of(contract_id, new_part).contains(other) {
                    let j = choose|j: int|
                        0 <= j < new_part.len() && other == approval_slot(
                            contract_id,
                            #[trigger] new_part[j],
                        );
                    if j < k {
                        assert(old_part[j] == new_part[j]);
                    }
                }
            }
        }
        assert(s.approvals.remove_keys(slots_of(contract_id, indices@.take(k + 1)))
            =~= s.approvals.remove_keys(slots_of(contract_id, indices@.take(k as int))).remove(
            slot,
        ));
    }
    assert(indices@.take(indices@.len() as int) =~= indices@);
}

/// Carries out a release that has passed all its checks.
fn settle_release(
    env: &mut Env,
    contract_id: u32,
    caller: Address,
    contract: Contract,
    milestones: Vec<Milestone>,
    token: Address,
    net: i128,
    fee: i128,
    event: Event,
)
    requires
        old(env)@.contracts.contains_key(contract_id),
        old(env)@.contracts[contract_id] == contract,
        contract.balanced(),
        0 <= net,
        0 <= fee,
        0 <= old(env)@.config.accumulated_fees,
        contract.available() - old(env)@.config.accumulated_fees >= net + fee,
        old(env)@.config.settlement_token == Some(token),
        old(env)@.credit_room(contract_id),
    ensures
        final(env)@ == (State {
            approvals: old(env)@.approvals,
            ..released(
                old(env)@,
                contract_id,
                caller,
                milestones@,
                net as int,
                fee as int,
                Set::empty(),
                event,
            )
        }),
{
    let mut after = contract;
    env.pay(token, contract.freelancer, net);
    if fee > 0 {
        env.config.accumulated_fees = env.config.accumulated_fees + fee;
    }
    after.released_amount = contract.released_amount + net;
    let all_released = check_all_settled(&milestones);
    if all_released {
        after.status = ContractStatus::Completed;
        env.grant_pending_reputation_credit(contract.freelancer);
    }
    env.write_milestones(contract_id, milestones);
    env.write_contract(contract_id, after);
    env.publish(event);
    if all_released {
        let timestamp: u64 = env.call.timestamp;
        env.publish(Event::ContractCompleted { contract_id, caller, timestamp });
    }
}

impl Escrow {
    /// Releases one milestone and pays its amount, less the protocol fee, to the
    /// freelancer.
    ///
    /// The agreement and the milestone have to be funded, the caller has to be one
    /// whom its mode lets release, and the approvals that the mode asks for have to
    /// be live. The approvals are cleared by the release. The last milestone to be settled
    /// completes the agreement.
    pub fn release_milestone(
        env: &mut Env,
        contract_id: u32,
        caller: Address,
        milestone_index: u32,
    ) -> (result: Result<bool, Halt>)
        requires
            old(env)@.wf(),
            old(env)@.credit_room(contract_id),
        ensures
            answers(
                result,
                release_refusal(old(env)@, contract_id, caller, milestone_index),
                old(env)@,
                final(env)@,
                release_effect(old(env)@, contract_id, caller, milestone_index),
            ),
            final(env)@.wf(),
    {
        env.require_initialized()?;
        env.require_not_paused()?;
        env.require_auth(caller)?;
        let contract = env.read_open_contract(contract_id)?;
        if contract.status != ContractStatus::Funded {
            return Err(Halt::Failed(Error::InvalidState));
        }
        if !contract.check_may_release(caller) {
            return Err(Halt::Failed(Error::UnauthorizedRole));
        }
        let milestones = env.read_milestones(contract_id)?;
        if milestone_index as usize >= milestones.len() {
            return Err(Halt::Failed(Error::InvalidMilestone));
        }
        let milestone = &milestones[milestone_index as usize];
        if milestone.released {
            return Err(Halt::Failed(Error::AlreadyReleased));
        }
        if milestone.refunded {
            return Err(Halt::Failed(Error::AlreadyRefunded));
        }
        check_approvals(env, &contract, contract_id, milestone_index)?;
        let gross_amount: i128 = milestone.amount;
        let available: i128 = contract.compute_available();
        if milestone.funded_amount < gross_amount || available < gross_amount {
            return Err(Halt::Failed(Error::InsufficientFunds));
        }
        let fee_bps: u32 = Self::get_protocol_fee_bps(env);
        let protocol_fee: i128 = Self::calculate_protocol_fee(env, gross_amount, fee_bps)?;
        proof {
            lemma_fee_bounds(gross_amount, fee_bps);
        }
        let net_amount: i128 = gross_amount - protocol_fee;
        if available - env.config.accumulated_fees < gross_amount {
            return Err(Halt::Failed(Error::InsufficientFunds));
        }
        let token = env.require_settlement_token()?;

        let ghost s = env@;
        let timestamp: u64 = env.call.timestamp;
        let mut milestones = env.take_milestones(contract_id);
        milestones[milestone_index as usize].released = true;
        milestones[milestone_index as usize].funded_amount = gross_amount;
        assert(milestones@ =~= s.milestones[contract_id].update(
            milestone_index as int,
            s.milestones[contract_id][milestone_index as int].after_release(),
        ));
        let ghost list = milestones@;
        let slot: u64 = compute_approval_slot(contract_id, milestone_index);
        env.approvals.remove(&slot);
        settle_release(
            env,
            contract_id,
            caller,
            contract,
            milestones,
            token,
            net_amount,
            protocol_fee,
            Event::MilestoneReleased {
                contract_id,
                milestone_index,
                amount: gross_amount,
                fee: protocol_fee,
                new_released_amount: contract.released_amount + net_amount,
                caller,
                timestamp,
            },
        );
        assert(env@ == release_effect(s, contract_id, caller, milestone_index)) by {
            let effect = release_effect(s, contract_id, caller, milestone_index);
            assert(s.milestones.remove(contract_id).insert(contract_id, list)
                =~= s.milestones.insert(contract_id, list));
            assert(effect.approvals =~= s.approvals.remove(slot));
            assert(env@.contracts == effect.contracts);
            assert(env@.transfers == effect.transfers);
            assert(env@.events == effect.events);
            assert(env@ =~= effect);
        }
        Ok(true)
    }

    /// Releases several milestones at once and pays their amounts, less the
    /// protocol fees, to the freelancer in one transfer.
    ///
    /// The whole request is checked before anything changes: one milestone that
    /// cannot be released refuses all of them.
    pub fn release_milestones(
        env: &mut Env,
        contract_id: u32,
        caller: Address,
        milestone_indices: Vec<u32>,
    ) -> (result: Result<bool, Halt>)
        requires
            old(env)@.wf(),
            old(env)@.credit_room(contract_id),
        ensures
            answers(
                result,
                batch_refusal(old(env)@, contract_id, caller, milestone_indices@),
                old(env)@,
                final(env)@,
                batch_effect(old(env)@, contract_id, caller, milestone_indices),
            ),
            final(env)@.wf(),
    {
        env.require_initialized()?;
        env.require_not_paused()?;
        env.require_auth(caller)?;
        if milestone_indices.len() == 0 {
            return Err(Halt::Failed(Error::EmptyReleaseIndices));
        }
        if !check_no_duplicates(&milestone_indices) {
            return Err(Halt::Failed(Error::DuplicateMilestoneInRelease));
        }
        let contract = env.read_open_contract(contract_id)?;
        if contract.status != ContractStatus::Funded {
            return Err(Halt::Failed(Error::InvalidState));
        }
        if !contract.check_may_release(caller) {
            return Err(Halt::Failed(Error::UnauthorizedRole));
        }
        let milestones = env.read_milestones(contract_id)?;
        let total_gross: i128 = check_batch(env, &contract, contract_id, &milestone_indices)?;
        let accumulated_fees: i128 = env.config.accumulated_fees;
        if contract.compute_available() - accumulated_fees < total_gross {
            return Err(Halt::Failed(Error::InsufficientFunds));
        }
        let fee_bps: u32 = Self::get_protocol_fee_bps(env);
        let total_protocol_fee: i128 = sum_fees(env, milestones, &milestone_indices, fee_bps)?;
        let total_net: i128 = total_gross - total_protocol_fee;
        let token = env.require_settlement_token()?;

        let ghost s = env@;
        let timestamp: u64 = env.call.timestamp;
        let mut milestones = env.take_milestones(contract_id);
        mark_released(&mut milestones, &milestone_indices);
        let ghost list = milestones@;
        assert(milestones_sound(list)) by {
            assert forall|i: int| 0 <= i < list.len() implies (#[trigger] list[i]).sound() by {
                assert(s.milestones[contract_id][i].sound());
                if milestone_indices@.contains(i as u32) {
                    let k = choose|k: int|
                        0 <= k < milestone_indices@.len() && milestone_indices@[k] == i as u32;
                    assert(batch_item_refusal(s, contract_id, milestone_indices@[k]) is None);
                }
            }
        }
        clear_approvals(env, contract_id, &milestone_indices);
        settle_release(
            env,
            contract_id,
            caller,
            contract,
            milestones,
            token,
            total_net,
            total_protocol_fee,
            Event::MilestonesReleased {
                contract_id,
                milestone_indices,
                total_gross,
                total_fee: total_protocol_fee,
                new_released_amount: contract.released_amount + total_net,
                caller,
                timestamp,
            },
        );
        assert(env@ == batch_effect(s, contract_id, caller, milestone_indices)) by {
            let effect = batch_effect(s, contract_id, caller, milestone_indices);
            assert(s.milestones.remove(contract_id).insert(contract_id, list)
                =~= s.milestones.insert(contract_id, list));
            assert(env@.contracts == effect.contracts);
            assert(env@.transfers == effect.transfers);
            assert(env@.events == effect.events);
            assert(env@ =~= effect);
        }
        Ok(true)
    }
}

} // verus!
