//! Releasing several milestones, refunding them, and cancelling agreements.
use vstd::prelude::*;
use crate::env::{approval_slot, milestones_sound, Config, Env, State};
use crate::escrow::Escrow;
use crate::event::Event;
use crate::fees::fee_unchargeable;
use crate::laws::calls::agreements::{lemma_fee_fits, lemma_nothing_open};
use crate::laws::lifecycle::lemma_batch_items_accepted;
use crate::laws::money::{lemma_batch_totals, lemma_refund_total};
use crate::refund::{first_refund_refusal, refund_item_refusal, refunded_milestones};
use crate::release::{
    batch_item_refusal, first_item_refusal, released_milestones, slots_of, total_amount,
    total_fee,
};
use crate::types::{Address, Contract, ContractStatus, Error, Halt, Milestone, ReleaseAuthorization};

verus! {

/// One whom the mode names releases several open and approved milestones at once: the
/// freelancer, and nobody else, is paid the sum of their amounts less the sum of their
/// fees, in one transfer, and the approvals of all of them are gone. One milestone that
/// cannot be released refuses all.
#[verifier::spinoff_prover]
#[verifier::rlimit(60)]
pub proof fn law_release_milestones(
    env: &mut Env,
    contract_id: u32,
    caller: Address,
    milestone_indices: Vec<u32>,
    result: Result<bool, Halt>,
)
    requires
        old(env)@.wf(),
        ({
            let s = old(env)@;
            let key = s.contracts[contract_id].freelancer.id;
            s.reputation_credits.contains_key(key) ==> s.reputation_credits[key] < i128::MAX
        }),
        call_ensures(
            Escrow::release_milestones,
            (env, contract_id, caller, milestone_indices),
            result,
        ),
    ensures
        result is Err ==> final(env)@ == old(env)@,
        ({
            let s = old(env)@;
            let t = final(env)@;
            let c = s.contracts[contract_id];
            let list = s.milestones[contract_id];
            let indices = milestone_indices@;
            let bps = s.config.protocol_fee_bps;
            let gross = indices.fold_left(
                0int,
                |sum: int, index: u32| sum + list[index as int].amount,
            );
            let fee = indices.fold_left(
                0int,
                |sum: int, index: u32| sum + list[index as int].amount * bps / 10_000,
            );
            let mode = c.release_authorization;
            let named = {
                &&& mode == ReleaseAuthorization::ClientOnly ==> caller == c.client
                &&& mode == ReleaseAuthorization::ArbiterOnly ==> c.arbiter == Some(caller)
                &&& mode == ReleaseAuthorization::ClientAndArbiter ==> caller == c.client
                    || c.arbiter
                    == Some(caller)
                &&& mode == ReleaseAuthorization::MultiSig ==> caller == c.client || caller
                    == c.freelancer
            };
            let error_of = |index: u32| {
                let key = (contract_id * 0x1_0000_0000 + index) as u64;
                let given = s.approvals[key];
                if index >= list.len() {
                    Some(Error::IndexOutOfBounds)
                } else if list[index as int].released {
                    Some(Error::MilestoneAlreadyReleased)
                } else if list[index as int].refunded {
                    Some(Error::AlreadyRefunded)
                } else if s.approvals.contains_key(key) && {
                    &&& mode == ReleaseAuthorization::ClientOnly ==> given.client_approved
                    &&& mode == ReleaseAuthorization::ArbiterOnly ==> given.arbiter_approved
                    &&& mode == ReleaseAuthorization::ClientAndArbiter ==> given.client_approved
                        || given.arbiter_approved
                    &&& mode == ReleaseAuthorization::MultiSig ==> given.client_approved
                        && given.freelancer_approved
                } {
                    None
                } else {
                    Some(Error::InsufficientApprovals)
                }
            };
            let left = c.funded_amount - c.released_amount - c.refunded_amount;
            let credits = if s.reputation_credits.contains_key(c.freelancer.id) {
                s.reputation_credits[c.freelancer.id] as int
            } else {
                0
            };
            if !s.config.initialized {
                result == Err::<bool, Halt>(Halt::Failed(Error::NotInitialized))
            } else if s.config.emergency {
                result == Err::<bool, Halt>(Halt::Failed(Error::EmergencyActive))
            } else if s.config.paused {
                result == Err::<bool, Halt>(Halt::Failed(Error::ContractPaused))
            } else if !s.authorized.contains(caller) {
                result == Err::<bool, Halt>(Halt::AuthRequired(caller))
            } else if indices.len() == 0 {
                result == Err::<bool, Halt>(Halt::Failed(Error::EmptyReleaseIndices))
            } else if exists|i: int, j: int|
                0 <= i < j < indices.len() && #[trigger] indices[i] == #[trigger] indices[j] {
                result == Err::<bool, Halt>(Halt::Failed(Error::DuplicateMilestoneInRelease))
            } else if !s.contracts.contains_key(contract_id) {
                result == Err::<bool, Halt>(Halt::Failed(Error::ContractNotFound))
            } else if s.finalizations.contains_key(contract_id) {
                result == Err::<bool, Halt>(Halt::Failed(Error::AlreadyFinalized))
            } else if c.status != ContractStatus::Funded {
                result == Err::<bool, Halt>(Halt::Failed(Error::InvalidState))
            } else if !named {
                result == Err::<bool, Halt>(Halt::Failed(Error::UnauthorizedRole))
            } else if !s.milestones.contains_key(contract_id) {
                result == Err::<bool, Halt>(Halt::Failed(Error::ContractNotFound))
            } else if exists|k: int| 0 <= k < indices.len()
                && error_of(#[trigger] indices[k]) is Some {
                exists|k: int|
                    0 <= k < indices.len() && error_of(
                        #[trigger] indices[k],
                    ) is Some && result == Err::<
                        bool,
                        Halt,
                    >(Halt::Failed(error_of(indices[k])->0)) && forall|j: int|
                        0 <= j < k ==> error_of(#[trigger] indices[j]) is None
            } else if left - s.config.accumulated_fees < gross {
                result == Err::<bool, Halt>(Halt::Failed(Error::InsufficientFunds))
            } else if exists|k: int|
                0 <= k < indices.len() && list[#[trigger] indices[k] as int].amount * bps
                    / 10_000 > list[indices[k] as int].amount {
                result == Err::<bool, Halt>(Halt::Failed(Error::PotentialOverflow))
            } else if s.config.settlement_token is None {
                result == Err::<bool, Halt>(Halt::Failed(Error::SettlementTokenNotConfigured))
            } else {
                let net = gross - fee;
                let after = t.milestones[contract_id];
                let done = forall|i: int|
                    0 <= i < after.len() ==> (#[trigger] after[i]).released || after[i].refunded;
                let d = t.contracts[contract_id];
                let paid = t.transfers.last();
                let told = Event::MilestonesReleased {
                    contract_id,
                    milestone_indices,
                    total_gross: gross as i128,
                    total_fee: fee as i128,
                    new_released_amount: d.released_amount,
                    caller,
                    timestamp: s.call.timestamp,
                };
                &&& result == Ok::<bool, Halt>(true)
                &&& d.released_amount == c.released_amount + net
                &&& d.status == if done {
                    ContractStatus::Completed
                } else {
                    ContractStatus::Funded
                }
                &&& t.contracts == s.contracts.insert(
                    contract_id,
                    Contract { released_amount: d.released_amount, status: d.status, ..c },
                )
                &&& t.config.accumulated_fees == s.config.accumulated_fees + fee
                &&& t.config == (Config { accumulated_fees: t.config.accumulated_fees, ..s.config })
                &&& paid.amount == net
                &&& paid.to == c.freelancer
                &&& paid.from == s.call.contract_address
                &&& Some(paid.token) == s.config.settlement_token
                &&& if done {
                    t.reputation_credits[c.freelancer.id] == credits + 1 && t.reputation_credits
                        == s.reputation_credits.insert(
                        c.freelancer.id,
                        t.reputation_credits[c.freelancer.id],
                    )
                } else {
                    t.reputation_credits == s.reputation_credits
                }
                &&& after.len() == list.len()
                &&& forall|i: int|
                    0 <= i < list.len()
                        && indices.contains(i as u32) ==> #[trigger] after[i] == (Milestone {
                        released: true,
                        funded_amount: list[i].amount,
                        ..list[i]
                    })
                &&& forall|i: int|
                    0 <= i < list.len()
                        && !indices.contains(i as u32) ==> #[trigger] after[i] == list[i]
                &&& forall|key: u64| #[trigger]
                    t.approvals.contains_key(key) == (s.approvals.contains_key(key)
                        && forall|k: int|
                        0 <= k < indices.len() ==> key != (contract_id * 0x1_0000_0000
                            + #[trigger] indices[k]) as u64)
                &&& forall|key: u64|
                    t.approvals.contains_key(key)
                        ==> #[trigger] t.approvals[key] == s.approvals[key]
                &&& t == (State {
                    contracts: t.contracts,
                    config: t.config,
                    milestones: s.milestones.insert(contract_id, after),
                    approvals: t.approvals,
                    transfers: s.transfers.push(paid),
                    reputation_credits: t.reputation_credits,
                    events: if done {
                        s.events.push(told).push(
                            Event::ContractCompleted {
                                contract_id,
                                caller,
                                timestamp: s.call.timestamp,
                            },
                        )
                    } else {
                        s.events.push(told)
                    },
                    ..s
                })
            }
        }),
{
    let s = old(env)@;
    let t = final(env)@;
    let list = s.milestones[contract_id];
    let indices = milestone_indices@;
    let bps = s.config.protocol_fee_bps;
    lemma_named_sum(list, indices);
    lemma_duplicates(indices);
    if s.contracts.contains_key(contract_id) && s.milestones.contains_key(contract_id) {
        assert(s.contracts[contract_id].balanced());
        assert(milestones_sound(list));
        lemma_first_batch_error(s, contract_id, indices, 0);
        if first_item_refusal(s, contract_id, indices, 0) is None {
            assert forall|k: int| 0 <= k < indices.len() implies {
                let amount = list[#[trigger] indices[k] as int].amount;
                &&& indices[k] < list.len()
                &&& amount > 0
                &&& fee_unchargeable(amount, bps) == (amount * bps / 10_000 > amount)
            } by {
                lemma_batch_items_accepted(s, contract_id, indices, 0, k);
                assert(list[indices[k] as int].sound());
                lemma_fee_fits(list[indices[k] as int].amount, bps);
            }
            lemma_named_fees(list, indices, bps);
            if result is Ok {
                assert forall|k: int| 0 <= k < indices.len() implies #[trigger] indices[k]
                    < list.len() && !fee_unchargeable(list[indices[k] as int].amount, bps) by {}
                lemma_batch_totals(list, indices, bps);
                lemma_nothing_open(released_milestones(list, indices));
                assert(t.transfers == s.transfers.push(t.transfers.last()));
                assert forall|key: u64| #[trigger]
                    t.approvals.contains_key(key) == (s.approvals.contains_key(key)
                        && forall|k: int|
                        0 <= k < indices.len() ==> key != (contract_id * 0x1_0000_0000
                            + #[trigger] indices[k]) as u64) by {
                    lemma_cleared(s, contract_id, indices, key);
                }
            }
        }
    }
}

/// Why a milestone cannot be released with others.
spec fn batch_error(s: State, contract_id: u32, index: u32) -> Option<Error> {
    let mode = s.contracts[contract_id].release_authorization;
    let list = s.milestones[contract_id];
    let key = (contract_id * 0x1_0000_0000 + index) as u64;
    let given = s.approvals[key];
    if index >= list.len() {
        Some(Error::IndexOutOfBounds)
    } else if list[index as int].released {
        Some(Error::MilestoneAlreadyReleased)
    } else if list[index as int].refunded {
        Some(Error::AlreadyRefunded)
    } else if s.approvals.contains_key(key) && {
        &&& mode == ReleaseAuthorization::ClientOnly ==> given.client_approved
        &&& mode == ReleaseAuthorization::ArbiterOnly ==> given.arbiter_approved
        &&& mode == ReleaseAuthorization::ClientAndArbiter ==> given.client_approved
            || given.arbiter_approved
        &&& mode == ReleaseAuthorization::MultiSig ==> given.client_approved
            && given.freelancer_approved
    } {
        None
    } else {
        Some(Error::InsufficientApprovals)
    }
}

/// Why a milestone cannot be refunded.
spec fn refund_error(s: State, contract_id: u32, index: u32) -> Option<Error> {
    let list = s.milestones[contract_id];
    let m = list[index as int];
    if index >= list.len() {
        Some(Error::IndexOutOfBounds)
    } else if m.released {
        Some(Error::AlreadyReleased)
    } else if m.refunded {
        Some(Error::AlreadyRefunded)
    } else if m.deadline is Some && s.call.timestamp <= m.deadline->0 {
        Some(Error::MilestoneNotOverdue)
    } else {
        None
    }
}

/// `error` is that of the first milestone that has one.
spec fn first_error(
    indices: Seq<u32>,
    error_of: spec_fn(u32) -> Option<Error>,
    error: Error,
) -> bool {
    exists|k: int|
        0 <= k < indices.len() && error_of(#[trigger] indices[k]) == Some(error) && forall|j: int|
            0 <= j < k ==> error_of(#[trigger] indices[j]) is None
}

/// The sum of what the milestones that are named say.
proof fn lemma_named_sum(list: Seq<Milestone>, indices: Seq<u32>)
    ensures
        indices.fold_left(0int, |sum: int, index: u32| sum + list[index as int].amount)
            == total_amount(list, indices),
    decreases indices.len(),
{
    if indices.len() > 0 {
        lemma_named_sum(list, indices.drop_last());
    }
}

/// The sum of the fees on the milestones that are named.
proof fn lemma_named_fees(list: Seq<Milestone>, indices: Seq<u32>, bps: u32)
    requires
        forall|k: int|
            0 <= k < indices.len() ==> list[#[trigger] indices[k] as int].amount >= 0,
    ensures
        indices.fold_left(
            0int,
            |sum: int, index: u32| sum + list[index as int].amount * bps / 10_000,
        ) == total_fee(list, indices, bps),
    decreases indices.len(),
{
    if indices.len() > 0 {
        let rest = indices.drop_last();
        assert forall|k: int| 0 <= k < rest.len() implies list[
            #[trigger] rest[k] as int].amount >= 0 by {
            assert(rest[k] == indices[k]);
        }
        lemma_named_fees(list, rest, bps);
        let amount = list[indices[indices.len() - 1] as int].amount;
        assert(amount * bps >= 0) by (nonlinear_arith)
            requires
                amount >= 0,
        ;
    }
}

/// A key is cleared if and only if it is that of a milestone that is named.
proof fn lemma_cleared(s: State, contract_id: u32, indices: Seq<u32>, key: u64)
    ensures
        slots_of(contract_id, indices).contains(key) == exists|k: int|
            0 <= k < indices.len() && key == (contract_id * 0x1_0000_0000
                + #[trigger] indices[k]) as u64,
{
    if slots_of(contract_id, indices).contains(key) {
        let k = choose|k: int|
            0 <= k < indices.len() && key == approval_slot(contract_id, #[trigger] indices[k]);
        assert(key == (contract_id * 0x1_0000_0000 + indices[k]) as u64);
    }
    if exists|k: int|
        0 <= k < indices.len() && key == (contract_id * 0x1_0000_0000
                + #[trigger] indices[k]) as u64 {
        let k = choose|k: int|
            0 <= k < indices.len() && key == (contract_id * 0x1_0000_0000
                + #[trigger] indices[k]) as u64;
        assert(key == approval_slot(contract_id, indices[k]));
    }
}

proof fn lemma_duplicates(indices: Seq<u32>)
    ensures
        !indices.no_duplicates() == exists|i: int, j: int|
            0 <= i < j < indices.len() && #[trigger] indices[i] == #[trigger] indices[j],
{
    if !indices.no_duplicates() {
        let (i, j) = choose|i: int, j: int|
            0 <= i < indices.len() && 0 <= j < indices.len() && i != j && indices[i]
                == indices[j];
        if i < j {
            assert(indices[i] == indices[j]);
        } else {
            assert(indices[j] == indices[i]);
        }
    }
}

/// The refusal of the first milestone is its error.
proof fn lemma_first_batch_error(s: State, contract_id: u32, indices: Seq<u32>, from: int)
    requires
        0 <= from <= indices.len(),
        forall|j: int|
            0 <= j < from ==> batch_error(s, contract_id, #[trigger] indices[j]) is None,
    ensures
        first_item_refusal(s, contract_id, indices, from) is None ==> forall|j: int|
            0 <= j < indices.len() ==> batch_error(s, contract_id, #[trigger] indices[j])
                is None,
        first_item_refusal(s, contract_id, indices, from) matches Some(halt) ==> {
            &&& halt matches Halt::Failed(error)
            &&& first_error(
                indices,
                |index: u32| batch_error(s, contract_id, index),
                halt->Failed_0,
            )
            &&& exists|k: int|
                0 <= k < indices.len() && batch_error(s, contract_id, #[trigger] indices[k])
                    is Some
        },
    decreases indices.len() - from,
{
    if from < indices.len() {
        if batch_item_refusal(s, contract_id, indices[from]) is None {
            assert(batch_error(s, contract_id, indices[from]) is None);
            lemma_first_batch_error(s, contract_id, indices, from + 1);
        } else {
            let halt = first_item_refusal(s, contract_id, indices, from)->0;
            assert(batch_error(s, contract_id, indices[from]) == Some(halt->Failed_0));
        }
    }
}

proof fn lemma_first_refund_error(s: State, contract_id: u32, indices: Seq<u32>, from: int)
    requires
        0 <= from <= indices.len(),
        forall|j: int|
            0 <= j < from ==> refund_error(s, contract_id, #[trigger] indices[j]) is None,
    ensures
        first_refund_refusal(s, contract_id, indices, from) is None ==> forall|j: int|
            0 <= j < indices.len() ==> refund_error(s, contract_id, #[trigger] indices[j])
                is None,
        first_refund_refusal(s, contract_id, indices, from) matches Some(halt) ==> {
            &&& halt matches Halt::Failed(error)
            &&& first_error(
                indices,
                |index: u32| refund_error(s, contract_id, index),
                halt->Failed_0,
            )
            &&& exists|k: int|
                0 <= k < indices.len() && refund_error(s, contract_id, #[trigger] indices[k])
                    is Some
        },
    decreases indices.len() - from,
{
    if from < indices.len() {
        if refund_item_refusal(s, contract_id, indices[from]) is None {
            assert(refund_error(s, contract_id, indices[from]) is None);
            lemma_first_refund_error(s, contract_id, indices, from + 1);
        } else {
            let halt = first_refund_refusal(s, contract_id, indices, from)->0;
            assert(refund_error(s, contract_id, indices[from]) == Some(halt->Failed_0));
        }
    }
}

/// Open milestones whose deadline, if they have one, has passed are refunded with the
/// authorization of the client: the client, and nobody else, is paid the sum of their
/// amounts, whatever was released before. Once all milestones are settled the agreement
/// is refunded if every one was, and completed otherwise, which earns the freelancer a
/// credit.
#[verifier::spinoff_prover]
#[verifier::rlimit(60)]
pub proof fn law_refund_unreleased_milestones(
    env: &mut Env,
    contract_id: u32,
    milestone_indices: Vec<u32>,
    result: Result<i128, Halt>,
)
    requires
        old(env)@.wf(),
        ({
            let s = old(env)@;
            let key = s.contracts[contract_id].freelancer.id;
            s.reputation_credits.contains_key(key) ==> s.reputation_credits[key] < i128::MAX
        }),
        call_ensures(
            Escrow::refund_unreleased_milestones,
            (env, contract_id, milestone_indices),
            result,
        ),
    ensures
        result is Err ==> final(env)@ == old(env)@,
        ({
            let s = old(env)@;
            let t = final(env)@;
            let c = s.contracts[contract_id];
            let list = s.milestones[contract_id];
            let indices = milestone_indices@;
            let total = indices.fold_left(
                0int,
                |sum: int, index: u32| sum + list[index as int].amount,
            );
            let error_of = |index: u32| {
                let m = list[index as int];
                if index >= list.len() {
                    Some(Error::IndexOutOfBounds)
                } else if m.released {
                    Some(Error::AlreadyReleased)
                } else if m.refunded {
                    Some(Error::AlreadyRefunded)
                } else if m.deadline is Some && s.call.timestamp <= m.deadline->0 {
                    Some(Error::MilestoneNotOverdue)
                } else {
                    None
                }
            };
            let left = c.funded_amount - c.released_amount - c.refunded_amount;
            let credits = if s.reputation_credits.contains_key(c.freelancer.id) {
                s.reputation_credits[c.freelancer.id] as int
            } else {
                0
            };
            if !s.config.initialized {
                result == Err::<i128, Halt>(Halt::Failed(Error::NotInitialized))
            } else if s.config.emergency {
                result == Err::<i128, Halt>(Halt::Failed(Error::EmergencyActive))
            } else if s.config.paused {
                result == Err::<i128, Halt>(Halt::Failed(Error::ContractPaused))
            } else if indices.len() == 0 {
                result == Err::<i128, Halt>(Halt::Failed(Error::EmptyRefundRequest))
            } else if exists|i: int, j: int|
                0 <= i < j < indices.len() && #[trigger] indices[i] == #[trigger] indices[j] {
                result == Err::<i128, Halt>(Halt::Failed(Error::DuplicateMilestoneInRefund))
            } else if !s.contracts.contains_key(contract_id) {
                result == Err::<i128, Halt>(Halt::Failed(Error::ContractNotFound))
            } else if s.finalizations.contains_key(contract_id) {
                result == Err::<i128, Halt>(Halt::Failed(Error::AlreadyFinalized))
            } else if c.status != ContractStatus::Created
                && c.status != ContractStatus::Funded && c.status
                != ContractStatus::Disputed {
                result == Err::<i128, Halt>(Halt::Failed(Error::InvalidState))
            } else if !s.authorized.contains(c.client) {
                result == Err::<i128, Halt>(Halt::AuthRequired(c.client))
            } else if !s.milestones.contains_key(contract_id) {
                result == Err::<i128, Halt>(Halt::Failed(Error::ContractNotFound))
            } else if exists|k: int| 0 <= k < indices.len()
                && error_of(#[trigger] indices[k]) is Some {
                exists|k: int|
                    0 <= k < indices.len() && error_of(
                        #[trigger] indices[k],
                    ) is Some && result == Err::<
                        i128,
                        Halt,
                    >(Halt::Failed(error_of(indices[k])->0)) && forall|j: int|
                        0 <= j < k ==> error_of(#[trigger] indices[j]) is None
            } else if left < total {
                result == Err::<i128, Halt>(Halt::Failed(Error::InsufficientFunds))
            } else if s.config.settlement_token is None {
                result == Err::<i128, Halt>(Halt::Failed(Error::SettlementTokenNotConfigured))
            } else {
                let after = t.milestones[contract_id];
                let done = forall|i: int|
                    0 <= i < after.len() ==> (#[trigger] after[i]).released || after[i].refunded;
                let d = t.contracts[contract_id];
                let paid = t.transfers.last();
                let every_one = forall|i: int|
                    0 <= i < after.len() ==> (#[trigger] after[i]).refunded;
                &&& result is Ok
                &&& result->Ok_0 == total
                &&& after.len() == list.len()
                &&& forall|i: int|
                    0 <= i < list.len()
                        && indices.contains(i as u32) ==> #[trigger] after[i] == (Milestone {
                        refunded: true,
                        refunded_amount: list[i].amount,
                        ..list[i]
                    })
                &&& forall|i: int|
                    0 <= i < list.len()
                        && !indices.contains(i as u32) ==> #[trigger] after[i] == list[i]
                &&& d.refunded_amount == c.refunded_amount + total
                &&& d.status == if !done {
                    c.status
                } else if every_one {
                    ContractStatus::Refunded
                } else {
                    ContractStatus::Completed
                }
                &&& t.contracts == s.contracts.insert(
                    contract_id,
                    Contract { refunded_amount: d.refunded_amount, status: d.status, ..c },
                )
                &&& paid.amount == total
                &&& paid.to == c.client
                &&& paid.from == s.call.contract_address
                &&& Some(paid.token) == s.config.settlement_token
                &&& if done && !every_one {
                    t.reputation_credits[c.freelancer.id] == credits + 1 && t.reputation_credits
                        == s.reputation_credits.insert(
                        c.freelancer.id,
                        t.reputation_credits[c.freelancer.id],
                    )
                } else {
                    t.reputation_credits == s.reputation_credits
                }
                &&& t == (State {
                    contracts: t.contracts,
                    milestones: s.milestones.insert(contract_id, after),
                    transfers: s.transfers.push(paid),
                    reputation_credits: t.reputation_credits,
                    events: s.events.push(
                        Event::Refunded {
                            contract_id,
                            total_refund_amount: total as i128,
                            new_status: d.status,
                            timestamp: s.call.timestamp,
                        },
                    ),
                    ..s
                })
            }
        }),
{
    let s = old(env)@;
    let t = final(env)@;
    let list = s.milestones[contract_id];
    let indices = milestone_indices@;
    lemma_named_sum(list, indices);
    lemma_duplicates(indices);
    if s.contracts.contains_key(contract_id) && s.milestones.contains_key(contract_id) {
        assert(s.contracts[contract_id].balanced());
        assert(milestones_sound(list));
        lemma_first_refund_error(s, contract_id, indices, 0);
        if result is Ok {
            lemma_refund_total(s, contract_id, indices);
            lemma_nothing_open(refunded_milestones(list, indices));
            assert(t.transfers == s.transfers.push(t.transfers.last()));
        }
    }
}

/// The client cancels an agreement of which nothing was released, while it is created or
/// funded: all that is left of it goes back to the client, in one transfer if there is
/// anything.
pub proof fn law_cancel_contract(
    env: &mut Env,
    contract_id: u32,
    client: Address,
    result: Result<bool, Halt>,
)
    requires
        old(env)@.wf(),
        call_ensures(Escrow::cancel_contract, (env, contract_id, client), result),
    ensures
        result is Err ==> final(env)@ == old(env)@,
        ({
            let s = old(env)@;
            let t = final(env)@;
            let c = s.contracts[contract_id];
            let list = s.milestones[contract_id];
            let left = c.funded_amount - c.released_amount - c.refunded_amount;
            if !s.config.initialized {
                result == Err::<bool, Halt>(Halt::Failed(Error::NotInitialized))
            } else if s.config.emergency {
                result == Err::<bool, Halt>(Halt::Failed(Error::EmergencyActive))
            } else if s.config.paused {
                result == Err::<bool, Halt>(Halt::Failed(Error::ContractPaused))
            } else if !s.contracts.contains_key(contract_id) {
                result == Err::<bool, Halt>(Halt::Failed(Error::ContractNotFound))
            } else if s.finalizations.contains_key(contract_id) {
                result == Err::<bool, Halt>(Halt::Failed(Error::AlreadyFinalized))
            } else if client != c.client {
                result == Err::<bool, Halt>(Halt::Failed(Error::UnauthorizedRole))
            } else if c.status == ContractStatus::Cancelled {
                result == Err::<bool, Halt>(Halt::Failed(Error::ContractCancelled))
            } else if c.status != ContractStatus::Created && c.status != ContractStatus::Funded {
                result == Err::<bool, Halt>(Halt::Failed(Error::InvalidStatusTransition))
            } else if c.released_amount != 0
                || s.milestones.contains_key(contract_id) && exists|i: int|
                0 <= i < list.len() && (#[trigger] list[i]).released {
                result == Err::<bool, Halt>(Halt::Failed(Error::InvalidStatusTransition))
            } else if !s.authorized.contains(client) {
                result == Err::<bool, Halt>(Halt::AuthRequired(client))
            } else if left > 0 && s.config.settlement_token is None {
                result == Err::<bool, Halt>(Halt::Failed(Error::NotInitialized))
            } else {
                let d = t.contracts[contract_id];
                let paid = t.transfers.last();
                &&& result == Ok::<bool, Halt>(true)
                &&& d.refunded_amount == c.refunded_amount + left
                &&& d.funded_amount - d.released_amount - d.refunded_amount == 0
                &&& t.contracts == s.contracts.insert(
                    contract_id,
                    Contract {
                        refunded_amount: d.refunded_amount,
                        status: ContractStatus::Cancelled,
                        ..c
                    },
                )
                &&& left == 0 ==> t.transfers == s.transfers
                &&& left != 0 ==> {
                    &&& t.transfers == s.transfers.push(paid)
                    &&& paid.amount == left
                    &&& paid.to == c.client
                    &&& paid.from == s.call.contract_address
                    &&& Some(paid.token) == s.config.settlement_token
                }
                &&& t == (State {
                    contracts: t.contracts,
                    transfers: t.transfers,
                    events: s.events.push(
                        Event::Cancelled {
                            contract_id,
                            client,
                            previous_status: c.status,
                            timestamp: s.call.timestamp,
                        },
                    ),
                    ..s
                })
            }
        }),
{
    let s = old(env)@;
    if s.contracts.contains_key(contract_id) {
        assert(s.contracts[contract_id].balanced());
    }
}

/// A milestone is overdue if it has a deadline, the time is past it, and it is not
/// released. One that is not on record is not.
pub proof fn law_is_milestone_overdue(
    env: &Env,
    contract_id: u32,
    milestone_index: u32,
    result: bool,
)
    requires
        call_ensures(Escrow::is_milestone_overdue, (env, contract_id, milestone_index), result),
    ensures
        result == (env@.milestones.contains_key(contract_id) && milestone_index
            < env@.milestones[contract_id].len() && {
            let m = env@.milestones[contract_id][milestone_index as int];
            !m.released && m.deadline is Some && env@.call.timestamp > m.deadline->0
        }),
{
}

} // verus!
