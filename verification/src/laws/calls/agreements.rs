//! Making agreements, funding them, approving and releasing their milestones.
use vstd::prelude::*;
use crate::amount_validation::{
    amounts_of, lemma_sums_bounded, sum_of, MAX_SINGLE_AMOUNT_STROOPS,
};
use crate::env::{all_settled, milestones_sound, Config, Env, State};
use crate::escrow::Escrow;
use crate::event::{Event, Transfer};
use crate::fees::{fee_of, fee_unchargeable};
use crate::release::{lemma_fee_bounds, release_effect};
use crate::types::{
    Address, Contract, ContractStatus, Error, Halt, Milestone, ReleaseAuthorization,
};

verus! {

/// A new agreement gets the next id. It has the parties and the mode that the call
/// names and one milestone for each amount, in their order, with exactly that amount,
/// to which nothing has happened yet.
pub proof fn law_create_contract(
    env: &mut Env,
    client: Address,
    freelancer: Address,
    arbiter: Option<Address>,
    amounts: Vec<i128>,
    mode: ReleaseAuthorization,
    result: Result<u32, Halt>,
)
    requires
        old(env)@.wf(),
        call_ensures(
            Escrow::create_contract,
            (env, client, freelancer, arbiter, amounts, mode),
            result,
        ),
    ensures
        result is Err ==> final(env)@ == old(env)@,
        ({
            let s = old(env)@;
            let t = final(env)@;
            if !s.config.initialized {
                result == Err::<u32, Halt>(Halt::Failed(Error::NotInitialized))
            } else if s.config.emergency {
                result == Err::<u32, Halt>(Halt::Failed(Error::EmergencyActive))
            } else if s.config.paused {
                result == Err::<u32, Halt>(Halt::Failed(Error::ContractPaused))
            } else if client == freelancer {
                result == Err::<u32, Halt>(Halt::Failed(Error::InvalidParticipant))
            } else if arbiter is None && (mode == ReleaseAuthorization::ArbiterOnly || mode
                == ReleaseAuthorization::ClientAndArbiter) {
                result == Err::<u32, Halt>(Halt::Failed(Error::MissingArbiter))
            } else if arbiter == Some(client) || arbiter == Some(freelancer) {
                result == Err::<u32, Halt>(Halt::Failed(Error::InvalidArbiter))
            } else if amounts@.len() == 0 {
                result == Err::<u32, Halt>(Halt::Failed(Error::EmptyMilestones))
            } else if amounts@.len() > 10 {
                result == Err::<u32, Halt>(Halt::Failed(Error::TooManyMilestones))
            } else if exists|i: int|
                0 <= i < amounts@.len() && !(0 < #[trigger] amounts@[i] <= 1_000_000_000_000_000) {
                result == Err::<u32, Halt>(Halt::Failed(Error::InvalidMilestoneAmount))
            } else if amounts@.fold_left(0int, |sum: int, amount: i128| sum + amount) > (
            match s.config.governed {
                Some(governed) => governed.max_escrow_total_stroops,
                None => 1_000_000_000_000_000,
            }) {
                result == Err::<u32, Halt>(Halt::Failed(Error::TotalCapExceeded))
            } else if !s.authorized.contains(client) {
                result == Err::<u32, Halt>(Halt::AuthRequired(client))
            } else if s.contracts.contains_key(s.config.next_contract_id) {
                result == Err::<u32, Halt>(Halt::Failed(Error::ContractIdCollision))
            } else if s.config.next_contract_id == u32::MAX {
                result == Err::<u32, Halt>(Halt::Failed(Error::ContractIdOverflow))
            } else {
                let id = s.config.next_contract_id;
                let list = t.milestones[id];
                &&& result == Ok::<u32, Halt>(id)
                &&& t.contracts == s.contracts.insert(id, t.contracts[id])
                &&& t.contracts[id].client == client
                &&& t.contracts[id].freelancer == freelancer
                &&& t.contracts[id].arbiter == arbiter
                &&& t.contracts[id].release_authorization == mode
                &&& t.contracts[id].status == ContractStatus::Created
                &&& t.contracts[id].total_deposited == 0
                &&& t.contracts[id].funded_amount == 0
                &&& t.contracts[id].released_amount == 0
                &&& t.contracts[id].refunded_amount == 0
                &&& !t.contracts[id].reputation_issued
                &&& t.milestones == s.milestones.insert(id, list)
                &&& list.len() == amounts@.len()
                &&& forall|i: int|
                    0 <= i < amounts@.len() ==> {
                        &&& (#[trigger] list[i]).amount == amounts@[i]
                        &&& list[i].funded_amount == 0
                        &&& !list[i].released
                        &&& !list[i].refunded
                        &&& list[i].refunded_amount == 0
                        &&& list[i].work_evidence is None
                        &&& list[i].deadline is None
                    }
                &&& t.config.next_contract_id == id + 1
                &&& t == (State {
                    contracts: t.contracts,
                    milestones: t.milestones,
                    config: Config { next_contract_id: t.config.next_contract_id, ..s.config },
                    events: s.events.push(
                        Event::ContractCreated {
                            contract_id: id,
                            client,
                            freelancer,
                            timestamp: s.call.timestamp,
                        },
                    ),
                    ..s
                })
            }
        }),
{
    lemma_sum_of_list(amounts@, amounts@.len());
    assert(amounts@.take(amounts@.len() as int) =~= amounts@);
}

pub(crate) proof fn lemma_sum_of_list(amounts: Seq<i128>, n: nat)
    requires
        n <= amounts.len(),
    ensures
        amounts.take(n as int).fold_left(0int, |sum: int, amount: i128| sum + amount) == sum_of(
            amounts,
            n,
        ),
    decreases n,
{
    if n > 0 {
        lemma_sum_of_list(amounts, (n - 1) as nat);
        assert(amounts.take(n as int).drop_last() =~= amounts.take(n - 1));
    }
}

pub(crate) proof fn lemma_sum_of_all(milestones: Seq<Milestone>, n: nat)
    requires
        n <= milestones.len(),
    ensures
        milestones.take(n as int).fold_left(0int, |sum: int, m: Milestone| sum + m.amount)
            == sum_of(amounts_of(milestones), n),
    decreases n,
{
    if n > 0 {
        lemma_sum_of_all(milestones, (n - 1) as nat);
        assert(milestones.take(n as int).drop_last() =~= milestones.take(n - 1));
        assert(amounts_of(milestones)[n - 1] == milestones[n - 1].amount);
    }
}

/// The client pays into an agreement that is not funded yet, and never more than its
/// milestones add up to. The deposits fill the milestones in their order, each up to its
/// amount, and the agreement is funded once they fill all of them.
pub proof fn law_deposit_funds(
    env: &mut Env,
    contract_id: u32,
    caller: Address,
    amount: i128,
    result: Result<bool, Halt>,
)
    requires
        old(env)@.wf(),
        call_ensures(Escrow::deposit_funds, (env, contract_id, caller, amount), result),
    ensures
        result is Err ==> final(env)@ == old(env)@,
        ({
            let s = old(env)@;
            let t = final(env)@;
            let c = s.contracts[contract_id];
            let list = s.milestones[contract_id];
            let total = list.fold_left(0int, |sum: int, m: Milestone| sum + m.amount);
            if !s.config.initialized {
                result == Err::<bool, Halt>(Halt::Failed(Error::NotInitialized))
            } else if s.config.emergency {
                result == Err::<bool, Halt>(Halt::Failed(Error::EmergencyActive))
            } else if s.config.paused {
                result == Err::<bool, Halt>(Halt::Failed(Error::ContractPaused))
            } else if amount <= 0 {
                result == Err::<bool, Halt>(Halt::Failed(Error::AmountMustBePositive))
            } else if !s.contracts.contains_key(contract_id) {
                result == Err::<bool, Halt>(Halt::Failed(Error::ContractNotFound))
            } else if s.finalizations.contains_key(contract_id) {
                result == Err::<bool, Halt>(Halt::Failed(Error::AlreadyFinalized))
            } else if c.status != ContractStatus::Created {
                result == Err::<bool, Halt>(Halt::Failed(Error::InvalidState))
            } else if caller != c.client {
                result == Err::<bool, Halt>(Halt::Failed(Error::UnauthorizedRole))
            } else if !s.authorized.contains(caller) {
                result == Err::<bool, Halt>(Halt::AuthRequired(caller))
            } else if !s.milestones.contains_key(contract_id) {
                result == Err::<bool, Halt>(Halt::Failed(Error::ContractNotFound))
            } else if c.funded_amount + amount > total {
                result == Err::<bool, Halt>(Halt::Failed(Error::InvalidDepositAmount))
            } else if s.config.settlement_token is None {
                result == Err::<bool, Halt>(Halt::Failed(Error::SettlementTokenNotConfigured))
            } else {
                let funded = c.funded_amount + amount;
                let d = t.contracts[contract_id];
                let filled = t.milestones[contract_id];
                &&& result == Ok::<bool, Halt>(true)
                &&& d.funded_amount == funded
                &&& d.total_deposited == c.total_deposited + amount
                &&& d.status == if funded == total {
                    ContractStatus::Funded
                } else {
                    ContractStatus::Created
                }
                &&& t.contracts == s.contracts.insert(
                    contract_id,
                    Contract {
                        funded_amount: d.funded_amount,
                        total_deposited: d.total_deposited,
                        status: d.status,
                        ..c
                    },
                )
                &&& filled.len() == list.len()
                &&& forall|i: int|
                    0 <= i < list.len() ==> (#[trigger] filled[i]) == (Milestone {
                        funded_amount: filled[i].funded_amount,
                        ..list[i]
                    })
                &&& forall|i: int|
                    0 <= i < list.len() && list[i].released ==> #[trigger] filled[i] == list[i]
                &&& forall|i: int|
                    0 <= i < list.len() && !list[i].released ==> {
                        let before = list.take(i).fold_left(
                            0int,
                            |sum: int, m: Milestone| sum + m.amount,
                        );
                        &&& funded <= before ==> (#[trigger] filled[i]).funded_amount == 0
                        &&& before <= funded <= before + list[i].amount ==> filled[i].funded_amount
                            == funded - before
                        &&& funded >= before + list[i].amount ==> filled[i].funded_amount
                            == list[i].amount
                    }
                &&& t == (State {
                    contracts: t.contracts,
                    milestones: s.milestones.insert(contract_id, filled),
                    transfers: s.transfers.push(
                        Transfer {
                            token: s.config.settlement_token->0,
                            from: caller,
                            to: s.call.contract_address,
                            amount,
                        },
                    ),
                    ..s
                })
            }
        }),
{
    let s = old(env)@;
    let list = s.milestones[contract_id];
    lemma_sum_of_all(list, list.len());
    assert(list.take(list.len() as int) =~= list);
    assert forall|i: int| 0 <= i < list.len() implies (#[trigger] list.take(i)).fold_left(
        0int,
        |sum: int, m: Milestone| sum + m.amount,
    ) == sum_of(amounts_of(list), i as nat) by {
        lemma_sum_of_all(list, i as nat);
    }
    if s.contracts.contains_key(contract_id) {
        assert(s.contracts[contract_id].balanced());
    }
    if s.milestones.contains_key(contract_id) {
        assert(milestones_sound(list));
        lemma_sums_bounded(list, list.len());
        assert forall|i: int| 0 <= i < list.len() implies (#[trigger] list[i]).sound() by {}
    }
}

/// Whom the mode names approves an open milestone of a funded agreement, once each. The
/// approval is recorded as that of the part the caller has: it counts as the client's
/// only if the client gave it, and likewise for the freelancer and the arbiter.
pub proof fn law_approve_milestone_release(
    env: &mut Env,
    contract_id: u32,
    caller: Address,
    milestone_index: u32,
    result: Result<bool, Halt>,
)
    requires
        old(env)@.wf(),
        call_ensures(
            Escrow::approve_milestone_release,
            (env, contract_id, caller, milestone_index),
            result,
        ),
    ensures
        result is Err ==> final(env)@ == old(env)@,
        ({
            let s = old(env)@;
            let t = final(env)@;
            let c = s.contracts[contract_id];
            let list = s.milestones[contract_id];
            let m = list[milestone_index as int];
            let mode = c.release_authorization;
            let named = {
                &&& mode == ReleaseAuthorization::ClientOnly ==> caller == c.client
                &&& mode == ReleaseAuthorization::ArbiterOnly ==> c.arbiter == Some(caller)
                &&& mode == ReleaseAuthorization::ClientAndArbiter ==> caller == c.client
                    || c.arbiter
                    == Some(caller)
                &&& mode == ReleaseAuthorization::MultiSig ==> caller == c.client || caller
                    == c.freelancer
            };
            let key = (contract_id * 0x1_0000_0000 + milestone_index) as u64;
            let given = s.approvals[key];
            let as_client = c.release_authorization != ReleaseAuthorization::ArbiterOnly && caller
                == c.client;
            let as_freelancer = c.release_authorization == ReleaseAuthorization::MultiSig && caller
                != c.client;
            if s.config.emergency {
                result == Err::<bool, Halt>(Halt::Failed(Error::EmergencyActive))
            } else if s.config.paused {
                result == Err::<bool, Halt>(Halt::Failed(Error::ContractPaused))
            } else if s.finalizations.contains_key(contract_id) {
                result == Err::<bool, Halt>(Halt::Failed(Error::AlreadyFinalized))
            } else if !s.authorized.contains(caller) {
                result == Err::<bool, Halt>(Halt::AuthRequired(caller))
            } else if !s.contracts.contains_key(contract_id) {
                result == Err::<bool, Halt>(Halt::Failed(Error::ContractNotFound))
            } else if c.status != ContractStatus::Funded {
                result == Err::<bool, Halt>(Halt::Failed(Error::InvalidState))
            } else if !named {
                result == Err::<bool, Halt>(Halt::Failed(Error::UnauthorizedRole))
            } else if !s.milestones.contains_key(contract_id) {
                result == Err::<bool, Halt>(Halt::Failed(Error::ContractNotFound))
            } else if milestone_index >= list.len() {
                result == Err::<bool, Halt>(Halt::Failed(Error::IndexOutOfBounds))
            } else if m.released {
                result == Err::<bool, Halt>(Halt::Failed(Error::AlreadyReleased))
            } else if m.refunded {
                result == Err::<bool, Halt>(Halt::Failed(Error::AlreadyRefunded))
            } else if s.approvals.contains_key(key) && (if as_client {
                given.client_approved
            } else if as_freelancer {
                given.freelancer_approved
            } else {
                given.arbiter_approved
            }) {
                result == Err::<bool, Halt>(Halt::Failed(Error::AlreadyApproved))
            } else {
                let now = t.approvals[key];
                let known = s.approvals.contains_key(key);
                &&& result == Ok::<bool, Halt>(true)
                &&& now.client_approved == (as_client || known && given.client_approved)
                &&& now.freelancer_approved == (as_freelancer || known && given.freelancer_approved)
                &&& now.arbiter_approved == (!as_client && !as_freelancer || known
                    && given.arbiter_approved)
                &&& as_client ==> caller == c.client
                &&& as_freelancer ==> caller == c.freelancer
                &&& !as_client && !as_freelancer ==> c.arbiter == Some(caller)
                &&& t == (State { approvals: s.approvals.insert(key, now), ..s })
            }
        }),
{
}

/// One whom the mode names releases a funded, open and approved milestone: the
/// freelancer, and nobody else, is paid its amount less the fee, the fee is retained,
/// and the approvals are gone. The last milestone to be settled completes the agreement
/// and earns the freelancer a credit.
pub proof fn law_release_milestone(
    env: &mut Env,
    contract_id: u32,
    caller: Address,
    milestone_index: u32,
    result: Result<bool, Halt>,
)
    requires
        old(env)@.wf(),
        ({
            let s = old(env)@;
            let key = s.contracts[contract_id].freelancer.id;
            s.reputation_credits.contains_key(key) ==> s.reputation_credits[key] < i128::MAX
        }),
        call_ensures(
            Escrow::release_milestone,
            (env, contract_id, caller, milestone_index),
            result,
        ),
    ensures
        result is Err ==> final(env)@ == old(env)@,
        ({
            let s = old(env)@;
            let t = final(env)@;
            let c = s.contracts[contract_id];
            let list = s.milestones[contract_id];
            let m = list[milestone_index as int];
            let mode = c.release_authorization;
            let named = {
                &&& mode == ReleaseAuthorization::ClientOnly ==> caller == c.client
                &&& mode == ReleaseAuthorization::ArbiterOnly ==> c.arbiter == Some(caller)
                &&& mode == ReleaseAuthorization::ClientAndArbiter ==> caller == c.client
                    || c.arbiter
                    == Some(caller)
                &&& mode == ReleaseAuthorization::MultiSig ==> caller == c.client || caller
                    == c.freelancer
            };
            let key = (contract_id * 0x1_0000_0000 + milestone_index) as u64;
            let given = s.approvals[key];
            let met = s.approvals.contains_key(key) && {
                &&& mode == ReleaseAuthorization::ClientOnly ==> given.client_approved
                &&& mode == ReleaseAuthorization::ArbiterOnly ==> given.arbiter_approved
                &&& mode == ReleaseAuthorization::ClientAndArbiter ==> given.client_approved
                    || given.arbiter_approved
                &&& mode == ReleaseAuthorization::MultiSig ==> given.client_approved
                    && given.freelancer_approved
            };
            let left = c.funded_amount - c.released_amount - c.refunded_amount;
            let credits = if s.reputation_credits.contains_key(c.freelancer.id) {
                s.reputation_credits[c.freelancer.id] as int
            } else {
                0
            };
            let fee = m.amount * s.config.protocol_fee_bps / 10_000;
            if !s.config.initialized {
                result == Err::<bool, Halt>(Halt::Failed(Error::NotInitialized))
            } else if s.config.emergency {
                result == Err::<bool, Halt>(Halt::Failed(Error::EmergencyActive))
            } else if s.config.paused {
                result == Err::<bool, Halt>(Halt::Failed(Error::ContractPaused))
            } else if !s.authorized.contains(caller) {
                result == Err::<bool, Halt>(Halt::AuthRequired(caller))
            } else if !s.contracts.contains_key(contract_id) {
                result == Err::<bool, Halt>(Halt::Failed(Error::ContractNotFound))
            } else if s.finalizations.contains_key(contract_id) {
                result == Err::<bool, Halt>(Halt::Failed(Error::AlreadyFinalized))
            } else if c.status != ContractStatus::Funded {
                result == Err::<bool, Halt>(Halt::Failed(Error::InvalidState))
            } else if !named {
                result == Err::<bool, Halt>(Halt::Failed(Error::UnauthorizedRole))
            } else if !s.milestones.contains_key(contract_id) {
                result == Err::<bool, Halt>(Halt::Failed(Error::ContractNotFound))
            } else if milestone_index >= list.len() {
                result == Err::<bool, Halt>(Halt::Failed(Error::InvalidMilestone))
            } else if m.released {
                result == Err::<bool, Halt>(Halt::Failed(Error::AlreadyReleased))
            } else if m.refunded {
                result == Err::<bool, Halt>(Halt::Failed(Error::AlreadyRefunded))
            } else if !met {
                result == Err::<bool, Halt>(Halt::Failed(Error::InsufficientApprovals))
            } else if m.funded_amount < m.amount || left < m.amount {
                result == Err::<bool, Halt>(Halt::Failed(Error::InsufficientFunds))
            } else if fee > m.amount {
                result == Err::<bool, Halt>(Halt::Failed(Error::PotentialOverflow))
            } else if left - s.config.accumulated_fees < m.amount {
                result == Err::<bool, Halt>(Halt::Failed(Error::InsufficientFunds))
            } else if s.config.settlement_token is None {
                result == Err::<bool, Halt>(Halt::Failed(Error::SettlementTokenNotConfigured))
            } else {
                let net = m.amount - fee;
                let after = list.update(
                    milestone_index as int,
                    Milestone { released: true, funded_amount: m.amount, ..m },
                );
                let done = forall|i: int|
                    0 <= i < after.len() ==> (#[trigger] after[i]).released || after[i].refunded;
                let d = t.contracts[contract_id];
                let paid = t.transfers.last();
                let told = Event::MilestoneReleased {
                    contract_id,
                    milestone_index,
                    amount: m.amount,
                    fee: fee as i128,
                    new_released_amount: d.released_amount,
                    caller,
                    timestamp: s.call.timestamp,
                };
                &&& result == Ok::<bool, Halt>(true)
                &&& d.released_amount == c.released_amount + net
                &&& d.status == if done {
                    ContractStatus::Completed
                } else {
                    ContractStatus::Funded
                }
                &&& t.contracts == s.contracts.insert(
                    contract_id,
                    Contract { released_amount: d.released_amount, status: d.status, ..c },
                )
                &&& t.config.accumulated_fees == s.config.accumulated_fees + fee
                &&& t.config == (Config { accumulated_fees: t.config.accumulated_fees, ..s.config })
                &&& paid.amount == net
                &&& paid.to == c.freelancer
                &&& paid.from == s.call.contract_address
                &&& Some(paid.token) == s.config.settlement_token
                &&& if done {
                    t.reputation_credits[c.freelancer.id] == credits + 1 && t.reputation_credits
                        == s.reputation_credits.insert(
                        c.freelancer.id,
                        t.reputation_credits[c.freelancer.id],
                    )
                } else {
                    t.reputation_credits == s.reputation_credits
                }
                &&& t == (State {
                    contracts: t.contracts,
                    config: t.config,
                    milestones: s.milestones.insert(contract_id, after),
                    approvals: s.approvals.remove(key),
                    transfers: s.transfers.push(paid),
                    reputation_credits: t.reputation_credits,
                    events: if done {
                        s.events.push(told).push(
                            Event::ContractCompleted {
                                contract_id,
                                caller,
                                timestamp: s.call.timestamp,
                            },
                        )
                    } else {
                        s.events.push(told)
                    },
                    ..s
                })
            }
        }),
{
    let s = old(env)@;
    let list = s.milestones[contract_id];
    let m = list[milestone_index as int];
    let bps = s.config.protocol_fee_bps;
    if s.contracts.contains_key(contract_id) && s.milestones.contains_key(contract_id)
        && milestone_index < list.len() {
        assert(s.contracts[contract_id].balanced());
        assert(milestones_sound(list));
        assert(m.sound());
        lemma_fee_bounds(m.amount, bps);
        lemma_fee_fits(m.amount, bps);
        if result is Ok {
            lemma_release_effect(s, contract_id, caller, milestone_index);
        }
    }
}

/// What the release of one milestone leaves behind, by its parts.
proof fn lemma_release_effect(
    s: State,
    contract_id: u32,
    caller: Address,
    milestone_index: u32,
)
    ensures
        ({
            let t = release_effect(s, contract_id, caller, milestone_index);
            let list = s.milestones[contract_id];
            let after = list.update(
                milestone_index as int,
                list[milestone_index as int].after_release(),
            );
            &&& t.approvals == s.approvals.remove(
                (contract_id * 0x1_0000_0000 + milestone_index) as u64,
            )
            &&& t.milestones == s.milestones.insert(contract_id, after)
            &&& (forall|i: int|
                0 <= i < after.len() ==> (#[trigger] after[i]).released || after[i].refunded)
                == all_settled(after)
            &&& t.transfers == s.transfers.push(t.transfers.last())
        }),
{
    let t = release_effect(s, contract_id, caller, milestone_index);
    let list = s.milestones[contract_id];
    let after = list.update(milestone_index as int, list[milestone_index as int].after_release());
    assert(t.approvals =~= s.approvals.remove(
        (contract_id * 0x1_0000_0000 + milestone_index) as u64,
    ));
    lemma_nothing_open(after);
}

/// Settled is released or refunded.
pub(crate) proof fn lemma_nothing_open(milestones: Seq<Milestone>)
    ensures
        (forall|i: int|
            0 <= i < milestones.len() ==> (#[trigger] milestones[i]).released
                || milestones[i].refunded) == all_settled(milestones),
{
    assert(forall|i: int|
        0 <= i < milestones.len() ==> (#[trigger] milestones[i]).settled() == (
        milestones[i].released || milestones[i].refunded));
    if all_settled(milestones) {
        assert forall|i: int| 0 <= i < milestones.len() implies (#[trigger] milestones[i]).released
            || milestones[i].refunded by {
            assert(milestones[i].settled());
        }
    }
}

/// A fee on an amount within the limits is charged unless it is more than the amount.
pub(crate) proof fn lemma_fee_fits(amount: i128, bps: u32)
    requires
        0 < amount <= MAX_SINGLE_AMOUNT_STROOPS,
    ensures
        fee_of(amount as int, bps) == amount * bps / 10_000,
        fee_unchargeable(amount, bps) == (amount * bps / 10_000 > amount),
{
    let product = amount * bps;
    assert(0 <= product <= 1_000_000_000_000_000 * 0x1_0000_0000) by (nonlinear_arith)
        requires
            product == amount * bps,
            0 < amount <= 1_000_000_000_000_000,
            bps <= 0xffff_ffff,
    ;
    assert(bps == 0 ==> product == 0) by (nonlinear_arith)
        requires
            product == amount * bps,
    ;
}

} // verus!
