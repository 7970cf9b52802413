//! Taking stored records in.
use vstd::prelude::*;
use crate::env::{compute_approval_slot, Config, Env, Invocation, State};
use crate::types::{Address, Contract, Milestone, ReadinessChecklist, Reputation, ReputationView};

verus! {

/// An environment starts with its settings and nothing else, if the settings go
/// together.
pub proof fn law_new(call: Invocation, config: Config, result: Option<Env>)
    requires
        call_ensures(Env::new, (call, config), result),
    ensures
        result is Some <==> {
            &&& config.initialized ==> config.admin is Some
            &&& config.emergency ==> config.paused
            &&& config.accumulated_fees >= 0
            &&& config.next_contract_id >= 1
        },
        result matches Some(env) ==> {
            &&& env@.call == call
            &&& env@.config == config
            &&& env@.authorized.len() == 0
            &&& env@.transfers.len() == 0
            &&& env@.events.len() == 0
            &&& forall|id: u32| !env@.contracts.contains_key(id)
            &&& forall|id: u32| !env@.milestones.contains_key(id)
            &&& forall|id: u32| !env@.finalizations.contains_key(id)
            &&& forall|id: u32| !env@.migrations.contains_key(id)
            &&& forall|id: u32| !env@.reputation_issued.contains_key(id)
            &&& forall|id: u32| !env@.reputation_comments.contains_key(id)
            &&& forall|key: u64| !env@.approvals.contains_key(key)
            &&& forall|key: u64| !env@.token_probes.contains_key(key)
            &&& forall|key: u64| !env@.reputation_credits.contains_key(key)
            &&& forall|key: u64| !env@.reputations.contains_key(key)
        },
{
}

/// An agreement is taken in as it is, if nothing on its books is negative, all that
/// came in is on record, and no more went out than came in.
pub proof fn law_load_contract(env: &mut Env, contract_id: u32, contract: Contract, taken: bool)
    requires
        call_ensures(Env::load_contract, (env, contract_id, contract), taken),
    ensures
        taken == (contract.funded_amount >= 0 && contract.total_deposited
            == contract.funded_amount && contract.released_amount >= 0
            && contract.refunded_amount >= 0 && contract.released_amount
            + contract.refunded_amount <= contract.funded_amount),
        !taken ==> final(env)@ == old(env)@,
        taken ==> final(env)@ == (State {
            contracts: old(env)@.contracts.insert(contract_id, contract),
            ..old(env)@
        }),
{
}

/// Milestones are taken in as they are, if there are no more than ten and each is
/// within its limits: a positive amount of at most 10^15, funded no further than that,
/// released only if fully funded, not both released and refunded, and refunded with
/// its amount or not at all.
pub proof fn law_load_milestones(
    env: &mut Env,
    contract_id: u32,
    milestones: Vec<Milestone>,
    taken: bool,
)
    requires
        call_ensures(Env::load_milestones, (env, contract_id, milestones), taken),
    ensures
        taken == (milestones@.len() <= 10 && forall|i: int|
            0 <= i < milestones@.len() ==> {
                let m = #[trigger] milestones@[i];
                &&& 0 < m.amount <= 1_000_000_000_000_000
                &&& 0 <= m.funded_amount <= m.amount
                &&& m.released ==> m.funded_amount == m.amount && !m.refunded
                &&& m.refunded ==> m.refunded_amount == m.amount
                &&& !m.refunded ==> m.refunded_amount == 0
            }),
        !taken ==> final(env)@ == old(env)@,
        taken ==> final(env)@ == (State {
            milestones: old(env)@.milestones.insert(contract_id, milestones@),
            ..old(env)@
        }),
{
    assert(forall|i: int|
        0 <= i < milestones@.len() ==> (#[trigger] milestones@[i]).sound() == {
            let m = milestones@[i];
            &&& 0 < m.amount <= 1_000_000_000_000_000
            &&& 0 <= m.funded_amount <= m.amount
            &&& m.released ==> m.funded_amount == m.amount && !m.refunded
            &&& m.refunded ==> m.refunded_amount == m.amount
            &&& !m.refunded ==> m.refunded_amount == 0
        });
}

/// Ratings are taken in as they are, if each can have been between one and five.
pub proof fn law_load_reputation(
    env: &mut Env,
    address: Address,
    reputation: Reputation,
    taken: bool,
)
    requires
        call_ensures(Env::load_reputation, (env, address, reputation), taken),
    ensures
        taken == (0 <= reputation.completed_contracts <= reputation.total_rating
            && reputation.total_rating <= 5 * reputation.completed_contracts && 0
            <= reputation.last_rating <= 5),
        !taken ==> final(env)@ == old(env)@,
        taken ==> final(env)@ == (State {
            reputations: old(env)@.reputations.insert(address.id, reputation),
            ..old(env)@
        }),
{
}

/// Credits are taken in as they are, if they are not negative.
pub proof fn law_load_credits(env: &mut Env, address: Address, credits: i128, taken: bool)
    requires
        call_ensures(Env::load_credits, (env, address, credits), taken),
    ensures
        taken == (credits >= 0),
        !taken ==> final(env)@ == old(env)@,
        taken ==> final(env)@ == (State {
            reputation_credits: old(env)@.reputation_credits.insert(address.id, credits),
            ..old(env)@
        }),
{
}

/// The key of a milestone's approvals tells both the agreement and the milestone.
pub proof fn law_compute_approval_slot(contract_id: u32, milestone_index: u32, slot: u64)
    requires
        call_ensures(compute_approval_slot, (contract_id, milestone_index), slot),
    ensures
        slot / 0x1_0000_0000 == contract_id,
        slot % 0x1_0000_0000 == milestone_index,
{
}

/// An escrow that nobody has set up has nothing set, and hands out ids from one on.
pub proof fn law_default_config(config: Config)
    requires
        call_ensures(Config::default, (), config),
    ensures
        !config.initialized,
        config.admin is None,
        config.settlement_token is None,
        !config.paused,
        !config.emergency,
        !config.checklist.initialized,
        !config.checklist.governed_params_set,
        !config.checklist.emergency_controls_enabled,
        config.protocol_fee_bps == 0,
        config.accumulated_fees == 0,
        config.pending_admin is None,
        config.governed is None,
        config.next_contract_id == 1,
{
}

/// A checklist starts with nothing done.
pub proof fn law_default_checklist(checklist: ReadinessChecklist)
    requires
        call_ensures(ReadinessChecklist::default, (), checklist),
    ensures
        !checklist.initialized,
        !checklist.governed_params_set,
        !checklist.emergency_controls_enabled,
{
}

/// Nobody starts with ratings.
pub proof fn law_default_reputation(reputation: Reputation, combined: ReputationView)
    requires
        call_ensures(Reputation::default, (), reputation),
        call_ensures(ReputationView::default, (), combined),
    ensures
        reputation.completed_contracts == 0,
        reputation.total_rating == 0,
        reputation.last_rating == 0,
        combined.completed_contracts == 0,
        combined.total_rating == 0,
        combined.last_rating == 0,
        combined.average_rating_bps == 0,
        combined.pending_credits == 0,
{
}

} // verus!
