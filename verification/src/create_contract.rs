//! New agreements.
use vstd::prelude::*;
use crate::amount_validation::{
    accumulate_amounts, sum_of, sums_fit, MAX_MILESTONES, MAX_SINGLE_AMOUNT_STROOPS,
    MAX_TOTAL_ESCROW_STROOPS,
};
use crate::env::{fail, milestones_sound, Config, Env, State};
use crate::escrow::Escrow;
use crate::event::Event;
use crate::types::{
    Address, Contract, ContractStatus, Error, Halt, Milestone, ReleaseAuthorization,
};

verus! {

broadcast use vstd::std_specs::hash::group_hash_axioms;

/// A mode in which the arbiter has a say.
pub open spec fn needs_arbiter(mode: ReleaseAuthorization) -> bool {
    mode == ReleaseAuthorization::ArbiterOnly || mode == ReleaseAuthorization::ClientAndArbiter
}

/// The largest sum of milestone amounts that a new agreement may have.
pub open spec fn total_cap(s: State) -> i128 {
    match s.config.governed {
        Some(governed) => governed.max_escrow_total_stroops,
        None => MAX_TOTAL_ESCROW_STROOPS,
    }
}

/// Every amount is positive and within the limit of a single milestone.
pub open spec fn amounts_valid(amounts: Seq<i128>) -> bool {
    forall|i: int|
        0 <= i < amounts.len() ==> 0 < #[trigger] amounts[i] <= MAX_SINGLE_AMOUNT_STROOPS
}

/// Why a new agreement is refused.
pub open spec fn create_refusal(
    s: State,
    client: Address,
    freelancer: Address,
    arbiter: Option<Address>,
    amounts: Seq<i128>,
    mode: ReleaseAuthorization,
) -> Option<Halt> {
    if !s.config.initialized {
        fail(Error::NotInitialized)
    } else if s.freeze() is Some {
        s.freeze()
    } else if client == freelancer {
        fail(Error::InvalidParticipant)
    } else if arbiter is None && needs_arbiter(mode) {
        fail(Error::MissingArbiter)
    } else if arbiter == Some(client) || arbiter == Some(freelancer) {
        fail(Error::InvalidArbiter)
    } else if amounts.len() == 0 {
        fail(Error::EmptyMilestones)
    } else if amounts.len() > MAX_MILESTONES {
        fail(Error::TooManyMilestones)
    } else if !amounts_valid(amounts) {
        fail(Error::InvalidMilestoneAmount)
    } else if sum_of(amounts, amounts.len()) > total_cap(s) {
        fail(Error::TotalCapExceeded)
    } else if !s.authorized.contains(client) {
        Some(Halt::AuthRequired(client))
    } else if s.contracts.contains_key(s.config.next_contract_id) {
        fail(Error::ContractIdCollision)
    } else if s.config.next_contract_id == u32::MAX {
        fail(Error::ContractIdOverflow)
    } else {
        None
    }
}

/// A milestone that nothing has happened to.
pub open spec fn fresh_milestone(amount: i128) -> Milestone {
    Milestone {
        amount,
        funded_amount: 0,
        released: false,
        refunded: false,
        work_evidence: None,
        refunded_amount: 0,
        deadline: None,
    }
}

/// What a new agreement leaves behind.
pub open spec fn create_effect(
    s: State,
    client: Address,
    freelancer: Address,
    arbiter: Option<Address>,
    amounts: Seq<i128>,
    mode: ReleaseAuthorization,
) -> State {
    let contract_id = s.config.next_contract_id;
    s.with_contract(
        contract_id,
        Contract {
            client,
            freelancer,
            arbiter,
            status: ContractStatus::Created,
            total_deposited: 0,
            funded_amount: 0,
            released_amount: 0,
            refunded_amount: 0,
            release_authorization: mode,
            reputation_issued: false,
        },
    ).with_milestones(contract_id, amounts.map_values(|a: i128| fresh_milestone(a))).with_config(
        Config { next_contract_id: (contract_id + 1) as u32, ..s.config },
    ).with_event(
        Event::ContractCreated {
            contract_id,
            client,
            freelancer,
            timestamp: s.call.timestamp,
        },
    )
}

/// The sums of valid amounts stay small.
proof fn lemma_valid_sums(amounts: Seq<i128>, n: nat)
    requires
        amounts_valid(amounts),
        amounts.len() <= MAX_MILESTONES,
        n <= amounts.len(),
    ensures
        0 <= sum_of(amounts, n) <= n * MAX_SINGLE_AMOUNT_STROOPS,
    decreases n,
{
    if n > 0 {
        lemma_valid_sums(amounts, (n - 1) as nat);
        assert(0 < amounts[n - 1] <= MAX_SINGLE_AMOUNT_STROOPS);
    }
}

/// Whether every amount is positive and within the limit of a single milestone.
fn check_amounts(amounts: &Vec<i128>) -> (valid: bool)
    ensures
        valid == amounts_valid(amounts@),
{
    for i in 0..amounts.len()
        invariant
            forall|j: int|
                0 <= j < i ==> 0 < #[trigger] amounts@[j] <= MAX_SINGLE_AMOUNT_STROOPS,
    {
        if amounts[i] <= 0 || amounts[i] > MAX_SINGLE_AMOUNT_STROOPS {
            assert(!(0 < amounts@[i as int] <= MAX_SINGLE_AMOUNT_STROOPS));
            return false;
        }
    }
    true
}

/// Milestones of the given amounts that nothing has happened to.
fn make_milestones(amounts: &Vec<i128>) -> (milestones: Vec<Milestone>)
    ensures
        milestones@ == amounts@.map_values(|a: i128| fresh_milestone(a)),
{
    let mut milestones: Vec<Milestone> = Vec::new();
    for i in 0..amounts.len()
        invariant
            milestones@.len() == i,
            forall|j: int| 0 <= j < i ==> #[trigger] milestones@[j] == fresh_milestone(amounts@[j]),
    {
        milestones.push(
            Milestone {
                amount: amounts[i],
                funded_amount: 0,
                released: false,
                refunded: false,
                work_evidence: None,
                refunded_amount: 0,
                deadline: None,
            },
        );
    }
    assert(milestones@ =~= amounts@.map_values(|a: i128| fresh_milestone(a)));
    milestones
}

impl Escrow {
    /// Makes a new agreement with one milestone per amount, in stroops, and
    /// returns its id. Ids are handed out in order.
    pub fn create_contract(
        env: &mut Env,
        client: Address,
        freelancer: Address,
        arbiter: Option<Address>,
        milestones: Vec<i128>,
        release_authorization: ReleaseAuthorization,
    ) -> (result: Result<u32, Halt>)
        requires
            old(env)@.wf(),
        ensures
            match result {
                Ok(contract_id) => {
                    &&& create_refusal(
                        old(env)@,
                        client,
                        freelancer,
                        arbiter,
                        milestones@,
                        release_authorization,
                    ) is None
                    &&& contract_id == old(env)@.config.next_contract_id
                    &&& final(env)@ == create_effect(
                        old(env)@,
                        client,
                        freelancer,
                        arbiter,
                        milestones@,
                        release_authorization,
                    )
                },
                Err(halt) => {
                    &&& create_refusal(
                        old(env)@,
                        client,
                        freelancer,
                        arbiter,
                        milestones@,
                        release_authorization,
                    ) == Some(halt)
                    &&& final(env)@ == old(env)@
                },
            },
            final(env)@.wf(),
    {
        env.require_initialized()?;
        env.require_not_paused()?;
        if client == freelancer {
            return Err(Halt::Failed(Error::InvalidParticipant));
        }
        match arbiter {
            None => {
                if release_authorization == ReleaseAuthorization::ArbiterOnly
                    || release_authorization == ReleaseAuthorization::ClientAndArbiter {
                    return Err(Halt::Failed(Error::MissingArbiter));
                }
            },
            Some(address) => {
                if address == client || address == freelancer {
                    return Err(Halt::Failed(Error::InvalidArbiter));
                }
            },
        }
        if milestones.len() == 0 {
            return Err(Halt::Failed(Error::EmptyMilestones));
        }
        if milestones.len() > MAX_MILESTONES as usize {
            return Err(Halt::Failed(Error::TooManyMilestones));
        }
        if !check_amounts(&milestones) {
            return Err(Halt::Failed(Error::InvalidMilestoneAmount));
        }
        let cap: i128 = match env.config.governed {
            Some(governed) => governed.max_escrow_total_stroops,
            None => MAX_TOTAL_ESCROW_STROOPS,
        };
        proof {
            assert forall|n: nat| n <= milestones@.len() implies i128::MIN <= #[trigger] sum_of(
                milestones@,
                n,
            ) <= i128::MAX by {
                lemma_valid_sums(milestones@, n);
            }
            assert(sums_fit(milestones@));
        }
        let total: i128 = match accumulate_amounts(&milestones) {
            Ok(total) => total,
            Err(_) => return Err(Halt::Failed(Error::TotalCapExceeded)),
        };
        if total > cap {
            return Err(Halt::Failed(Error::TotalCapExceeded));
        }
        env.require_auth(client)?;
        let contract_id: u32 = env.config.next_contract_id;
        if env.contracts.contains_key(&contract_id) {
            return Err(Halt::Failed(Error::ContractIdCollision));
        }
        if contract_id == u32::MAX {
            return Err(Halt::Failed(Error::ContractIdOverflow));
        }
        let list = make_milestones(&milestones);
        assert(milestones_sound(list@)) by {
            assert forall|i: int| 0 <= i < list@.len() implies (#[trigger] list@[i]).sound() by {
                assert(0 < milestones@[i] <= MAX_SINGLE_AMOUNT_STROOPS);
            }
        }
        env.write_contract(
            contract_id,
            Contract {
                client,
                freelancer,
                arbiter,
                status: ContractStatus::Created,
                total_deposited: 0,
                funded_amount: 0,
                released_amount: 0,
                refunded_amount: 0,
                release_authorization,
                reputation_issued: false,
            },
        );
        env.write_milestones(contract_id, list);
        env.config.next_contract_id = contract_id + 1;
        let timestamp: u64 = env.call.timestamp;
        env.publish(Event::ContractCreated { contract_id, client, freelancer, timestamp });
        Ok(contract_id)
    }
}

} // verus!
