//! Questions about agreements, which change nothing.
use vstd::prelude::*;
use crate::amount_validation::{
    accumulate_amounts, amounts_of, collect_amounts, lemma_sums_bounded, sum_of,
    sum_of_milestones, sums_fit,
};
use crate::env::{Env, State};
use crate::escrow::Escrow;
use crate::ttl::{compute_expiry, expiry, PENDING_APPROVAL_TTL_LEDGERS};
use crate::types::{
    Contract, ContractSummary, Error, Halt, Milestone, MilestoneApprovals, MilestoneSummary,
    CONTRACT_SUMMARY_SCHEMA_VERSION,
};

verus! {

broadcast use vstd::std_specs::hash::group_hash_axioms;

/// How many of the first `n` milestones are released.
pub open spec fn released_count(milestones: Seq<Milestone>, n: nat) -> nat
    decreases n,
{
    if n == 0 {
        0
    } else {
        released_count(milestones, (n - 1) as nat) + (if milestones[n - 1].released {
            1nat
        } else {
            0nat
        })
    }
}

/// The summary of one milestone.
pub open spec fn milestone_summary(milestones: Seq<Milestone>, i: int) -> MilestoneSummary {
    MilestoneSummary {
        index: i as u32,
        amount: milestones[i].amount,
        released: milestones[i].released,
        refunded: milestones[i].refunded,
    }
}

/// `summary` describes the agreement in `s`.
pub open spec fn summarizes(s: State, contract_id: u32, summary: ContractSummary) -> bool {
    let contract = s.contracts[contract_id];
    let milestones = s.milestones[contract_id];
    &&& summary.schema_version == CONTRACT_SUMMARY_SCHEMA_VERSION
    &&& summary.client == contract.client
    &&& summary.freelancer == contract.freelancer
    &&& summary.arbiter == contract.arbiter
    &&& summary.status == contract.status
    &&& summary.reputation_issued == (if s.reputation_issued.contains_key(contract_id) {
        s.reputation_issued[contract_id]
    } else {
        contract.reputation_issued
    })
    &&& summary.total_amount == sum_of_milestones(milestones)
    &&& summary.funded_amount == contract.funded_amount
    &&& summary.released_amount == contract.released_amount
    &&& summary.refundable_balance == contract.available()
    &&& summary.released_milestone_count == released_count(milestones, milestones.len())
    &&& summary.milestones@ == Seq::new(
        milestones.len(),
        |i: int| milestone_summary(milestones, i),
    )
}

impl Escrow {
    /// Whether an agreement with this id is on record.
    pub fn contract_exists(env: &Env, contract_id: u32) -> (exists_: bool)
        ensures
            exists_ == env@.contracts.contains_key(contract_id),
    {
        env.contracts.contains_key(&contract_id)
    }

    /// An agreement. Fails with `ContractNotFound` for an unknown id.
    pub fn get_contract(env: &Env, contract_id: u32) -> (result: Result<Contract, Halt>)
        ensures
            result == (if env@.contracts.contains_key(contract_id) {
                Ok::<Contract, Halt>(env@.contracts[contract_id])
            } else {
                Err(Halt::Failed(Error::ContractNotFound))
            }),
    {
        env.read_contract(contract_id)
    }

    /// The id that the next agreement gets.
    pub fn get_next_contract_id(env: &Env) -> (contract_id: u32)
        ensures
            contract_id == env@.config.next_contract_id,
    {
        env.config.next_contract_id
    }

    /// An agreement and its milestones in one record. Fails with
    /// `ContractNotFound` for an unknown id.
    pub fn get_contract_summary(env: &Env, contract_id: u32) -> (result: Result<
        ContractSummary,
        Halt,
    >)
        requires
            env@.wf(),
        ensures
            match result {
                Ok(summary) => {
                    &&& env@.contracts.contains_key(contract_id)
                    &&& env@.milestones.contains_key(contract_id)
                    &&& summarizes(env@, contract_id, summary)
                },
                Err(halt) => {
                    &&& !env@.contracts.contains_key(contract_id)
                        || !env@.milestones.contains_key(contract_id)
                    &&& halt == Halt::Failed(Error::ContractNotFound)
                },
            },
    {
        let contract = env.read_contract(contract_id)?;
        let milestones = env.read_milestones(contract_id)?;
        proof {
            assert forall|n: nat| n <= milestones@.len() implies i128::MIN <= #[trigger] sum_of(
                amounts_of(milestones@),
                n,
            ) <= i128::MAX by {
                lemma_sums_bounded(milestones@, n);
            }
            assert(sums_fit(amounts_of(milestones@)));
        }
        let total_amount: i128 = match accumulate_amounts(&collect_amounts(milestones)) {
            Ok(total) => total,
            Err(error) => return Err(Halt::Failed(error)),
        };
        let mut released_milestone_count: u32 = 0;
        let mut summaries: Vec<MilestoneSummary> = Vec::new();
        for i in 0..milestones.len()
            invariant
                milestones@.len() <= u32::MAX,
                released_milestone_count <= i,
                released_milestone_count == released_count(milestones@, i as nat),
                summaries@.len() == i,
                forall|j: int|
                    0 <= j < i ==> #[trigger] summaries@[j] == milestone_summary(milestones@, j),
        {
            if milestones[i].released {
                released_milestone_count = released_milestone_count + 1;
            }
            summaries.push(
                MilestoneSummary {
                    index: i as u32,
                    amount: milestones[i].amount,
                    released: milestones[i].released,
                    refunded: milestones[i].refunded,
                },
            );
        }
        assert(summaries@ =~= Seq::new(
            milestones@.len(),
            |i: int| milestone_summary(milestones@, i),
        ));
        let reputation_issued: bool = match env.reputation_issued.get(&contract_id) {
            Some(issued) => *issued,
            None => contract.reputation_issued,
        };
        Ok(
            ContractSummary {
                schema_version: CONTRACT_SUMMARY_SCHEMA_VERSION,
                client: contract.client,
                freelancer: contract.freelancer,
                arbiter: contract.arbiter,
                status: contract.status,
                reputation_issued,
                total_amount,
                funded_amount: contract.funded_amount,
                released_amount: contract.released_amount,
                refundable_balance: contract.compute_available(),
                released_milestone_count,
                milestones: summaries,
            },
        )
    }

    /// The milestones of an agreement. Fails with `ContractNotFound` for an
    /// unknown id.
    pub fn get_milestones(env: &Env, contract_id: u32) -> (result: Result<&Vec<Milestone>, Halt>)
        ensures
            match result {
                Ok(list) => env@.milestones.contains_key(contract_id) && list@
                    == env@.milestones[contract_id],
                Err(halt) => !env@.milestones.contains_key(contract_id) && halt == Halt::Failed(
                    Error::ContractNotFound,
                ),
            },
    {
        env.read_milestones(contract_id)
    }

    /// One milestone, `None` if the index is out of bounds. Fails with
    /// `ContractNotFound` for an unknown id.
    pub fn get_milestone(env: &Env, contract_id: u32, milestone_index: u32) -> (result: Result<
        Option<&Milestone>,
        Halt,
    >)
        ensures
            match result {
                Ok(Some(milestone)) => {
                    &&& env@.milestones.contains_key(contract_id)
                    &&& milestone_index < env@.milestones[contract_id].len()
                    &&& *milestone == env@.milestones[contract_id][milestone_index as int]
                },
                Ok(None) => {
                    &&& env@.milestones.contains_key(contract_id)
                    &&& milestone_index >= env@.milestones[contract_id].len()
                },
                Err(halt) => !env@.milestones.contains_key(contract_id) && halt == Halt::Failed(
                    Error::ContractNotFound,
                ),
            },
    {
        let milestones = env.read_milestones(contract_id)?;
        if milestone_index as usize >= milestones.len() {
            return Ok(None);
        }
        Ok(Some(&milestones[milestone_index as usize]))
    }

    /// What is neither released nor refunded of an agreement. Fails with
    /// `ContractNotFound` for an unknown id.
    pub fn get_refundable_balance(env: &Env, contract_id: u32) -> (result: Result<i128, Halt>)
        requires
            env@.wf(),
        ensures
            match result {
                Ok(balance) => env@.contracts.contains_key(contract_id) && balance
                    == env@.contracts[contract_id].available(),
                Err(halt) => !env@.contracts.contains_key(contract_id) && halt == Halt::Failed(
                    Error::ContractNotFound,
                ),
            },
    {
        let contract = env.read_contract(contract_id)?;
        Ok(contract.compute_available())
    }

    /// Who approved the release of a milestone, `None` without a live approval.
    pub fn get_milestone_approvals(env: &Env, contract_id: u32, milestone_index: u32) -> (approvals:
        Option<MilestoneApprovals>)
        ensures
            approvals == env@.approvals_of(contract_id, milestone_index),
    {
        env.read_approvals(contract_id, milestone_index)
    }

    /// The ledgers that an approval has left if it is renewed now, `None` without a
    /// live approval.
    pub fn get_approval_deadline(env: &Env, contract_id: u32, milestone_index: u32) -> (remaining:
        Option<u32>)
        ensures
            remaining == (match env@.approvals_of(contract_id, milestone_index) {
                Some(_) => Some(
                    (expiry(env@.call.sequence, PENDING_APPROVAL_TTL_LEDGERS)
                        - env@.call.sequence) as u32,
                ),
                None => None,
            }),
    {
        match env.read_approvals(contract_id, milestone_index) {
            Some(_) => {
                let ledger: u32 = compute_expiry(env, PENDING_APPROVAL_TTL_LEDGERS);
                Some(ledger - env.call.sequence)
            },
            None => None,
        }
    }
}

} // verus!
