//! Closing agreements for good.
use vstd::prelude::*;
use crate::env::{answers, fail, Env, State};
use crate::escrow::Escrow;
use crate::event::Event;
use crate::types::{Address, Contract, ContractStatus, Error, FinalizationRecord, Halt};

verus! {

broadcast use vstd::std_specs::hash::group_hash_axioms;

/// `address` is a party of the agreement.
pub open spec fn is_party(contract: Contract, address: Address) -> bool {
    address == contract.client || address == contract.freelancer || contract.arbiter == Some(
        address,
    )
}

/// Why an agreement is not finalized.
pub open spec fn finalize_refusal(s: State, contract_id: u32, finalizer: Address) -> Option<Halt> {
    let contract = s.contracts[contract_id];
    if s.stopped() is Some {
        s.stopped()
    } else if s.closed(contract_id) is Some {
        s.closed(contract_id)
    } else if !is_party(contract, finalizer) {
        fail(Error::UnauthorizedRole)
    } else if !s.authorized.contains(finalizer) {
        Some(Halt::AuthRequired(finalizer))
    } else if contract.status != ContractStatus::Completed && contract.status
        != ContractStatus::Disputed {
        fail(Error::InvalidStatusTransition)
    } else {
        None
    }
}

/// What a finalization leaves behind.
pub open spec fn finalize_effect(s: State, contract_id: u32, finalizer: Address) -> State {
    State {
        finalizations: s.finalizations.insert(
            contract_id,
            FinalizationRecord {
                finalizer,
                status: s.contracts[contract_id].status,
                finalized_at: s.call.timestamp,
            },
        ),
        ..s.with_event(
            Event::Finalized { contract_id, finalizer, timestamp: s.call.timestamp },
        )
    }
}

impl Escrow {
    /// Closes a completed or disputed agreement for good. Only one of its parties
    /// can close it.
    pub fn finalize_contract(env: &mut Env, contract_id: u32, finalizer: Address) -> (result: Result<
        bool,
        Halt,
    >)
        requires
            old(env)@.wf(),
        ensures
            answers(
                result,
                finalize_refusal(old(env)@, contract_id, finalizer),
                old(env)@,
                final(env)@,
                finalize_effect(old(env)@, contract_id, finalizer),
            ),
            final(env)@.wf(),
    {
        env.require_not_stopped()?;
        let contract = env.read_open_contract(contract_id)?;
        if finalizer != contract.client && finalizer != contract.freelancer && contract.arbiter
            != Some(finalizer) {
            return Err(Halt::Failed(Error::UnauthorizedRole));
        }
        env.require_auth(finalizer)?;
        if contract.status != ContractStatus::Completed && contract.status
            != ContractStatus::Disputed {
            return Err(Halt::Failed(Error::InvalidStatusTransition));
        }
        let timestamp: u64 = env.call.timestamp;
        env.finalizations.insert(
            contract_id,
            FinalizationRecord { finalizer, status: contract.status, finalized_at: timestamp },
        );
        env.publish(Event::Finalized { contract_id, finalizer, timestamp });
        Ok(true)
    }

    /// The close metadata of an agreement, `None` if it has not been finalized.
    pub fn get_finalization_record(env: &Env, contract_id: u32) -> (record: Option<
        FinalizationRecord,
    >)
        ensures
            record == (if env@.finalizations.contains_key(contract_id) {
                Some(env@.finalizations[contract_id])
            } else {
                None
            }),
    {
        match env.finalizations.get(&contract_id) {
            Some(record) => Some(*record),
            None => None,
        }
    }
}

} // verus!
