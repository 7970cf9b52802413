//! Disputes: opening them, and dividing what is left by an arbiter's decision.
use vstd::prelude::*;
use crate::env::{answers, fail, Env, State};
use crate::escrow::Escrow;
use crate::event::Event;
use crate::types::{
    Address, Contract, ContractStatus, DisputeResolution, Error, Halt,
};

verus! {

/// The part of a partial refund that goes to the client, in percent.
pub const PARTIAL_REFUND_CLIENT_PERCENT: i128 = 70;

/// What a decision pays to the client and to the freelancer, out of what is left
/// of the agreement.
pub open spec fn payouts(contract: Contract, resolution: DisputeResolution) -> Result<
    (int, int),
    Error,
> {
    let available = contract.available();
    if contract.funded_amount - contract.released_amount < i128::MIN || contract.funded_amount
        - contract.released_amount > i128::MAX || available < i128::MIN || available > i128::MAX {
        Err(Error::PotentialOverflow)
    } else if available < 0 {
        Err(Error::AccountingInvariantViolated)
    } else {
        match resolution {
            DisputeResolution::FullRefund => Ok((available, 0int)),
            DisputeResolution::FullPayout => Ok((0int, available)),
            DisputeResolution::PartialRefund => {
                let client = available * PARTIAL_REFUND_CLIENT_PERCENT / 100;
                Ok((client, available - client))
            },
            DisputeResolution::Split(split) => if split.client_amount < 0
                || split.freelancer_amount < 0 || split.client_amount + split.freelancer_amount
                != available {
                Err(Error::InvalidDisputeSplit)
            } else {
                Ok((split.client_amount as int, split.freelancer_amount as int))
            },
        }
    }
}

/// The status of an agreement once its dispute is resolved: completed if anything
/// ever went to the freelancer, refunded otherwise.
pub open spec fn final_status(contract: Contract) -> ContractStatus {
    if contract.released_amount > 0 {
        ContractStatus::Completed
    } else {
        ContractStatus::Refunded
    }
}

/// Why a dispute is not opened.
pub open spec fn raise_refusal(s: State, contract_id: u32, caller: Address) -> Option<Halt> {
    let contract = s.contracts[contract_id];
    if !s.config.initialized {
        fail(Error::NotInitialized)
    } else if s.stopped() is Some {
        s.stopped()
    } else if !s.authorized.contains(caller) {
        Some(Halt::AuthRequired(caller))
    } else if s.closed(contract_id) is Some {
        s.closed(contract_id)
    } else if caller != contract.client && caller != contract.freelancer {
        fail(Error::UnauthorizedRole)
    } else if contract.arbiter is None {
        fail(Error::ArbiterRequired)
    } else if contract.status != ContractStatus::Funded && contract.status
        != ContractStatus::PartiallyFunded {
        fail(Error::InvalidState)
    } else {
        None
    }
}

/// What an opened dispute leaves behind.
pub open spec fn raise_effect(s: State, contract_id: u32, caller: Address) -> State {
    s.with_contract(
        contract_id,
        Contract { status: ContractStatus::Disputed, ..s.contracts[contract_id] },
    ).with_event(Event::DisputeOpened { contract_id, caller })
}

/// Why a decision is refused.
pub open spec fn resolve_refusal(
    s: State,
    contract_id: u32,
    arbiter: Address,
    resolution: DisputeResolution,
) -> Option<Halt> {
    let contract = s.contracts[contract_id];
    if !s.config.initialized {
        fail(Error::NotInitialized)
    } else if s.stopped() is Some {
        s.stopped()
    } else if !s.authorized.contains(arbiter) {
        Some(Halt::AuthRequired(arbiter))
    } else if s.closed(contract_id) is Some {
        s.closed(contract_id)
    } else if contract.status != ContractStatus::Disputed {
        fail(Error::InvalidStatusTransition)
    } else if contract.arbiter != Some(arbiter) {
        fail(Error::UnauthorizedRole)
    } else {
        match payouts(contract, resolution) {
            Err(error) => fail(error),
            Ok(_) => None,
        }
    }
}

/// What a decision leaves behind: both payouts are on the books of the agreement,
/// and it is completed or refunded. A completed agreement earns its freelancer a
/// reputation credit.
pub open spec fn resolve_effect(
    s: State,
    contract_id: u32,
    resolution: DisputeResolution,
) -> State {
    let before = s.contracts[contract_id];
    let (client_payout, freelancer_payout) = payouts(before, resolution)->Ok_0;
    let booked = Contract {
        refunded_amount: (before.refunded_amount + client_payout) as i128,
        released_amount: (before.released_amount + freelancer_payout) as i128,
        ..before
    };
    let resolved = s.with_contract(
        contract_id,
        Contract { status: final_status(booked), ..booked },
    ).with_event(
        Event::DisputeResolved { contract_id, resolution_code: resolution.code_spec() },
    );
    if final_status(booked) == ContractStatus::Completed {
        resolved.with_credit(before.freelancer)
    } else {
        resolved
    }
}

/// What a decision pays to the client and to the freelancer.
///
/// Fails with `InvalidDisputeSplit` where a split is negative or does not add up
/// to what is left, with `AccountingInvariantViolated` where more went out than
/// came in, and with `PotentialOverflow` where what is left does not fit its
/// integer.
pub fn resolution_payouts(contract: &Contract, resolution: &DisputeResolution) -> (result: Result<
    (i128, i128),
    Error,
>)
    ensures
        match result {
            Ok((client, freelancer)) => payouts(*contract, *resolution) == Ok::<(int, int), Error>(
                (client as int, freelancer as int),
            ),
            Err(error) => payouts(*contract, *resolution) == Err::<(int, int), Error>(error),
        },
{
    let unreleased: i128 = match contract.funded_amount.checked_sub(contract.released_amount) {
        Some(amount) => amount,
        None => return Err(Error::PotentialOverflow),
    };
    let available: i128 = match unreleased.checked_sub(contract.refunded_amount) {
        Some(amount) => amount,
        None => return Err(Error::PotentialOverflow),
    };
    if available < 0 {
        return Err(Error::AccountingInvariantViolated);
    }
    match resolution {
        DisputeResolution::FullRefund => Ok((available, 0)),
        DisputeResolution::FullPayout => Ok((0, available)),
        DisputeResolution::PartialRefund => {
            let client: i128 = (available / 100) * PARTIAL_REFUND_CLIENT_PERCENT + (available % 100)
                * PARTIAL_REFUND_CLIENT_PERCENT / 100;
            assert(client == available * PARTIAL_REFUND_CLIENT_PERCENT / 100);
            Ok((client, available - client))
        },
        DisputeResolution::Split(split) => {
            if split.client_amount < 0 || split.freelancer_amount < 0 || split.client_amount
                > available || available - split.client_amount != split.freelancer_amount {
                Err(Error::InvalidDisputeSplit)
            } else {
                Ok((split.client_amount, split.freelancer_amount))
            }
        },
    }
}

/// The status of an agreement once its dispute is resolved.
pub fn final_status_after_resolution(contract: &Contract) -> (status: ContractStatus)
    ensures
        status == final_status(*contract),
{
    if contract.released_amount > 0 {
        ContractStatus::Completed
    } else {
        ContractStatus::Refunded
    }
}

impl Escrow {
    /// Opens a dispute over a funded or partially funded agreement. Nothing is
    /// released from it until its arbiter decides.
    ///
    /// Only the client or the freelancer can open one, and only if the agreement
    /// has an arbiter.
    pub fn raise_dispute(env: &mut Env, contract_id: u32, caller: Address) -> (result: Result<
        bool,
        Halt,
    >)
        requires
            old(env)@.wf(),
        ensures
            answers(
                result,
                raise_refusal(old(env)@, contract_id, caller),
                old(env)@,
                final(env)@,
                raise_effect(old(env)@, contract_id, caller),
            ),
            final(env)@.wf(),
    {
        env.require_initialized()?;
        env.require_not_stopped()?;
        env.require_auth(caller)?;
        let contract = env.read_open_contract(contract_id)?;
        if caller != contract.client && caller != contract.freelancer {
            return Err(Halt::Failed(Error::UnauthorizedRole));
        }
        if contract.arbiter.is_none() {
            return Err(Halt::Failed(Error::ArbiterRequired));
        }
        if contract.status != ContractStatus::Funded && contract.status
            != ContractStatus::PartiallyFunded {
            return Err(Halt::Failed(Error::InvalidState));
        }
        let mut after = contract;
        after.status = ContractStatus::Disputed;
        env.write_contract(contract_id, after);
        env.publish(Event::DisputeOpened { contract_id, caller });
        Ok(true)
    }

    /// Applies the decision of the agreement's arbiter to all that is left of it.
    ///
    /// The decision is entered in the books of the agreement; no token moves.
    pub fn resolve_dispute(
        env: &mut Env,
        contract_id: u32,
        arbiter: Address,
        resolution: DisputeResolution,
    ) -> (result: Result<bool, Halt>)
        requires
            old(env)@.wf(),
            old(env)@.credit_room(contract_id),
        ensures
            answers(
                result,
                resolve_refusal(old(env)@, contract_id, arbiter, resolution),
                old(env)@,
                final(env)@,
                resolve_effect(old(env)@, contract_id, resolution),
            ),
            final(env)@.wf(),
    {
        env.require_initialized()?;
        env.require_not_stopped()?;
        env.require_auth(arbiter)?;
        let contract = env.read_open_contract(contract_id)?;
        if contract.status != ContractStatus::Disputed {
            return Err(Halt::Failed(Error::InvalidStatusTransition));
        }
        if contract.arbiter != Some(arbiter) {
            return Err(Halt::Failed(Error::UnauthorizedRole));
        }
        let (client_payout, freelancer_payout) = match resolution_payouts(&contract, &resolution) {
            Ok(pair) => pair,
            Err(error) => return Err(Halt::Failed(error)),
        };
        let mut after = contract;
        after.refunded_amount = contract.refunded_amount + client_payout;
        after.released_amount = contract.released_amount + freelancer_payout;
        after.status = final_status_after_resolution(&after);
        if after.status == ContractStatus::Completed {
            env.grant_pending_reputation_credit(contract.freelancer);
        }
        env.write_contract(contract_id, after);
        env.publish(Event::DisputeResolved { contract_id, resolution_code: resolution.code() });
        Ok(true)
    }
}

} // verus!
