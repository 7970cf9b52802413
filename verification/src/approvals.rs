//! Approvals of milestone releases.
use vstd::prelude::*;
use crate::env::{answers, approval_slot, compute_approval_slot, fail, Env, State};
use crate::escrow::Escrow;
use crate::types::{
    Address, Contract, ContractStatus, Error, Halt, MilestoneApprovals, ReleaseAuthorization,
};

verus! {

broadcast use vstd::std_specs::hash::group_hash_axioms;

impl MilestoneApprovals {
    /// Nobody has approved.
    pub open spec fn none() -> MilestoneApprovals {
        MilestoneApprovals {
            client_approved: false,
            freelancer_approved: false,
            arbiter_approved: false,
        }
    }
}

/// The approvals that `mode` asks for are there. Without a live record nobody has
/// approved.
pub open spec fn approved(
    mode: ReleaseAuthorization,
    approvals: Option<MilestoneApprovals>,
) -> bool {
    match approvals {
        None => false,
        Some(a) => match mode {
            ReleaseAuthorization::ClientOnly => a.client_approved,
            ReleaseAuthorization::ArbiterOnly => a.arbiter_approved,
            ReleaseAuthorization::ClientAndArbiter => a.client_approved || a.arbiter_approved,
            ReleaseAuthorization::MultiSig => a.client_approved && a.freelancer_approved,
        },
    }
}

/// The record after `caller`, who may release under the contract's mode, approved.
pub open spec fn stamped(
    contract: Contract,
    caller: Address,
    a: MilestoneApprovals,
) -> MilestoneApprovals {
    match contract.release_authorization {
        ReleaseAuthorization::ClientOnly => MilestoneApprovals { client_approved: true, ..a },
        ReleaseAuthorization::ArbiterOnly => MilestoneApprovals { arbiter_approved: true, ..a },
        ReleaseAuthorization::ClientAndArbiter => if caller == contract.client {
            MilestoneApprovals { client_approved: true, ..a }
        } else {
            MilestoneApprovals { arbiter_approved: true, ..a }
        },
        ReleaseAuthorization::MultiSig => if caller == contract.client {
            MilestoneApprovals { client_approved: true, ..a }
        } else {
            MilestoneApprovals { freelancer_approved: true, ..a }
        },
    }
}

/// The approvals on record for a milestone, none without a live record.
pub open spec fn current_approvals(
    s: State,
    contract_id: u32,
    milestone_index: u32,
) -> MilestoneApprovals {
    match s.approvals_of(contract_id, milestone_index) {
        Some(a) => a,
        None => MilestoneApprovals::none(),
    }
}

/// Why an approval is refused.
pub open spec fn approve_refusal(
    s: State,
    contract_id: u32,
    caller: Address,
    milestone_index: u32,
) -> Option<Halt> {
    let contract = s.contracts[contract_id];
    let milestones = s.milestones[contract_id];
    let milestone = milestones[milestone_index as int];
    let current = current_approvals(s, contract_id, milestone_index);
    if s.freeze() is Some {
        s.freeze()
    } else if s.finalizations.contains_key(contract_id) {
        fail(Error::AlreadyFinalized)
    } else if !s.authorized.contains(caller) {
        Some(Halt::AuthRequired(caller))
    } else if !s.contracts.contains_key(contract_id) {
        fail(Error::ContractNotFound)
    } else if contract.status != ContractStatus::Funded {
        fail(Error::InvalidState)
    } else if !contract.may_release(caller) {
        fail(Error::UnauthorizedRole)
    } else if !s.milestones.contains_key(contract_id) {
        fail(Error::ContractNotFound)
    } else if milestone_index >= milestones.len() {
        fail(Error::IndexOutOfBounds)
    } else if milestone.released {
        fail(Error::AlreadyReleased)
    } else if milestone.refunded {
        fail(Error::AlreadyRefunded)
    } else if stamped(contract, caller, current) == current {
        fail(Error::AlreadyApproved)
    } else {
        None
    }
}

/// What an accepted approval leaves behind.
pub open spec fn approve_effect(
    s: State,
    contract_id: u32,
    caller: Address,
    milestone_index: u32,
) -> State {
    State {
        approvals: s.approvals.insert(
            approval_slot(contract_id, milestone_index),
            stamped(
                s.contracts[contract_id],
                caller,
                current_approvals(s, contract_id, milestone_index),
            ),
        ),
        ..s
    }
}

/// Whether the approvals that the contract's mode asks for are there.
pub(crate) fn check_approvals(
    env: &Env,
    contract: &Contract,
    contract_id: u32,
    milestone_index: u32,
) -> (result: Result<(), Halt>)
    ensures
        result == (if approved(
            contract.release_authorization,
            env@.approvals_of(contract_id, milestone_index),
        ) {
            Ok::<(), Halt>(())
        } else {
            Err(Halt::Failed(Error::InsufficientApprovals))
        }),
{
    let enough = match env.read_approvals(contract_id, milestone_index) {
        None => false,
        Some(a) => match contract.release_authorization {
            ReleaseAuthorization::ClientOnly => a.client_approved,
            ReleaseAuthorization::ArbiterOnly => a.arbiter_approved,
            ReleaseAuthorization::ClientAndArbiter => a.client_approved || a.arbiter_approved,
            ReleaseAuthorization::MultiSig => a.client_approved && a.freelancer_approved,
        },
    };
    if enough {
        Ok(())
    } else {
        Err(Halt::Failed(Error::InsufficientApprovals))
    }
}

/// The record after `caller` approved, or `None` where `caller` approved before.
fn stamp(contract: &Contract, caller: Address, a: MilestoneApprovals) -> (result: Option<
    MilestoneApprovals,
>)
    ensures
        match result {
            Some(after) => after == stamped(*contract, caller, a) && after != a,
            None => stamped(*contract, caller, a) == a,
        },
{
    let as_client = match contract.release_authorization {
        ReleaseAuthorization::ClientOnly => true,
        ReleaseAuthorization::ArbiterOnly => false,
        ReleaseAuthorization::ClientAndArbiter => caller == contract.client,
        ReleaseAuthorization::MultiSig => caller == contract.client,
    };
    let mut after = a;
    if as_client {
        if a.client_approved {
            return None;
        }
        after.client_approved = true;
    } else if contract.release_authorization == ReleaseAuthorization::MultiSig {
        if a.freelancer_approved {
            return None;
        }
        after.freelancer_approved = true;
    } else {
        if a.arbiter_approved {
            return None;
        }
        after.arbiter_approved = true;
    }
    Some(after)
}

impl Escrow {
    /// Records the caller's approval of a milestone.
    ///
    /// Who approves depends on the contract's mode: the client, the arbiter, one
    /// of the two, or both the client and the freelancer. An approval is refused
    /// the second time.
    pub fn approve_milestone_release(
        env: &mut Env,
        contract_id: u32,
        caller: Address,
        milestone_index: u32,
    ) -> (result: Result<bool, Halt>)
        requires
            old(env)@.wf(),
        ensures
            answers(
                result,
                approve_refusal(old(env)@, contract_id, caller, milestone_index),
                old(env)@,
                final(env)@,
                approve_effect(old(env)@, contract_id, caller, milestone_index),
            ),
            final(env)@.wf(),
    {
        env.require_not_paused()?;
        if env.finalizations.contains_key(&contract_id) {
            return Err(Halt::Failed(Error::AlreadyFinalized));
        }
        env.require_auth(caller)?;
        let contract = env.read_contract(contract_id)?;
        if contract.status != ContractStatus::Funded {
            return Err(Halt::Failed(Error::InvalidState));
        }
        if !contract.check_may_release(caller) {
            return Err(Halt::Failed(Error::UnauthorizedRole));
        }
        let milestones = env.read_milestones(contract_id)?;
        if milestone_index as usize >= milestones.len() {
            return Err(Halt::Failed(Error::IndexOutOfBounds));
        }
        if milestones[milestone_index as usize].released {
            return Err(Halt::Failed(Error::AlreadyReleased));
        }
        if milestones[milestone_index as usize].refunded {
            return Err(Halt::Failed(Error::AlreadyRefunded));
        }
        let current = match env.read_approvals(contract_id, milestone_index) {
            Some(a) => a,
            None => MilestoneApprovals {
                client_approved: false,
                freelancer_approved: false,
                arbiter_approved: false,
            },
        };
        match stamp(&contract, caller, current) {
            None => Err(Halt::Failed(Error::AlreadyApproved)),
            Some(after) => {
                env.approvals.insert(compute_approval_slot(contract_id, milestone_index), after);
                Ok(true)
            },
        }
    }
}

} // verus!
