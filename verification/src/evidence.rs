//! References to deliverables.
use vstd::prelude::*;
use crate::env::{answers, fail, milestones_sound, Env, State};
use crate::escrow::Escrow;
use crate::event::Event;
use crate::types::{Address, ContractStatus, Error, Halt, Milestone};

verus! {

broadcast use vstd::std_specs::hash::group_hash_axioms;

/// The longest deliverable reference, in bytes.
pub const MAX_EVIDENCE_BYTES: usize = 256;

/// Why a deliverable reference is refused.
pub open spec fn evidence_refusal(
    s: State,
    contract_id: u32,
    caller: Address,
    milestone_index: u32,
    evidence: Seq<u8>,
) -> Option<Halt> {
    let contract = s.contracts[contract_id];
    let milestones = s.milestones[contract_id];
    let milestone = milestones[milestone_index as int];
    if !s.config.initialized {
        fail(Error::NotInitialized)
    } else if s.freeze() is Some {
        s.freeze()
    } else if !s.authorized.contains(caller) {
        Some(Halt::AuthRequired(caller))
    } else if s.closed(contract_id) is Some {
        s.closed(contract_id)
    } else if caller != contract.freelancer {
        fail(Error::UnauthorizedRole)
    } else if contract.status != ContractStatus::Funded {
        fail(Error::InvalidState)
    } else if evidence.len() > MAX_EVIDENCE_BYTES {
        fail(Error::EvidenceTooLong)
    } else if !s.milestones.contains_key(contract_id) {
        fail(Error::ContractNotFound)
    } else if milestone_index >= milestones.len() {
        fail(Error::IndexOutOfBounds)
    } else if milestone.released {
        fail(Error::AlreadyReleased)
    } else if milestone.refunded {
        fail(Error::AlreadyRefunded)
    } else {
        None
    }
}

/// What a deliverable reference leaves behind: it replaces the one before.
pub open spec fn evidence_effect(
    s: State,
    contract_id: u32,
    milestone_index: u32,
    evidence: Vec<u8>,
) -> State {
    let milestones = s.milestones[contract_id];
    s.with_milestones(
        contract_id,
        milestones.update(
            milestone_index as int,
            Milestone {
                work_evidence: Some(evidence),
                ..milestones[milestone_index as int]
            },
        ),
    ).with_event(
        Event::EvidenceSubmitted {
            contract_id,
            milestone_index,
            freelancer: s.contracts[contract_id].freelancer,
            timestamp: s.call.timestamp,
        },
    )
}

impl Escrow {
    /// Records a deliverable reference of at most 256 bytes for a milestone that
    /// is neither released nor refunded. It can be replaced until then.
    ///
    /// Only the freelancer of a funded agreement can record one.
    pub fn submit_work_evidence(
        env: &mut Env,
        contract_id: u32,
        caller: Address,
        milestone_index: u32,
        evidence: Vec<u8>,
    ) -> (result: Result<bool, Halt>)
        requires
            old(env)@.wf(),
        ensures
            answers(
                result,
                evidence_refusal(old(env)@, contract_id, caller, milestone_index, evidence@),
                old(env)@,
                final(env)@,
                evidence_effect(old(env)@, contract_id, milestone_index, evidence),
            ),
            final(env)@.wf(),
    {
        env.require_initialized()?;
        env.require_not_paused()?;
        env.require_auth(caller)?;
        let contract = env.read_open_contract(contract_id)?;
        if caller != contract.freelancer {
            return Err(Halt::Failed(Error::UnauthorizedRole));
        }
        if contract.status != ContractStatus::Funded {
            return Err(Halt::Failed(Error::InvalidState));
        }
        if evidence.len() > MAX_EVIDENCE_BYTES {
            return Err(Halt::Failed(Error::EvidenceTooLong));
        }
        let milestones = env.read_milestones(contract_id)?;
        if milestone_index as usize >= milestones.len() {
            return Err(Halt::Failed(Error::IndexOutOfBounds));
        }
        if milestones[milestone_index as usize].released {
            return Err(Halt::Failed(Error::AlreadyReleased));
        }
        if milestones[milestone_index as usize].refunded {
            return Err(Halt::Failed(Error::AlreadyRefunded));
        }

        let ghost s = env@;
        let mut milestones = env.take_milestones(contract_id);
        milestones[milestone_index as usize].work_evidence = Some(evidence);
        let ghost list = milestones@;
        assert(list =~= s.milestones[contract_id].update(
            milestone_index as int,
            Milestone {
                work_evidence: Some(evidence),
                ..s.milestones[contract_id][milestone_index as int]
            },
        ));
        assert(milestones_sound(list));
        env.write_milestones(contract_id, milestones);
        assert(s.milestones.remove(contract_id).insert(contract_id, list) =~= s.milestones.insert(
            contract_id,
            list,
        ));
        let timestamp: u64 = env.call.timestamp;
        env.publish(
            Event::EvidenceSubmitted {
                contract_id,
                milestone_index,
                freelancer: contract.freelancer,
                timestamp,
            },
        );
        Ok(true)
    }

    /// The deliverable reference of a milestone, `None` if there is none or the
    /// index is out of bounds. Fails with `ContractNotFound` for an unknown
    /// agreement.
    pub fn get_work_evidence(env: &Env, contract_id: u32, milestone_index: u32) -> (result: Result<
        Option<&Vec<u8>>,
        Halt,
    >)
        ensures
            match result {
                Ok(evidence) => {
                    let milestones = env@.milestones[contract_id];
                    &&& env@.milestones.contains_key(contract_id)
                    &&& match evidence {
                        Some(bytes) => milestone_index < milestones.len()
                            && milestones[milestone_index as int].work_evidence == Some(*bytes),
                        None => milestone_index < milestones.len()
                            ==> milestones[milestone_index as int].work_evidence is None,
                    }
                },
                Err(halt) => !env@.milestones.contains_key(contract_id) && halt == Halt::Failed(
                    Error::ContractNotFound,
                ),
            },
    {
        let milestones = env.read_milestones(contract_id)?;
        if milestone_index as usize >= milestones.len() {
            return Ok(None);
        }
        match &milestones[milestone_index as usize].work_evidence {
            Some(bytes) => Ok(Some(bytes)),
            None => Ok(None),
        }
    }
}

} // verus!
