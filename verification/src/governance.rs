//! The protocol fee and the rotation of the admin.
use vstd::prelude::*;
use crate::admin::{pause_refusal, MAX_FEE_BPS};
use crate::env::{answers, fail, Config, Env, State};
use crate::escrow::Escrow;
use crate::event::Event;
use crate::ttl::ADMIN_ROTATION_MIN_DELAY_LEDGERS;
use crate::types::{Address, Error, Halt, PendingAdminProposal, ReadinessChecklist};

verus! {

/// Why only an initialized escrow with its admin's authorization may be governed.
pub open spec fn governance_refusal(s: State) -> Option<Halt> {
    pause_refusal(s)
}

/// Why a new fee rate is refused.
pub open spec fn set_fee_refusal(s: State, new_bps: u32) -> Option<Halt> {
    if governance_refusal(s) is Some {
        governance_refusal(s)
    } else if new_bps > MAX_FEE_BPS {
        fail(Error::InvalidProtocolParameters)
    } else {
        None
    }
}

/// What a new fee rate leaves behind: the rate, and on the checklist that protocol
/// parameters have been set.
pub open spec fn set_fee_effect(s: State, new_bps: u32) -> State {
    s.with_config(
        Config {
            protocol_fee_bps: new_bps,
            checklist: ReadinessChecklist { governed_params_set: true, ..s.config.checklist },
            ..s.config
        },
    ).with_event(
        Event::ProtocolFeeSet {
            admin: s.config.admin->0,
            fee_bps: new_bps,
            timestamp: s.call.timestamp,
        },
    )
}

/// What a proposal of a new admin leaves behind.
pub open spec fn propose_effect(s: State, proposed: Address) -> State {
    s.with_config(
        Config {
            pending_admin: Some(
                PendingAdminProposal { proposed, proposed_at_ledger: s.call.sequence },
            ),
            ..s.config
        },
    ).with_event(
        Event::AdminProposed {
            admin: s.config.admin->0,
            proposed,
            timestamp: s.call.timestamp,
        },
    )
}

/// Why the acceptance of a proposed admin is refused.
pub open spec fn accept_admin_refusal(s: State) -> Option<Halt> {
    if !s.config.initialized {
        fail(Error::NotInitialized)
    } else {
        match s.config.pending_admin {
            None => fail(Error::InvalidState),
            Some(proposal) => if s.call.sequence < proposal.proposed_at_ledger
                + ADMIN_ROTATION_MIN_DELAY_LEDGERS {
                fail(Error::TimelockNotElapsed)
            } else if !s.authorized.contains(proposal.proposed) {
                Some(Halt::AuthRequired(proposal.proposed))
            } else {
                None
            },
        }
    }
}

/// What the acceptance of a proposed admin leaves behind.
pub open spec fn accept_admin_effect(s: State) -> State {
    let proposed = s.config.pending_admin->0.proposed;
    s.with_config(
        Config { admin: Some(proposed), pending_admin: None, ..s.config },
    ).with_event(
        Event::AdminAccepted {
            previous: s.config.admin->0,
            admin: proposed,
            timestamp: s.call.timestamp,
        },
    )
}

/// Why the withdrawal of a proposal is refused.
pub open spec fn cancel_proposal_refusal(s: State) -> Option<Halt> {
    if governance_refusal(s) is Some {
        governance_refusal(s)
    } else if s.config.pending_admin is None {
        fail(Error::InvalidState)
    } else {
        None
    }
}

/// What the withdrawal of a proposal leaves behind.
pub open spec fn cancel_proposal_effect(s: State) -> State {
    s.with_config(Config { pending_admin: None, ..s.config }).with_event(
        Event::AdminProposalCancelled { admin: s.config.admin->0, timestamp: s.call.timestamp },
    )
}

impl Env {
    /// The admin, if the escrow is initialized and the admin authorized the call.
    fn require_admin(&self) -> (result: Result<Address, Halt>)
        requires
            self@.wf(),
        ensures
            result == (match governance_refusal(self@) {
                None => Ok::<Address, Halt>(self@.config.admin->0),
                Some(halt) => Err(halt),
            }),
    {
        self.require_initialized()?;
        let admin = match self.config.admin {
            Some(admin) => admin,
            None => return Err(Halt::Failed(Error::NotInitialized)),
        };
        self.require_auth(admin)?;
        Ok(admin)
    }
}

impl Escrow {
    /// Sets the protocol fee rate, in basis points, and notes on the readiness
    /// checklist that protocol parameters have been set.
    ///
    /// Fails with `InvalidProtocolParameters` above a rate of 10 000.
    pub fn set_protocol_fee_bps(env: &mut Env, new_bps: u32) -> (result: Result<bool, Halt>)
        requires
            old(env)@.wf(),
        ensures
            answers(
                result,
                set_fee_refusal(old(env)@, new_bps),
                old(env)@,
                final(env)@,
                set_fee_effect(old(env)@, new_bps),
            ),
            final(env)@.wf(),
    {
        let admin = env.require_admin()?;
        if new_bps > MAX_FEE_BPS {
            return Err(Halt::Failed(Error::InvalidProtocolParameters));
        }
        env.config.protocol_fee_bps = new_bps;
        env.config.checklist.governed_params_set = true;
        let timestamp: u64 = env.call.timestamp;
        env.publish(Event::ProtocolFeeSet { admin, fee_bps: new_bps, timestamp });
        Ok(true)
    }

    /// The protocol fee rate, in basis points.
    pub fn get_protocol_fee_bps(env: &Env) -> (fee_bps: u32)
        ensures
            fee_bps == env@.config.protocol_fee_bps,
    {
        env.config.protocol_fee_bps
    }

    /// Proposes a new admin, who can accept after a delay. A proposal replaces the
    /// one before.
    pub fn propose_governance_admin(env: &mut Env, proposed: Address) -> (result: Result<
        bool,
        Halt,
    >)
        requires
            old(env)@.wf(),
        ensures
            answers(
                result,
                governance_refusal(old(env)@),
                old(env)@,
                final(env)@,
                propose_effect(old(env)@, proposed),
            ),
            final(env)@.wf(),
    {
        let admin = env.require_admin()?;
        let proposed_at_ledger: u32 = env.call.sequence;
        env.config.pending_admin = Some(PendingAdminProposal { proposed, proposed_at_ledger });
        let timestamp: u64 = env.call.timestamp;
        env.publish(Event::AdminProposed { admin, proposed, timestamp });
        Ok(true)
    }

    /// Makes the proposed admin the admin. Only the proposed admin can accept, and
    /// only once the delay since the proposal has passed.
    pub fn accept_governance_admin(env: &mut Env) -> (result: Result<bool, Halt>)
        requires
            old(env)@.wf(),
        ensures
            answers(
                result,
                accept_admin_refusal(old(env)@),
                old(env)@,
                final(env)@,
                accept_admin_effect(old(env)@),
            ),
            final(env)@.wf(),
    {
        env.require_initialized()?;
        let previous = match env.config.admin {
            Some(admin) => admin,
            None => return Err(Halt::Failed(Error::NotInitialized)),
        };
        let proposal = match env.config.pending_admin {
            Some(proposal) => proposal,
            None => return Err(Halt::Failed(Error::InvalidState)),
        };
        if (env.call.sequence as u64) < proposal.proposed_at_ledger as u64
            + ADMIN_ROTATION_MIN_DELAY_LEDGERS as u64 {
            return Err(Halt::Failed(Error::TimelockNotElapsed));
        }
        let admin = proposal.proposed;
        env.require_auth(admin)?;
        env.config.admin = Some(admin);
        env.config.pending_admin = None;
        let timestamp: u64 = env.call.timestamp;
        env.publish(Event::AdminAccepted { previous, admin, timestamp });
        Ok(true)
    }

    /// Withdraws the proposal of a new admin.
    pub fn cancel_governance_admin_proposal(env: &mut Env) -> (result: Result<bool, Halt>)
        requires
            old(env)@.wf(),
        ensures
            answers(
                result,
                cancel_proposal_refusal(old(env)@),
                old(env)@,
                final(env)@,
                cancel_proposal_effect(old(env)@),
            ),
            final(env)@.wf(),
    {
        let admin = env.require_admin()?;
        if env.config.pending_admin.is_none() {
            return Err(Halt::Failed(Error::InvalidState));
        }
        env.config.pending_admin = None;
        let timestamp: u64 = env.call.timestamp;
        env.publish(Event::AdminProposalCancelled { admin, timestamp });
        Ok(true)
    }

    /// The ledger at which the pending admin was proposed, `None` without a
    /// proposal.
    pub fn get_pending_admin_proposed_at(env: &Env) -> (ledger: Option<u32>)
        ensures
            ledger == (match env@.config.pending_admin {
                Some(proposal) => Some(proposal.proposed_at_ledger),
                None => None,
            }),
    {
        match env.config.pending_admin {
            Some(proposal) => Some(proposal.proposed_at_ledger),
            None => None,
        }
    }
}

} // verus!
