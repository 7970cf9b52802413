//! Setting the escrow up, binding its token, and stopping it.
use vstd::prelude::*;
use crate::amount_validation::{
    MAX_MILESTONES, MAX_SINGLE_AMOUNT_STROOPS, MAX_TOTAL_ESCROW_STROOPS,
};
use crate::env::{answers, fail, Config, Env, State};
use crate::escrow::Escrow;
use crate::event::Event;
use crate::types::{Address, ContractBounds, Error, Halt, ReadinessChecklist};

verus! {

broadcast use vstd::std_specs::hash::group_hash_axioms;

/// Protocol fee ceiling in basis points.
pub const MAX_FEE_BPS: u32 = 10_000;

/// Why an initialization is refused.
pub open spec fn initialize_refusal(s: State, admin: Address) -> Option<Halt> {
    if s.config.initialized {
        fail(Error::AlreadyInitialized)
    } else if !s.authorized.contains(admin) {
        Some(Halt::AuthRequired(admin))
    } else {
        None
    }
}

/// What an initialization leaves behind.
pub open spec fn initialize_effect(s: State, admin: Address) -> State {
    s.with_config(
        Config {
            initialized: true,
            admin: Some(admin),
            next_contract_id: 1,
            checklist: ReadinessChecklist { initialized: true, ..s.config.checklist },
            ..s.config
        },
    ).with_event(Event::Initialized { admin, timestamp: s.call.timestamp })
}

/// Why a settlement token is not bound.
pub open spec fn bind_refusal(s: State, admin: Address, token: Address) -> Option<Halt> {
    if !s.config.initialized {
        fail(Error::NotInitialized)
    } else if s.config.admin != Some(admin) {
        fail(Error::UnauthorizedRole)
    } else if !s.authorized.contains(admin) {
        Some(Halt::AuthRequired(admin))
    } else if s.config.settlement_token is Some {
        fail(Error::SettlementTokenAlreadyBound)
    } else if token == s.call.contract_address {
        fail(Error::SettlementTokenIsSelf)
    } else if token == admin {
        fail(Error::SettlementTokenIsAdmin)
    } else if !s.token_probes.contains_key(token.id) {
        Some(Halt::ProbeRequired(token))
    } else if !s.token_probes[token.id] {
        fail(Error::InvalidSettlementToken)
    } else {
        None
    }
}

/// What a bound settlement token leaves behind.
pub open spec fn bind_effect(s: State, admin: Address, token: Address) -> State {
    s.with_config(Config { settlement_token: Some(token), ..s.config }).with_event(
        Event::SettlementTokenBound { admin, token, timestamp: s.call.timestamp },
    )
}

/// Why a pause is refused.
pub open spec fn pause_refusal(s: State) -> Option<Halt> {
    if !s.config.initialized {
        fail(Error::NotInitialized)
    } else if !s.authorized.contains(s.config.admin->0) {
        Some(Halt::AuthRequired(s.config.admin->0))
    } else {
        None
    }
}

/// What a pause leaves behind.
pub open spec fn pause_effect(s: State) -> State {
    s.with_config(Config { paused: true, ..s.config }).with_event(
        Event::Paused { admin: s.config.admin->0, timestamp: s.call.timestamp },
    )
}

/// Why the end of a pause is refused.
pub open spec fn unpause_refusal(s: State) -> Option<Halt> {
    if !s.config.initialized {
        fail(Error::NotInitialized)
    } else if s.config.emergency {
        fail(Error::EmergencyActive)
    } else if !s.authorized.contains(s.config.admin->0) {
        Some(Halt::AuthRequired(s.config.admin->0))
    } else {
        None
    }
}

/// What the end of a pause leaves behind.
pub open spec fn unpause_effect(s: State) -> State {
    s.with_config(Config { paused: false, ..s.config }).with_event(
        Event::Unpaused { admin: s.config.admin->0, timestamp: s.call.timestamp },
    )
}

/// Why an emergency is not declared.
pub open spec fn emergency_refusal(s: State) -> Option<Halt> {
    if s.config.admin is None {
        fail(Error::NotInitialized)
    } else if !s.authorized.contains(s.config.admin->0) {
        Some(Halt::AuthRequired(s.config.admin->0))
    } else {
        None
    }
}

/// What a declared emergency leaves behind.
pub open spec fn emergency_effect(s: State) -> State {
    s.with_config(
        Config {
            emergency: true,
            paused: true,
            checklist: ReadinessChecklist {
                emergency_controls_enabled: true,
                ..s.config.checklist
            },
            ..s.config
        },
    ).with_event(
        Event::EmergencyActivated { admin: s.config.admin->0, timestamp: s.call.timestamp },
    )
}

/// What the end of an emergency leaves behind.
pub open spec fn resolve_emergency_effect(s: State) -> State {
    s.with_config(
        Config {
            emergency: false,
            paused: false,
            checklist: ReadinessChecklist {
                emergency_controls_enabled: true,
                ..s.config.checklist
            },
            ..s.config
        },
    ).with_event(
        Event::EmergencyResolved { admin: s.config.admin->0, timestamp: s.call.timestamp },
    )
}

impl Escrow {
    /// Sets the escrow up with its admin, once and for all.
    pub fn initialize(env: &mut Env, admin: Address) -> (result: Result<bool, Halt>)
        requires
            old(env)@.wf(),
        ensures
            answers(
                result,
                initialize_refusal(old(env)@, admin),
                old(env)@,
                final(env)@,
                initialize_effect(old(env)@, admin),
            ),
            final(env)@.wf(),
    {
        if env.config.initialized {
            return Err(Halt::Failed(Error::AlreadyInitialized));
        }
        env.require_auth(admin)?;
        env.config.initialized = true;
        env.config.admin = Some(admin);
        env.config.next_contract_id = 1;
        env.config.checklist.initialized = true;
        let timestamp: u64 = env.call.timestamp;
        env.publish(Event::Initialized { admin, timestamp });
        Ok(true)
    }

    /// Binds the token that the escrow settles in, once and for all.
    ///
    /// Only the admin can bind it. The escrow itself and the admin are refused as
    /// token, and so is an address that does not answer as a token.
    pub fn bind_settlement_token(env: &mut Env, admin: Address, token: Address) -> (result: Result<
        bool,
        Halt,
    >)
        requires
            old(env)@.wf(),
        ensures
            answers(
                result,
                bind_refusal(old(env)@, admin, token),
                old(env)@,
                final(env)@,
                bind_effect(old(env)@, admin, token),
            ),
            final(env)@.wf(),
    {
        env.require_initialized()?;
        if env.config.admin != Some(admin) {
            return Err(Halt::Failed(Error::UnauthorizedRole));
        }
        env.require_auth(admin)?;
        if env.config.settlement_token.is_some() {
            return Err(Halt::Failed(Error::SettlementTokenAlreadyBound));
        }
        if token == env.call.contract_address {
            return Err(Halt::Failed(Error::SettlementTokenIsSelf));
        }
        if token == admin {
            return Err(Halt::Failed(Error::SettlementTokenIsAdmin));
        }
        let answered: bool = match env.token_probes.get(&token.id) {
            Some(answered) => *answered,
            None => return Err(Halt::ProbeRequired(token)),
        };
        if !answered {
            return Err(Halt::Failed(Error::InvalidSettlementToken));
        }
        env.config.settlement_token = Some(token);
        let timestamp: u64 = env.call.timestamp;
        env.publish(Event::SettlementTokenBound { admin, token, timestamp });
        Ok(true)
    }

    /// An alias of [`bind_settlement_token`](Self::bind_settlement_token).
    pub fn set_settlement_token(env: &mut Env, admin: Address, token: Address) -> (result: Result<
        bool,
        Halt,
    >)
        requires
            old(env)@.wf(),
        ensures
            answers(
                result,
                bind_refusal(old(env)@, admin, token),
                old(env)@,
                final(env)@,
                bind_effect(old(env)@, admin, token),
            ),
            final(env)@.wf(),
    {
        Self::bind_settlement_token(env, admin, token)
    }

    /// The bound settlement token, if there is one.
    pub fn get_settlement_token(env: &Env) -> (token: Option<Address>)
        ensures
            token == env@.config.settlement_token,
    {
        env.config.settlement_token
    }

    /// Whether a settlement token is bound, so that deposits can be accepted.
    pub fn is_settlement_token_bound(env: &Env) -> (bound: bool)
        ensures
            bound == (env@.config.settlement_token is Some),
    {
        env.config.settlement_token.is_some()
    }

    /// The admin on record.
    pub fn get_admin(env: &Env) -> (admin: Option<Address>)
        ensures
            admin == env@.config.admin,
    {
        env.config.admin
    }

    /// The limits that hold for every agreement.
    pub fn get_bounds(_env: &Env) -> (bounds: ContractBounds)
        ensures
            bounds.max_milestones == MAX_MILESTONES,
            bounds.max_single_milestone_stroops == MAX_SINGLE_AMOUNT_STROOPS,
            bounds.max_total_escrow_stroops == MAX_TOTAL_ESCROW_STROOPS,
            bounds.max_fee_bps == MAX_FEE_BPS,
    {
        ContractBounds {
            max_milestones: MAX_MILESTONES,
            max_single_milestone_stroops: MAX_SINGLE_AMOUNT_STROOPS,
            max_total_escrow_stroops: MAX_TOTAL_ESCROW_STROOPS,
            max_fee_bps: MAX_FEE_BPS,
        }
    }

    /// The steps of a production deployment that have been taken.
    pub fn get_mainnet_readiness_info(env: &Env) -> (checklist: ReadinessChecklist)
        ensures
            checklist == env@.config.checklist,
    {
        env.config.checklist
    }

    /// Stops all changes until [`unpause`](Self::unpause).
    pub fn pause(env: &mut Env) -> (result: Result<bool, Halt>)
        requires
            old(env)@.wf(),
        ensures
            answers(
                result,
                pause_refusal(old(env)@),
                old(env)@,
                final(env)@,
                pause_effect(old(env)@),
            ),
            final(env)@.wf(),
    {
        env.require_initialized()?;
        let admin = match env.config.admin {
            Some(admin) => admin,
            None => return Err(Halt::Failed(Error::NotInitialized)),
        };
        env.require_auth(admin)?;
        env.config.paused = true;
        let timestamp: u64 = env.call.timestamp;
        env.publish(Event::Paused { admin, timestamp });
        Ok(true)
    }

    /// Lets changes through again. Refused while an emergency is active.
    pub fn unpause(env: &mut Env) -> (result: Result<bool, Halt>)
        requires
            old(env)@.wf(),
        ensures
            answers(
                result,
                unpause_refusal(old(env)@),
                old(env)@,
                final(env)@,
                unpause_effect(old(env)@),
            ),
            final(env)@.wf(),
    {
        env.require_initialized()?;
        if env.config.emergency {
            return Err(Halt::Failed(Error::EmergencyActive));
        }
        let admin = match env.config.admin {
            Some(admin) => admin,
            None => return Err(Halt::Failed(Error::NotInitialized)),
        };
        env.require_auth(admin)?;
        env.config.paused = false;
        let timestamp: u64 = env.call.timestamp;
        env.publish(Event::Unpaused { admin, timestamp });
        Ok(true)
    }

    /// Whether the escrow is paused.
    pub fn is_paused(env: &Env) -> (paused: bool)
        ensures
            paused == env@.config.paused,
    {
        env.config.paused
    }

    /// Declares an emergency, which also pauses the escrow.
    pub fn activate_emergency_pause(env: &mut Env) -> (result: Result<bool, Halt>)
        requires
            old(env)@.wf(),
        ensures
            answers(
                result,
                emergency_refusal(old(env)@),
                old(env)@,
                final(env)@,
                emergency_effect(old(env)@),
            ),
            final(env)@.wf(),
    {
        let admin = match env.config.admin {
            Some(admin) => admin,
            None => return Err(Halt::Failed(Error::NotInitialized)),
        };
        env.require_auth(admin)?;
        env.config.emergency = true;
        env.config.paused = true;
        env.config.checklist.emergency_controls_enabled = true;
        let timestamp: u64 = env.call.timestamp;
        env.publish(Event::EmergencyActivated { admin, timestamp });
        Ok(true)
    }

    /// Ends an emergency and the pause that came with it.
    pub fn resolve_emergency(env: &mut Env) -> (result: Result<bool, Halt>)
        requires
            old(env)@.wf(),
        ensures
            answers(
                result,
                pause_refusal(old(env)@),
                old(env)@,
                final(env)@,
                resolve_emergency_effect(old(env)@),
            ),
            final(env)@.wf(),
    {
        env.require_initialized()?;
        let admin = match env.config.admin {
            Some(admin) => admin,
            None => return Err(Halt::Failed(Error::NotInitialized)),
        };
        env.require_auth(admin)?;
        env.config.emergency = false;
        env.config.paused = false;
        env.config.checklist.emergency_controls_enabled = true;
        let timestamp: u64 = env.call.timestamp;
        env.publish(Event::EmergencyResolved { admin, timestamp });
        Ok(true)
    }

    /// Whether an emergency is active.
    pub fn is_emergency(env: &Env) -> (emergency: bool)
        ensures
            emergency == env@.config.emergency,
    {
        env.config.emergency
    }
}

} // verus!
