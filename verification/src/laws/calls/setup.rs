//! Setting the escrow up, stopping it, governing it, and its fees.
use vstd::prelude::*;
use crate::env::{Config, Env, State};
use crate::escrow::Escrow;
use crate::event::{Event, Transfer};
use crate::types::{
    Address, ContractBounds, Error, Halt, PendingAdminProposal, ReadinessChecklist,
};

verus! {

/// An escrow that is not set up takes the admin who authorizes the call, and starts
/// its ids at one. One that is set up is not set up again.
pub proof fn law_initialize(
    env: &mut Env,
    admin: Address,
    result: Result<bool, Halt>,
)
    requires
        old(env)@.wf(),
        call_ensures(Escrow::initialize, (env, admin), result),
    ensures
        result is Err ==> final(env)@ == old(env)@,
        ({
            let s = old(env)@;
            let t = final(env)@;
            if s.config.initialized {
                result == Err::<bool, Halt>(Halt::Failed(Error::AlreadyInitialized))
            } else if !s.authorized.contains(admin) {
                result == Err::<bool, Halt>(Halt::AuthRequired(admin))
            } else {
                result == Ok::<bool, Halt>(true)
                    && t == (State {
                    config: Config {
                        initialized: true,
                        admin: Some(admin),
                        next_contract_id: 1,
                        checklist: ReadinessChecklist { initialized: true, ..s.config.checklist },
                        ..s.config
                    },
                    events: s.events.push(
                        Event::Initialized { admin, timestamp: s.call.timestamp },
                    ),
                    ..s
                })
            }
        }),
{
}

/// The admin binds the token, once: one that answers as a token, and is neither the
/// escrow nor the admin.
pub proof fn law_bind_settlement_token(
    env: &mut Env,
    admin: Address,
    token: Address,
    result: Result<bool, Halt>,
)
    requires
        old(env)@.wf(),
        call_ensures(Escrow::bind_settlement_token, (env, admin, token), result),
    ensures
        result is Err ==> final(env)@ == old(env)@,
        ({
            let s = old(env)@;
            let t = final(env)@;
            if !s.config.initialized {
                result == Err::<bool, Halt>(Halt::Failed(Error::NotInitialized))
            } else if s.config.admin != Some(admin) {
                result == Err::<bool, Halt>(Halt::Failed(Error::UnauthorizedRole))
            } else if !s.authorized.contains(admin) {
                result == Err::<bool, Halt>(Halt::AuthRequired(admin))
            } else if s.config.settlement_token is Some {
                result == Err::<bool, Halt>(Halt::Failed(Error::SettlementTokenAlreadyBound))
            } else if token == s.call.contract_address {
                result == Err::<bool, Halt>(Halt::Failed(Error::SettlementTokenIsSelf))
            } else if token == admin {
                result == Err::<bool, Halt>(Halt::Failed(Error::SettlementTokenIsAdmin))
            } else if !s.token_probes.contains_key(token.id) {
                result == Err::<bool, Halt>(Halt::ProbeRequired(token))
            } else if !s.token_probes[token.id] {
                result == Err::<bool, Halt>(Halt::Failed(Error::InvalidSettlementToken))
            } else {
                result == Ok::<bool, Halt>(true)
                    && t == (State {
                    config: Config { settlement_token: Some(token), ..s.config },
                    events: s.events.push(
                        Event::SettlementTokenBound { admin, token, timestamp: s.call.timestamp },
                    ),
                    ..s
                })
            }
        }),
{
}

/// The admin binds the token, once: one that answers as a token, and is neither the
/// escrow nor the admin.
pub proof fn law_set_settlement_token(
    env: &mut Env,
    admin: Address,
    token: Address,
    result: Result<bool, Halt>,
)
    requires
        old(env)@.wf(),
        call_ensures(Escrow::set_settlement_token, (env, admin, token), result),
    ensures
        result is Err ==> final(env)@ == old(env)@,
        ({
            let s = old(env)@;
            let t = final(env)@;
            if !s.config.initialized {
                result == Err::<bool, Halt>(Halt::Failed(Error::NotInitialized))
            } else if s.config.admin != Some(admin) {
                result == Err::<bool, Halt>(Halt::Failed(Error::UnauthorizedRole))
            } else if !s.authorized.contains(admin) {
                result == Err::<bool, Halt>(Halt::AuthRequired(admin))
            } else if s.config.settlement_token is Some {
                result == Err::<bool, Halt>(Halt::Failed(Error::SettlementTokenAlreadyBound))
            } else if token == s.call.contract_address {
                result == Err::<bool, Halt>(Halt::Failed(Error::SettlementTokenIsSelf))
            } else if token == admin {
                result == Err::<bool, Halt>(Halt::Failed(Error::SettlementTokenIsAdmin))
            } else if !s.token_probes.contains_key(token.id) {
                result == Err::<bool, Halt>(Halt::ProbeRequired(token))
            } else if !s.token_probes[token.id] {
                result == Err::<bool, Halt>(Halt::Failed(Error::InvalidSettlementToken))
            } else {
                result == Ok::<bool, Halt>(true)
                    && t == (State {
                    config: Config { settlement_token: Some(token), ..s.config },
                    events: s.events.push(
                        Event::SettlementTokenBound { admin, token, timestamp: s.call.timestamp },
                    ),
                    ..s
                })
            }
        }),
{
}

/// The admin pauses the escrow.
pub proof fn law_pause(
    env: &mut Env,
    result: Result<bool, Halt>,
)
    requires
        old(env)@.wf(),
        call_ensures(Escrow::pause, (env,), result),
    ensures
        result is Err ==> final(env)@ == old(env)@,
        ({
            let s = old(env)@;
            let t = final(env)@;
            if !s.config.initialized {
                result == Err::<bool, Halt>(Halt::Failed(Error::NotInitialized))
            } else if !s.authorized.contains(s.config.admin->0) {
                result == Err::<bool, Halt>(Halt::AuthRequired(s.config.admin->0))
            } else {
                result == Ok::<bool, Halt>(true)
                    && t == (State {
                    config: Config { paused: true, ..s.config },
                    events: s.events.push(
                        Event::Paused { admin: s.config.admin->0, timestamp: s.call.timestamp },
                    ),
                    ..s
                })
            }
        }),
{
}

/// The admin ends a pause, but not during an emergency.
pub proof fn law_unpause(
    env: &mut Env,
    result: Result<bool, Halt>,
)
    requires
        old(env)@.wf(),
        call_ensures(Escrow::unpause, (env,), result),
    ensures
        result is Err ==> final(env)@ == old(env)@,
        ({
            let s = old(env)@;
            let t = final(env)@;
            if !s.config.initialized {
                result == Err::<bool, Halt>(Halt::Failed(Error::NotInitialized))
            } else if s.config.emergency {
                result == Err::<bool, Halt>(Halt::Failed(Error::EmergencyActive))
            } else if !s.authorized.contains(s.config.admin->0) {
                result == Err::<bool, Halt>(Halt::AuthRequired(s.config.admin->0))
            } else {
                result == Ok::<bool, Halt>(true)
                    && t == (State {
                    config: Config { paused: false, ..s.config },
                    events: s.events.push(
                        Event::Unpaused { admin: s.config.admin->0, timestamp: s.call.timestamp },
                    ),
                    ..s
                })
            }
        }),
{
}

/// The admin declares an emergency, which pauses the escrow.
pub proof fn law_activate_emergency_pause(
    env: &mut Env,
    result: Result<bool, Halt>,
)
    requires
        old(env)@.wf(),
        call_ensures(Escrow::activate_emergency_pause, (env,), result),
    ensures
        result is Err ==> final(env)@ == old(env)@,
        ({
            let s = old(env)@;
            let t = final(env)@;
            if s.config.admin is None {
                result == Err::<bool, Halt>(Halt::Failed(Error::NotInitialized))
            } else if !s.authorized.contains(s.config.admin->0) {
                result == Err::<bool, Halt>(Halt::AuthRequired(s.config.admin->0))
            } else {
                result == Ok::<bool, Halt>(true)
                    && t == (State {
                    config: Config {
                        emergency: true,
                        paused: true,
                        checklist: ReadinessChecklist {
                            emergency_controls_enabled: true,
                            ..s.config.checklist
                        },
                        ..s.config
                    },
                    events: s.events.push(
                        Event::EmergencyActivated {
                            admin: s.config.admin->0,
                            timestamp: s.call.timestamp,
                        },
                    ),
                    ..s
                })
            }
        }),
{
}

/// The admin ends an emergency, and the pause with it.
pub proof fn law_resolve_emergency(
    env: &mut Env,
    result: Result<bool, Halt>,
)
    requires
        old(env)@.wf(),
        call_ensures(Escrow::resolve_emergency, (env,), result),
    ensures
        result is Err ==> final(env)@ == old(env)@,
        ({
            let s = old(env)@;
            let t = final(env)@;
            if !s.config.initialized {
                result == Err::<bool, Halt>(Halt::Failed(Error::NotInitialized))
            } else if !s.authorized.contains(s.config.admin->0) {
                result == Err::<bool, Halt>(Halt::AuthRequired(s.config.admin->0))
            } else {
                result == Ok::<bool, Halt>(true)
                    && t == (State {
                    config: Config {
                        emergency: false,
                        paused: false,
                        checklist: ReadinessChecklist {
                            emergency_controls_enabled: true,
                            ..s.config.checklist
                        },
                        ..s.config
                    },
                    events: s.events.push(
                        Event::EmergencyResolved {
                            admin: s.config.admin->0,
                            timestamp: s.call.timestamp,
                        },
                    ),
                    ..s
                })
            }
        }),
{
}

/// The admin sets the fee rate, up to all of the amount.
pub proof fn law_set_protocol_fee_bps(
    env: &mut Env,
    new_bps: u32,
    result: Result<bool, Halt>,
)
    requires
        old(env)@.wf(),
        call_ensures(Escrow::set_protocol_fee_bps, (env, new_bps), result),
    ensures
        result is Err ==> final(env)@ == old(env)@,
        ({
            let s = old(env)@;
            let t = final(env)@;
            if !s.config.initialized {
                result == Err::<bool, Halt>(Halt::Failed(Error::NotInitialized))
            } else if !s.authorized.contains(s.config.admin->0) {
                result == Err::<bool, Halt>(Halt::AuthRequired(s.config.admin->0))
            } else if new_bps > 10_000 {
                result == Err::<bool, Halt>(Halt::Failed(Error::InvalidProtocolParameters))
            } else {
                result == Ok::<bool, Halt>(true)
                    && t == (State {
                    config: Config {
                        protocol_fee_bps: new_bps,
                        checklist: ReadinessChecklist {
                            governed_params_set: true,
                            ..s.config.checklist
                        },
                        ..s.config
                    },
                    events: s.events.push(
                        Event::ProtocolFeeSet {
                            admin: s.config.admin->0,
                            fee_bps: new_bps,
                            timestamp: s.call.timestamp,
                        },
                    ),
                    ..s
                })
            }
        }),
{
}

/// The admin proposes a successor, from this ledger on.
pub proof fn law_propose_governance_admin(
    env: &mut Env,
    proposed: Address,
    result: Result<bool, Halt>,
)
    requires
        old(env)@.wf(),
        call_ensures(Escrow::propose_governance_admin, (env, proposed), result),
    ensures
        result is Err ==> final(env)@ == old(env)@,
        ({
            let s = old(env)@;
            let t = final(env)@;
            if !s.config.initialized {
                result == Err::<bool, Halt>(Halt::Failed(Error::NotInitialized))
            } else if !s.authorized.contains(s.config.admin->0) {
                result == Err::<bool, Halt>(Halt::AuthRequired(s.config.admin->0))
            } else {
                result == Ok::<bool, Halt>(true)
                    && t == (State {
                    config: Config {
                        pending_admin: Some(
                            PendingAdminProposal { proposed, proposed_at_ledger: s.call.sequence },
                        ),
                        ..s.config
                    },
                    events: s.events.push(
                        Event::AdminProposed {
                            admin: s.config.admin->0,
                            proposed,
                            timestamp: s.call.timestamp,
                        },
                    ),
                    ..s
                })
            }
        }),
{
}

/// The proposed admin takes over once the delay since the proposal has passed.
pub proof fn law_accept_governance_admin(
    env: &mut Env,
    result: Result<bool, Halt>,
)
    requires
        old(env)@.wf(),
        call_ensures(Escrow::accept_governance_admin, (env,), result),
    ensures
        result is Err ==> final(env)@ == old(env)@,
        ({
            let s = old(env)@;
            let t = final(env)@;
            if !s.config.initialized {
                result == Err::<bool, Halt>(Halt::Failed(Error::NotInitialized))
            } else if s.config.pending_admin is None {
                result == Err::<bool, Halt>(Halt::Failed(Error::InvalidState))
            } else if s.call.sequence - s.config.pending_admin->0.proposed_at_ledger
                < 17_280 {
                result == Err::<bool, Halt>(Halt::Failed(Error::TimelockNotElapsed))
            } else if !s.authorized.contains(s.config.pending_admin->0.proposed) {
                result == Err::<bool, Halt>(Halt::AuthRequired(s.config.pending_admin->0.proposed))
            } else {
                result == Ok::<bool, Halt>(true)
                    && t == (State {
                    config: Config {
                        admin: Some(s.config.pending_admin->0.proposed),
                        pending_admin: None,
                        ..s.config
                    },
                    events: s.events.push(
                        Event::AdminAccepted {
                            previous: s.config.admin->0,
                            admin: s.config.pending_admin->0.proposed,
                            timestamp: s.call.timestamp,
                        },
                    ),
                    ..s
                })
            }
        }),
{
}

/// The admin withdraws a proposal.
pub proof fn law_cancel_governance_admin_proposal(
    env: &mut Env,
    result: Result<bool, Halt>,
)
    requires
        old(env)@.wf(),
        call_ensures(Escrow::cancel_governance_admin_proposal, (env,), result),
    ensures
        result is Err ==> final(env)@ == old(env)@,
        ({
            let s = old(env)@;
            let t = final(env)@;
            if !s.config.initialized {
                result == Err::<bool, Halt>(Halt::Failed(Error::NotInitialized))
            } else if !s.authorized.contains(s.config.admin->0) {
                result == Err::<bool, Halt>(Halt::AuthRequired(s.config.admin->0))
            } else if s.config.pending_admin is None {
                result == Err::<bool, Halt>(Halt::Failed(Error::InvalidState))
            } else {
                result == Ok::<bool, Halt>(true)
                    && t == (State {
                    config: Config { pending_admin: None, ..s.config },
                    events: s.events.push(
                        Event::AdminProposalCancelled {
                            admin: s.config.admin->0,
                            timestamp: s.call.timestamp,
                        },
                    ),
                    ..s
                })
            }
        }),
{
}

/// The admin has retained fees paid out, never more than there are, to the address
/// that the call names.
pub proof fn law_withdraw_protocol_fees(
    env: &mut Env,
    amount: i128,
    to: Address,
    result: Result<bool, Halt>,
)
    requires
        old(env)@.wf(),
        call_ensures(Escrow::withdraw_protocol_fees, (env, amount, to), result),
    ensures
        result is Err ==> final(env)@ == old(env)@,
        ({
            let s = old(env)@;
            let t = final(env)@;
            if !s.config.initialized {
                result == Err::<bool, Halt>(Halt::Failed(Error::NotInitialized))
            } else if s.config.paused {
                result == Err::<bool, Halt>(Halt::Failed(Error::ContractPaused))
            } else if !s.authorized.contains(s.config.admin->0) {
                result == Err::<bool, Halt>(Halt::AuthRequired(s.config.admin->0))
            } else if amount <= 0 {
                result == Err::<bool, Halt>(Halt::Failed(Error::AmountMustBePositive))
            } else if amount > s.config.accumulated_fees {
                result == Err::<bool, Halt>(Halt::Failed(Error::InsufficientAccumulatedFees))
            } else if s.config.settlement_token is None {
                result == Err::<bool, Halt>(Halt::Failed(Error::SettlementTokenNotConfigured))
            } else {
                &&& result == Ok::<bool, Halt>(true)
                &&& t.config.accumulated_fees + amount == s.config.accumulated_fees
                &&& t == (State {
                    config: Config { accumulated_fees: t.config.accumulated_fees, ..s.config },
                    transfers: s.transfers.push(
                        Transfer {
                            token: s.config.settlement_token->0,
                            from: s.call.contract_address,
                            to,
                            amount,
                        },
                    ),
                    events: s.events.push(
                        Event::FeesWithdrawn {
                            admin: s.config.admin->0,
                            to,
                            amount,
                            timestamp: s.call.timestamp,
                        },
                    ),
                    ..s
                })
            }
        }),
{
}

/// The bound token.
pub proof fn law_get_settlement_token(
    env: &Env,
    result: Option<Address>,
)
    requires
        call_ensures(Escrow::get_settlement_token, (env,), result),
    ensures
        result == env@.config.settlement_token,
{
}

/// Whether a token is bound.
pub proof fn law_is_settlement_token_bound(
    env: &Env,
    result: bool,
)
    requires
        call_ensures(Escrow::is_settlement_token_bound, (env,), result),
    ensures
        result == (env@.config.settlement_token is Some),
{
}

/// The admin.
pub proof fn law_get_admin(
    env: &Env,
    result: Option<Address>,
)
    requires
        call_ensures(Escrow::get_admin, (env,), result),
    ensures
        result == env@.config.admin,
{
}

/// The readiness checklist.
pub proof fn law_get_mainnet_readiness_info(
    env: &Env,
    result: ReadinessChecklist,
)
    requires
        call_ensures(Escrow::get_mainnet_readiness_info, (env,), result),
    ensures
        result == env@.config.checklist,
{
}

/// Whether the escrow is paused.
pub proof fn law_is_paused(
    env: &Env,
    result: bool,
)
    requires
        call_ensures(Escrow::is_paused, (env,), result),
    ensures
        result == env@.config.paused,
{
}

/// Whether an emergency is declared.
pub proof fn law_is_emergency(
    env: &Env,
    result: bool,
)
    requires
        call_ensures(Escrow::is_emergency, (env,), result),
    ensures
        result == env@.config.emergency,
{
}

/// The fee rate.
pub proof fn law_get_protocol_fee_bps(
    env: &Env,
    result: u32,
)
    requires
        call_ensures(Escrow::get_protocol_fee_bps, (env,), result),
    ensures
        result == env@.config.protocol_fee_bps,
{
}

/// The retained fees.
pub proof fn law_get_accumulated_protocol_fees(
    env: &Env,
    result: i128,
)
    requires
        call_ensures(Escrow::get_accumulated_protocol_fees, (env,), result),
    ensures
        result == env@.config.accumulated_fees,
{
}

/// The next id.
pub proof fn law_get_next_contract_id(
    env: &Env,
    result: u32,
)
    requires
        call_ensures(Escrow::get_next_contract_id, (env,), result),
    ensures
        result == env@.config.next_contract_id,
{
}

/// The ledger of the proposal, if there is one.
pub proof fn law_get_pending_admin_proposed_at(
    env: &Env,
    result: Option<u32>,
)
    requires
        call_ensures(Escrow::get_pending_admin_proposed_at, (env,), result),
    ensures
        env@.config.pending_admin is None ==> result is None,
        env@.config.pending_admin is Some ==> result == Some(
            env@.config.pending_admin->0.proposed_at_ledger,
        ),
{
}

/// The limits.
pub proof fn law_get_bounds(
    env: &Env,
    result: ContractBounds,
)
    requires
        call_ensures(Escrow::get_bounds, (env,), result),
    ensures
        result.max_milestones == 10,
        result.max_single_milestone_stroops == 1_000_000_000_000_000,
        result.max_total_escrow_stroops == 1_000_000_000_000_000,
        result.max_fee_bps == 10_000,
{
}

/// The fee on an amount is the largest whole number of stroops within its share in
/// basis points. It fails only where it would be more than the amount, or where the
/// product does not fit its integer.
pub proof fn law_calculate_protocol_fee(
    env: &Env,
    amount: i128,
    fee_bps: u32,
    result: Result<i128, Halt>,
)
    requires
        call_ensures(Escrow::calculate_protocol_fee, (env, amount, fee_bps), result),
    ensures
        result is Err ==> result->Err_0 == Halt::Failed(Error::PotentialOverflow),
        amount >= 0 && amount * fee_bps < (amount + 1) * 10_000 && amount * fee_bps <= i128::MAX
            ==> result is Ok,
        amount < 0 && fee_bps >= 10_000 && amount * fee_bps >= i128::MIN ==> result is Ok,
        fee_bps == 0 ==> result == Ok::<i128, Halt>(0),
        amount >= 0 && amount * fee_bps >= (amount + 1) * 10_000 ==> result is Err,
        fee_bps != 0 && (amount * fee_bps > i128::MAX || amount * fee_bps < i128::MIN)
            ==> result is Err,
        result is Ok && amount >= 0 ==> {
            &&& 0 <= result->Ok_0 <= amount
            &&& result->Ok_0 * 10_000 <= amount * fee_bps
            &&& amount * fee_bps < result->Ok_0 * 10_000 + 10_000
        },
        result is Ok && amount >= 0 && fee_bps < 10_000 && amount > 0 ==> result->Ok_0 < amount,
        result is Ok && amount < 0 ==> {
            &&& fee_bps >= 10_000 || fee_bps == 0
            &&& amount * fee_bps <= result->Ok_0 * 10_000
            &&& result->Ok_0 * 10_000 < amount * fee_bps + 10_000
        },
{
    let product = amount * fee_bps;
    assert(amount >= 0 ==> product >= 0) by (nonlinear_arith)
        requires
            product == amount * fee_bps,
    ;
    assert(amount < 0 ==> product <= 0) by (nonlinear_arith)
        requires
            product == amount * fee_bps,
    ;
    assert(fee_bps == 0 ==> product == 0) by (nonlinear_arith)
        requires
            product == amount * fee_bps,
    ;
    assert(amount >= 0 && fee_bps <= 10_000 ==> product <= amount * 10_000) by (nonlinear_arith)
        requires
            product == amount * fee_bps,
    ;
    assert(amount > 0 && fee_bps < 10_000 ==> product < amount * 10_000) by (nonlinear_arith)
        requires
            product == amount * fee_bps,
    ;
    assert(amount < 0 && fee_bps >= 10_000 ==> product <= amount * 10_000) by (nonlinear_arith)
        requires
            product == amount * fee_bps,
    ;
    assert(amount < 0 && 0 < fee_bps < 10_000 ==> product >= amount * 9_999) by (nonlinear_arith)
        requires
            product == amount * fee_bps,
    ;
}

} // verus!
