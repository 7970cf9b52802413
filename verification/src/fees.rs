//! Protocol fees: how they are computed, read and withdrawn.
use vstd::prelude::*;
use crate::env::{answers, fail, Config, Env, State};
use crate::escrow::Escrow;
use crate::event::Event;
use crate::types::{Address, Error, Halt};

verus! {

/// The quotient of `dividend` and `divisor`, rounded toward zero.
pub open spec fn quotient(dividend: int, divisor: int) -> int
    recommends
        divisor > 0,
{
    if dividend >= 0 {
        dividend / divisor
    } else {
        -((-dividend) / divisor)
    }
}

/// The fee on `amount` at `fee_bps` basis points, rounded toward zero.
pub open spec fn fee_of(amount: int, fee_bps: u32) -> int {
    quotient(amount * fee_bps, 10_000)
}

/// The fee on `amount` cannot be charged: the product overflows its integer, or
/// the fee is more than the amount.
pub open spec fn fee_unchargeable(amount: i128, fee_bps: u32) -> bool {
    fee_bps != 0 && {
        ||| amount * fee_bps > i128::MAX
        ||| amount * fee_bps < i128::MIN
        ||| fee_of(amount as int, fee_bps) > amount
    }
}

/// Why a withdrawal of fees is refused.
pub open spec fn withdraw_refusal(s: State, amount: i128) -> Option<Halt> {
    let admin = s.config.admin->0;
    if !s.config.initialized {
        fail(Error::NotInitialized)
    } else if s.config.paused {
        fail(Error::ContractPaused)
    } else if !s.authorized.contains(admin) {
        Some(Halt::AuthRequired(admin))
    } else if amount <= 0 {
        fail(Error::AmountMustBePositive)
    } else if amount > s.config.accumulated_fees {
        fail(Error::InsufficientAccumulatedFees)
    } else if s.config.settlement_token is None {
        fail(Error::SettlementTokenNotConfigured)
    } else {
        None
    }
}

/// What an accepted withdrawal of fees leaves behind.
pub open spec fn withdraw_effect(s: State, amount: i128, to: Address) -> State {
    s.with_config(
        Config { accumulated_fees: (s.config.accumulated_fees - amount) as i128, ..s.config },
    ).with_payment(to, amount as int).with_event(
        Event::FeesWithdrawn {
            admin: s.config.admin->0,
            to,
            amount,
            timestamp: s.call.timestamp,
        },
    )
}

impl Escrow {
    /// The protocol fee on `amount` at `fee_bps` basis points, rounded toward zero.
    ///
    /// Fails with `PotentialOverflow` where the product does not fit its integer
    /// or the fee would be more than the amount.
    pub fn calculate_protocol_fee(_env: &Env, amount: i128, fee_bps: u32) -> (result: Result<
        i128,
        Halt,
    >)
        ensures
            match result {
                Ok(fee) => !fee_unchargeable(amount, fee_bps) && fee == fee_of(
                    amount as int,
                    fee_bps,
                ),
                Err(halt) => fee_unchargeable(amount, fee_bps) && halt == Halt::Failed(
                    Error::PotentialOverflow,
                ),
            },
    {
        if fee_bps == 0 {
            assert(amount * 0 == 0) by (nonlinear_arith);
            return Ok(0);
        }
        let product = match amount.checked_mul(fee_bps as i128) {
            Some(product) => product,
            None => return Err(Halt::Failed(Error::PotentialOverflow)),
        };
        let fee: i128 = match product.checked_div(10_000) {
            Some(fee) => fee,
            None => return Err(Halt::Failed(Error::PotentialOverflow)),
        };
        if fee > amount {
            return Err(Halt::Failed(Error::PotentialOverflow));
        }
        Ok(fee)
    }

    /// The fees that were retained and not withdrawn yet, in stroops.
    pub fn get_accumulated_protocol_fees(env: &Env) -> (fees: i128)
        ensures
            fees == env@.config.accumulated_fees,
    {
        env.config.accumulated_fees
    }

    /// Pays `amount` of the accumulated fees to `to`.
    ///
    /// Only with the admin's authorization, not while paused, and never more than
    /// has accumulated.
    pub fn withdraw_protocol_fees(env: &mut Env, amount: i128, to: Address) -> (result: Result<
        bool,
        Halt,
    >)
        requires
            old(env)@.wf(),
        ensures
            answers(
                result,
                withdraw_refusal(old(env)@, amount),
                old(env)@,
                final(env)@,
                withdraw_effect(old(env)@, amount, to),
            ),
            final(env)@.wf(),
    {
        env.require_initialized()?;
        if env.config.paused {
            return Err(Halt::Failed(Error::ContractPaused));
        }
        let admin = match env.config.admin {
            Some(admin) => admin,
            None => return Err(Halt::Failed(Error::NotInitialized)),
        };
        env.require_auth(admin)?;
        if amount <= 0 {
            return Err(Halt::Failed(Error::AmountMustBePositive));
        }
        let accumulated: i128 = env.config.accumulated_fees;
        if amount > accumulated {
            return Err(Halt::Failed(Error::InsufficientAccumulatedFees));
        }
        let token = env.require_settlement_token()?;
        env.config.accumulated_fees = accumulated - amount;
        env.pay(token, to, amount);
        let timestamp: u64 = env.call.timestamp;
        env.publish(Event::FeesWithdrawn { admin, to, amount, timestamp });
        Ok(true)
    }
}

} // verus!
