//! Deposits of clients.
use vstd::prelude::*;
use crate::amount_validation::{
    accumulate_amounts, amounts_of, collect_amounts, lemma_sums_bounded, sum_of,
    sum_of_milestones, sums_fit,
};
use crate::env::{answers, fail, milestones_sound, Env, State};
use crate::escrow::Escrow;
use crate::event::Transfer;
use crate::types::{Address, Contract, ContractStatus, Error, Halt, Milestone};

verus! {

broadcast use vstd::std_specs::hash::group_hash_axioms;

/// What the milestone at `i` has of the `funded` stroops that came in: deposits
/// fill the milestones in their order, each up to its amount.
pub open spec fn share_of(milestones: Seq<Milestone>, funded: int, i: int) -> int {
    let left = funded - sum_of(amounts_of(milestones), i as nat);
    let amount = milestones[i].amount as int;
    if left <= 0 {
        0
    } else if left >= amount {
        amount
    } else {
        left
    }
}

/// The milestones with their shares of the `funded` stroops that came in.
pub open spec fn allocated(milestones: Seq<Milestone>, funded: int) -> Seq<Milestone> {
    Seq::new(
        milestones.len(),
        |i: int|
            if milestones[i].released {
                milestones[i]
            } else {
                Milestone {
                    funded_amount: share_of(milestones, funded, i) as i128,
                    ..milestones[i]
                }
            },
    )
}

/// Why a deposit is refused.
pub open spec fn deposit_refusal(
    s: State,
    contract_id: u32,
    caller: Address,
    amount: i128,
) -> Option<Halt> {
    let contract = s.contracts[contract_id];
    if !s.config.initialized {
        fail(Error::NotInitialized)
    } else if s.freeze() is Some {
        s.freeze()
    } else if amount <= 0 {
        fail(Error::AmountMustBePositive)
    } else if s.closed(contract_id) is Some {
        s.closed(contract_id)
    } else if contract.status != ContractStatus::Created {
        fail(Error::InvalidState)
    } else if caller != contract.client {
        fail(Error::UnauthorizedRole)
    } else if !s.authorized.contains(caller) {
        Some(Halt::AuthRequired(caller))
    } else if !s.milestones.contains_key(contract_id) {
        fail(Error::ContractNotFound)
    } else if contract.funded_amount + amount > sum_of_milestones(s.milestones[contract_id]) {
        fail(Error::InvalidDepositAmount)
    } else if s.config.settlement_token is None {
        fail(Error::SettlementTokenNotConfigured)
    } else {
        None
    }
}

/// What a deposit leaves behind: the amount comes in from the caller, the
/// milestones are funded in their order, and the agreement is funded once the sum
/// of all its milestones is there.
pub open spec fn deposit_effect(
    s: State,
    contract_id: u32,
    caller: Address,
    amount: i128,
) -> State {
    let before = s.contracts[contract_id];
    let milestones = s.milestones[contract_id];
    let funded = before.funded_amount + amount;
    let after = Contract {
        total_deposited: (before.total_deposited + amount) as i128,
        funded_amount: funded as i128,
        status: if funded == sum_of_milestones(milestones) {
            ContractStatus::Funded
        } else {
            before.status
        },
        ..before
    };
    State {
        transfers: s.transfers.push(
            Transfer {
                token: s.config.settlement_token->0,
                from: caller,
                to: s.call.contract_address,
                amount,
            },
        ),
        ..s.with_contract(contract_id, after).with_milestones(
            contract_id,
            allocated(milestones, funded),
        )
    }
}

/// Gives the milestones their shares of the `funded` stroops that came in.
fn allocate(milestones: &mut Vec<Milestone>, funded: i128)
    requires
        milestones_sound(old(milestones)@),
        0 <= funded,
    ensures
        final(milestones)@ == allocated(old(milestones)@, funded as int),
        milestones_sound(final(milestones)@),
{
    let ghost before = milestones@;
    let ghost amounts = amounts_of(before);
    let mut left: i128 = funded;
    let count: usize = milestones.len();
    for i in 0..count
        invariant
            count == before.len(),
            milestones_sound(before),
            amounts == amounts_of(before),
            milestones@.len() == before.len(),
            0 <= left <= funded,
            left == (if funded - sum_of(amounts, i as nat) > 0 {
                funded - sum_of(amounts, i as nat)
            } else {
                0
            }),
            forall|j: int|
                0 <= j < i ==> #[trigger] milestones@[j] == allocated(before, funded as int)[j],
            forall|j: int| i <= j < before.len() ==> #[trigger] milestones@[j] == before[j],
    {
        assert(milestones@[i as int] == before[i as int]);
        assert(before[i as int].sound());
        let amount: i128 = milestones[i].amount;
        assert(sum_of(amounts, (i + 1) as nat) == sum_of(amounts, i as nat) + amount);
        let share: i128 = if left > amount {
            amount
        } else {
            left
        };
        assert(share == share_of(before, funded as int, i as int));
        if !milestones[i].released {
            milestones[i].funded_amount = share;
        }
        left = left - share;
    }
    assert(milestones@ =~= allocated(before, funded as int));
    assert(milestones_sound(milestones@)) by {
        assert forall|i: int| 0 <= i < before.len() implies (#[trigger] milestones@[i]).sound() by {
            assert(before[i].sound());
        }
    }
}

impl Escrow {
    /// Takes `amount` stroops from the client into the escrow.
    ///
    /// Only while the agreement is created, and no more than its milestones add up
    /// to. The agreement is funded once all of that is there.
    pub fn deposit_funds(env: &mut Env, contract_id: u32, caller: Address, amount: i128) -> (result:
        Result<bool, Halt>)
        requires
            old(env)@.wf(),
        ensures
            answers(
                result,
                deposit_refusal(old(env)@, contract_id, caller, amount),
                old(env)@,
                final(env)@,
                deposit_effect(old(env)@, contract_id, caller, amount),
            ),
            final(env)@.wf(),
    {
        env.require_initialized()?;
        env.require_not_paused()?;
        if amount <= 0 {
            return Err(Halt::Failed(Error::AmountMustBePositive));
        }
        let contract = env.read_open_contract(contract_id)?;
        if contract.status != ContractStatus::Created {
            return Err(Halt::Failed(Error::InvalidState));
        }
        if caller != contract.client {
            return Err(Halt::Failed(Error::UnauthorizedRole));
        }
        env.require_auth(caller)?;
        let milestones = env.read_milestones(contract_id)?;
        proof {
            assert forall|n: nat| n <= milestones@.len() implies i128::MIN <= #[trigger] sum_of(
                amounts_of(milestones@),
                n,
            ) <= i128::MAX by {
                lemma_sums_bounded(milestones@, n);
            }
            assert(sums_fit(amounts_of(milestones@)));
            lemma_sums_bounded(milestones@, milestones@.len());
        }
        let total: i128 = match accumulate_amounts(&collect_amounts(milestones)) {
            Ok(total) => total,
            Err(error) => return Err(Halt::Failed(error)),
        };
        if amount > total - contract.funded_amount {
            return Err(Halt::Failed(Error::InvalidDepositAmount));
        }
        let token = env.require_settlement_token()?;

        let ghost s = env@;
        let funded: i128 = contract.funded_amount + amount;
        let mut milestones = env.take_milestones(contract_id);
        allocate(&mut milestones, funded);
        let ghost list = milestones@;
        let mut after = contract;
        after.total_deposited = contract.total_deposited + amount;
        after.funded_amount = funded;
        if funded == total {
            after.status = ContractStatus::Funded;
        }
        env.write_milestones(contract_id, milestones);
        env.write_contract(contract_id, after);
        let to = env.call.contract_address;
        env.transfers.push(Transfer { token, from: caller, to, amount });
        assert(s.milestones.remove(contract_id).insert(contract_id, list) =~= s.milestones.insert(
            contract_id,
            list,
        ));
        assert(env@ =~= deposit_effect(s, contract_id, caller, amount));
        Ok(true)
    }
}

} // verus!
