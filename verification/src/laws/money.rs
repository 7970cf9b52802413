//! What holds of money: how fees are rounded, that the books of every agreement
//! stay balanced, and that tokens move exactly as the books do.
use vstd::prelude::*;
use crate::amount_validation::{lemma_sums_bounded, MAX_SINGLE_AMOUNT_STROOPS};
use crate::dispute::{payouts, resolve_effect, resolve_refusal};
use crate::env::{fail, milestones_sound, State};
use crate::event::Transfer;
use crate::fees::{fee_of, fee_unchargeable};
use crate::laws::lifecycle::{
    law_agreements_are_independent, law_agreements_are_kept, lemma_batch_items_accepted,
    lemma_records_independent, lemma_refund_items_accepted,
};
use crate::operation::{steps, Operation};
use crate::refund::{cancel_effect, cancel_refusal, refund_refusal};
use crate::release::{lemma_fee_bounds, total_amount, total_fee};
use crate::types::{Address, Contract, ContractStatus, DisputeResolution, Error, Milestone};

verus! {

/// The fee on an amount is its share in basis points, rounded down: never more than
/// the amount, less than it below a rate of 10 000, and nothing at a rate of zero.
/// Within the limits of amounts it can always be charged.
pub proof fn law_fee_is_rounded_down(amount: i128, fee_bps: u32)
    requires
        amount >= 0,
        fee_bps <= 10_000,
    ensures
        fee_of(amount as int, fee_bps) * 10_000 <= amount * fee_bps,
        amount * fee_bps < (fee_of(amount as int, fee_bps) + 1) * 10_000,
        0 <= fee_of(amount as int, fee_bps) <= amount,
        fee_bps < 10_000 && amount > 0 ==> fee_of(amount as int, fee_bps) < amount,
        fee_bps == 0 ==> fee_of(amount as int, fee_bps) == 0,
        amount <= MAX_SINGLE_AMOUNT_STROOPS ==> !fee_unchargeable(amount, fee_bps),
{
    let product = amount * fee_bps;
    assert(0 <= product <= amount * 10_000) by (nonlinear_arith)
        requires
            product == amount * fee_bps,
            amount >= 0,
            fee_bps <= 10_000,
    ;
    if fee_bps < 10_000 && amount > 0 {
        assert(product < amount * 10_000) by (nonlinear_arith)
            requires
                product == amount * fee_bps,
                amount > 0,
                fee_bps < 10_000,
        ;
    }
    if fee_bps == 0 {
        assert(product == 0) by (nonlinear_arith)
            requires
                product == amount * fee_bps,
                fee_bps == 0,
        ;
    }
}

/// The fees of an accepted batch release lie between zero and its amounts.
pub(crate) proof fn lemma_batch_totals(milestones: Seq<Milestone>, indices: Seq<u32>, fee_bps: u32)
    requires
        milestones_sound(milestones),
        forall|k: int|
            0 <= k < indices.len() ==> #[trigger] indices[k] < milestones.len()
                && !fee_unchargeable(milestones[indices[k] as int].amount, fee_bps),
    ensures
        0 <= total_fee(milestones, indices, fee_bps) <= total_amount(milestones, indices),
    decreases indices.len(),
{
    if indices.len() > 0 {
        let rest = indices.drop_last();
        assert forall|k: int| 0 <= k < rest.len() implies #[trigger] rest[k] < milestones.len()
            && !fee_unchargeable(milestones[rest[k] as int].amount, fee_bps) by {
            assert(rest[k] == indices[k]);
        }
        lemma_batch_totals(milestones, rest, fee_bps);
        let last = indices[indices.len() - 1];
        assert(last == indices.last());
        assert(milestones[last as int].sound());
        lemma_fee_bounds(milestones[last as int].amount, fee_bps);
    }
}

/// The amounts of milestones add up to no less than zero.
proof fn lemma_total_not_negative(milestones: Seq<Milestone>, indices: Seq<u32>)
    requires
        milestones_sound(milestones),
        forall|k: int| 0 <= k < indices.len() ==> #[trigger] indices[k] < milestones.len(),
    ensures
        0 <= total_amount(milestones, indices),
    decreases indices.len(),
{
    if indices.len() > 0 {
        let rest = indices.drop_last();
        assert forall|k: int| 0 <= k < rest.len() implies #[trigger] rest[k]
            < milestones.len() by {
            assert(rest[k] == indices[k]);
        }
        lemma_total_not_negative(milestones, rest);
        let last = indices[indices.len() - 1];
        assert(milestones[last as int].sound());
    }
}

/// The amounts of an accepted refund add up to no more than what is left.
pub(crate) proof fn lemma_refund_total(s: State, contract_id: u32, indices: Seq<u32>)
    requires
        s.wf(),
        refund_refusal(s, contract_id, indices) is None,
    ensures
        0 <= total_amount(s.milestones[contract_id], indices)
            <= s.contracts[contract_id].available(),
{
    let milestones = s.milestones[contract_id];
    assert(milestones_sound(milestones));
    assert forall|k: int| 0 <= k < indices.len() implies #[trigger] indices[k]
        < milestones.len() by {
        lemma_refund_items_accepted(s, contract_id, indices, 0, k);
    }
    lemma_total_not_negative(milestones, indices);
}

/// One agreement has been paid into or out of, with exactly one transfer of the
/// bound token, or with none where what is left of it did not change.
pub open spec fn moved(before: State, op: Operation, after: State, contract_id: u32) -> bool {
    let contract = before.contracts[contract_id];
    let change = after.contracts[contract_id].available() - contract.available();
    if after.transfers == before.transfers {
        change == 0
    } else {
        let t = after.transfers.last();
        &&& after.transfers == before.transfers.push(t)
        &&& before.config.settlement_token == Some(t.token)
        &&& if op is Deposit {
            t.from == contract.client && t.to == before.call.contract_address && t.amount == change
        } else {
            &&& t.from == before.call.contract_address
            &&& t.to == contract.client || t.to == contract.freelancer
            &&& t.amount == -change
        }
    }
}

/// The milestones that a release names.
pub open spec fn released_now(op: Operation) -> Seq<u32> {
    match op {
        Operation::Release { milestone_index, .. } => seq![milestone_index],
        Operation::ReleaseBatch { milestone_indices, .. } => milestone_indices@,
        _ => Seq::empty(),
    }
}

/// What a release does to the books: what left the agreement and what was retained
/// as fees add up to the amounts of the milestones, and the retained fees are still
/// covered by what was funded.
pub open spec fn accrued(before: State, op: Operation, after: State, contract_id: u32) -> bool {
    let old_one = before.contracts[contract_id];
    let new_one = after.contracts[contract_id];
    let fee = after.config.accumulated_fees - before.config.accumulated_fees;
    &&& fee >= 0
    &&& new_one.released_amount - old_one.released_amount + fee == total_amount(
        before.milestones[contract_id],
        released_now(op),
    )
    &&& new_one.released_amount + new_one.refunded_amount + after.config.accumulated_fees
        <= new_one.funded_amount
}

/// Nothing on the books was taken back.
pub open spec fn books_grow(before: Contract, after: Contract) -> bool {
    &&& after.funded_amount >= before.funded_amount
    &&& after.released_amount >= before.released_amount
    &&& after.refunded_amount >= before.refunded_amount
}

pub(crate) proof fn lemma_release_step(before: State, op: Operation, contract_id: u32)
    requires
        before.wf(),
        op.refusal(before) is None,
        op.subject() == Some(contract_id),
        op is Release || op is ReleaseBatch,
    ensures
        books_grow(before.contracts[contract_id], op.effect(before).contracts[contract_id]),
        moved(before, op, op.effect(before), contract_id),
        accrued(before, op, op.effect(before), contract_id),
{
    let after = op.effect(before);
    let milestones = before.milestones[contract_id];
    let bps = before.config.protocol_fee_bps;
    assert(before.contracts[contract_id].balanced());
    assert(milestones_sound(milestones));
    match op {
        Operation::Release { milestone_index, .. } => {
            let one = seq![milestone_index];
            assert(one.drop_last() =~= Seq::<u32>::empty());
            assert(total_amount(milestones, one.drop_last()) == 0);
            assert(total_amount(milestones, one) == milestones[milestone_index as int].amount);
            assert(milestones[milestone_index as int].sound());
            lemma_fee_bounds(milestones[milestone_index as int].amount, bps);
        },
        Operation::ReleaseBatch { milestone_indices, .. } => {
            assert forall|k: int| 0 <= k < milestone_indices@.len() implies #[trigger]
                milestone_indices@[k] < milestones.len() && !fee_unchargeable(
                milestones[milestone_indices@[k] as int].amount,
                bps,
            ) by {
                lemma_batch_items_accepted(before, contract_id, milestone_indices@, 0, k);
            }
            lemma_batch_totals(milestones, milestone_indices@, bps);
        },
        _ => {},
    }
    assert(after.transfers.len() == before.transfers.len() + 1);
    assert(after.transfers =~= before.transfers.push(after.transfers.last()));
}

pub(crate) proof fn lemma_other_step(before: State, op: Operation, contract_id: u32)
    requires
        before.wf(),
        op.refusal(before) is None,
        op.subject() == Some(contract_id),
        !(op is Release || op is ReleaseBatch),
        before.contracts.contains_key(contract_id),
    ensures
        books_grow(before.contracts[contract_id], op.effect(before).contracts[contract_id]),
        !(op is ResolveDispute) ==> moved(before, op, op.effect(before), contract_id),
        op.effect(before).config.accumulated_fees == before.config.accumulated_fees,
{
    let after = op.effect(before);
    assert(before.contracts[contract_id].balanced());
    match op {
        Operation::Refund { milestone_indices, .. } => {
            lemma_refund_total(before, contract_id, milestone_indices@);
            assert(after.transfers.len() == before.transfers.len() + 1);
            assert(after.transfers =~= before.transfers.push(after.transfers.last()));
        },
        Operation::Deposit { .. } => {
            let milestones = before.milestones[contract_id];
            lemma_sums_bounded(milestones, milestones.len());
            assert(after.transfers.len() == before.transfers.len() + 1);
            assert(after.transfers =~= before.transfers.push(after.transfers.last()));
        },
        Operation::Cancel { .. } => {
            if before.contracts[contract_id].available() > 0 {
                assert(after.transfers.len() == before.transfers.len() + 1);
                assert(after.transfers =~= before.transfers.push(after.transfers.last()));
            }
        },
        Operation::ResolveDispute { resolution, .. } => {
            lemma_payouts(before.contracts[contract_id], resolution);
        },
        _ => {},
    }
}

/// A decision divides all that is left, and gives nobody less than nothing.
pub(crate) proof fn lemma_payouts(contract: Contract, resolution: DisputeResolution)
    requires
        payouts(contract, resolution) is Ok,
    ensures
        ({
            let (client, freelancer) = payouts(contract, resolution)->Ok_0;
            client >= 0 && freelancer >= 0 && client + freelancer == contract.available()
        }),
{
}

/// No change takes back what was funded, released or refunded.
pub proof fn law_books_never_shrink(
    before: State,
    op: Operation,
    after: State,
    contract_id: u32,
)
    requires
        steps(before, op, after),
        before.contracts.contains_key(contract_id),
    ensures
        books_grow(before.contracts[contract_id], after.contracts[contract_id]),
{
    if op.subject() != Some(contract_id) {
        law_agreements_are_independent(before, op, after, contract_id);
    } else if op is Release || op is ReleaseBatch {
        lemma_release_step(before, op, contract_id);
    } else {
        lemma_other_step(before, op, contract_id);
    }
}

/// Tokens move as the books do: what a change adds to or takes from an agreement
/// goes from its client to the escrow, or from the escrow to its client or
/// freelancer, in one transfer of the bound token. Only the decision of a dispute
/// is entered in the books without a transfer.
pub proof fn law_tokens_move_as_the_books_do(
    before: State,
    op: Operation,
    after: State,
    contract_id: u32,
)
    requires
        steps(before, op, after),
        before.contracts.contains_key(contract_id),
        op.subject() == Some(contract_id),
    ensures
        op is ResolveDispute ==> after.transfers == before.transfers,
        !(op is ResolveDispute) ==> moved(before, op, after, contract_id),
{
    if op is Release || op is ReleaseBatch {
        lemma_release_step(before, op, contract_id);
    } else {
        lemma_other_step(before, op, contract_id);
    }
}

/// Apart from changes of an agreement only a withdrawal of fees moves tokens: from
/// the escrow, and as many as the fees on record go down by.
pub proof fn law_other_changes_move_only_fees(before: State, op: Operation, after: State)
    requires
        steps(before, op, after),
        op.subject() is None,
    ensures
        match op {
            Operation::WithdrawFees { amount, to } => {
                &&& 0 < amount <= before.config.accumulated_fees
                &&& after.config.accumulated_fees == before.config.accumulated_fees - amount
                &&& after.transfers == before.transfers.push(
                    (Transfer {
                        token: before.config.settlement_token->0,
                        from: before.call.contract_address,
                        to,
                        amount,
                    }),
                )
            },
            _ => after.transfers == before.transfers && after.config.accumulated_fees
                == before.config.accumulated_fees,
        },
{
}

/// A release splits the amounts of its milestones into what the freelancer is paid
/// and a fee that is retained, and what was released, refunded and retained stays
/// within what was funded. No other change of an agreement touches the fees.
pub proof fn law_release_accounting(before: State, op: Operation, after: State, contract_id: u32)
    requires
        steps(before, op, after),
        before.contracts.contains_key(contract_id),
        op.subject() == Some(contract_id),
    ensures
        op is Release || op is ReleaseBatch ==> accrued(before, op, after, contract_id),
        !(op is Release || op is ReleaseBatch) ==> after.config.accumulated_fees
            == before.config.accumulated_fees,
{
    if op is Release || op is ReleaseBatch {
        lemma_release_step(before, op, contract_id);
    } else {
        lemma_other_step(before, op, contract_id);
    }
}

/// A cancellation leaves nothing of the agreement in the escrow: all that was left
/// goes back to the client, in one transfer if there was anything. The agreement
/// cannot be cancelled twice.
pub proof fn law_cancellation_pays_everything_back(s: State, contract_id: u32, client: Address)
    requires
        s.wf(),
        cancel_refusal(s, contract_id, client) is None,
    ensures
        ({
            let before = s.contracts[contract_id];
            let after = cancel_effect(s, contract_id, client);
            &&& before.released_amount == 0
            &&& after.contracts[contract_id].status == ContractStatus::Cancelled
            &&& after.contracts[contract_id].available() == 0
            &&& after.contracts[contract_id].refunded_amount == before.funded_amount
            &&& before.available() == 0 ==> after.transfers == s.transfers
            &&& before.available() > 0 ==> after.transfers == s.transfers.push(
                Transfer {
                    token: s.config.settlement_token->0,
                    from: s.call.contract_address,
                    to: before.client,
                    amount: before.available() as i128,
                },
            )
            &&& cancel_refusal(after, contract_id, client) == fail(Error::ContractCancelled)
        }),
{
    assert(s.contracts[contract_id].balanced());
}

/// The decision of a dispute divides all that is left between the client and the
/// freelancer, none of them gets less than nothing, and the agreement is closed with
/// nothing left. A split that does not add up to what is left is refused.
pub proof fn law_dispute_divides_all_that_is_left(
    s: State,
    contract_id: u32,
    arbiter: Address,
    resolution: DisputeResolution,
)
    requires
        s.wf(),
        resolve_refusal(s, contract_id, arbiter, resolution) is None,
    ensures
        ({
            let before = s.contracts[contract_id];
            let (client, freelancer) = payouts(before, resolution)->Ok_0;
            let after = resolve_effect(s, contract_id, resolution).contracts[contract_id];
            &&& client >= 0
            &&& freelancer >= 0
            &&& client + freelancer == before.available()
            &&& after.refunded_amount == before.refunded_amount + client
            &&& after.released_amount == before.released_amount + freelancer
            &&& after.available() == 0
            &&& after.status == if before.released_amount + freelancer > 0 {
                ContractStatus::Completed
            } else {
                ContractStatus::Refunded
            }
            &&& resolution is FullRefund ==> freelancer == 0
            &&& resolution is FullPayout ==> client == 0
            &&& resolution matches DisputeResolution::Split(split) ==> client
                == split.client_amount && freelancer == split.freelancer_amount
        }),
{
    assert(s.contracts[contract_id].balanced());
    lemma_payouts(s.contracts[contract_id], resolution);
}

/// What is left of the agreements with ids below `n`, together.
pub open spec fn left_below(contracts: Map<u32, Contract>, n: nat) -> int
    decreases n,
{
    if n == 0 {
        0
    } else {
        left_below(contracts, (n - 1) as nat) + if contracts.contains_key((n - 1) as u32) {
            contracts[(n - 1) as u32].available()
        } else {
            0
        }
    }
}

/// What is left of all agreements together.
pub open spec fn total_left(s: State) -> int {
    left_below(s.contracts, 0x1_0000_0000)
}

/// A change of one agreement changes the sum by as much.
proof fn lemma_left_changes_with_one(
    before: Map<u32, Contract>,
    after: Map<u32, Contract>,
    contract_id: u32,
    n: nat,
)
    requires
        n <= 0x1_0000_0000,
        before.contains_key(contract_id),
        after.contains_key(contract_id),
        forall|id: u32|
            id != contract_id ==> #[trigger] after.contains_key(id) == before.contains_key(id)
                && after[id] == before[id],
    ensures
        left_below(after, n) == left_below(before, n) + if contract_id < n {
            after[contract_id].available() - before[contract_id].available()
        } else {
            0
        },
    decreases n,
{
    if n > 0 {
        lemma_left_changes_with_one(before, after, contract_id, (n - 1) as nat);
        let id = (n - 1) as u32;
        assert(after.contains_key(id) == before.contains_key(id));
    }
}

/// A new agreement with nothing in it leaves the sum as it was.
proof fn lemma_left_without_new(
    before: Map<u32, Contract>,
    contract_id: u32,
    fresh: Contract,
    n: nat,
)
    requires
        n <= 0x1_0000_0000,
        !before.contains_key(contract_id),
        fresh.available() == 0,
    ensures
        left_below(before.insert(contract_id, fresh), n) == left_below(before, n),
    decreases n,
{
    if n > 0 {
        lemma_left_without_new(before, contract_id, fresh, (n - 1) as nat);
    }
}

/// What a transfer adds to the tokens of `address`.
pub open spec fn gain(t: Transfer, address: Address) -> int {
    (if t.to == address {
        t.amount as int
    } else {
        0
    }) - (if t.from == address {
        t.amount as int
    } else {
        0
    })
}

/// What the transfers of a change add to the tokens of the escrow.
pub open spec fn escrow_gain(before: State, after: State) -> int {
    if after.transfers == before.transfers {
        0
    } else {
        gain(after.transfers.last(), before.call.contract_address)
    }
}

/// The fees that a change withdraws.
pub open spec fn withdrawn_by(op: Operation) -> int {
    match op {
        Operation::WithdrawFees { amount, .. } => amount as int,
        _ => 0,
    }
}

/// The escrow itself is not a party of the change.
pub open spec fn escrow_is_no_party(s: State, op: Operation) -> bool {
    &&& op.subject() matches Some(id) ==> {
        &&& s.contracts[id].client != s.call.contract_address
        &&& s.contracts[id].freelancer != s.call.contract_address
    }
    &&& op matches Operation::WithdrawFees { to, .. } ==> to != s.call.contract_address
}

/// The escrow never holds less than what is left of its agreements, but for the fees
/// that were withdrawn: `balance` is what it held before the change, and `withdrawn`
/// all fees withdrawn up to then. Until a dispute is resolved, it holds exactly that
/// much.
pub proof fn law_escrow_covers_its_agreements(
    before: State,
    op: Operation,
    after: State,
    balance: int,
    withdrawn: int,
)
    requires
        steps(before, op, after),
        escrow_is_no_party(before, op),
        total_left(before) <= balance + withdrawn,
    ensures
        total_left(after) <= balance + escrow_gain(before, after) + withdrawn + withdrawn_by(op),
        !(op is ResolveDispute) ==> total_left(after) - total_left(before) == escrow_gain(
            before,
            after,
        ) + withdrawn_by(op),
{
    match op.subject() {
        Some(contract_id) => {
            lemma_subject_known(before, op, contract_id);
            assert forall|id: u32| id != contract_id implies #[trigger] after.contracts.contains_key(
                id,
            ) == before.contracts.contains_key(id) && after.contracts[id]
                == before.contracts[id] by {
                lemma_records_independent(before, op, id);
            }
            law_agreements_are_kept(before, op, after, contract_id);
            lemma_left_changes_with_one(
                before.contracts,
                after.contracts,
                contract_id,
                0x1_0000_0000,
            );
            law_tokens_move_as_the_books_do(before, op, after, contract_id);
            if op is ResolveDispute {
                assert(before.contracts[contract_id].balanced());
                lemma_resolve_leaves_nothing(before, op, contract_id);
            }
        },
        None => {
            law_other_changes_move_only_fees(before, op, after);
            if op is Create {
                let id = before.config.next_contract_id;
                assert(after.contracts == before.contracts.insert(id, after.contracts[id]));
                lemma_left_without_new(
                    before.contracts,
                    id,
                    after.contracts[id],
                    0x1_0000_0000,
                );
            } else {
                assert(after.contracts == before.contracts);
            }
        },
    }
}

pub(crate) proof fn lemma_subject_known(before: State, op: Operation, contract_id: u32)
    requires
        op.refusal(before) is None,
        op.subject() == Some(contract_id),
    ensures
        before.contracts.contains_key(contract_id),
{
}

proof fn lemma_resolve_leaves_nothing(before: State, op: Operation, contract_id: u32)
    requires
        before.wf(),
        op.refusal(before) is None,
        op.subject() == Some(contract_id),
        op is ResolveDispute,
    ensures
        op.effect(before).contracts[contract_id].available() == 0,
{
    lemma_subject_known(before, op, contract_id);
    assert(before.contracts[contract_id].balanced());
    match op {
        Operation::ResolveDispute { resolution, .. } => {
            lemma_payouts(before.contracts[contract_id], resolution);
        },
        _ => {},
    }
}

} // verus!
