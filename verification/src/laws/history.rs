//! What holds after any calls whatever: the invariants hold of a blank escrow, every
//! change keeps them, and so they hold in every state that calls can lead to.
use vstd::prelude::*;
use crate::admin::MAX_FEE_BPS;
use crate::amount_validation::{lemma_sums_bounded, MAX_MILESTONES};
use crate::create_contract::fresh_milestone;
use crate::deposit::share_of;
use crate::env::{fail, milestones_sound, Config, Invocation, State};
use crate::fees::fee_unchargeable;
use crate::laws::batch::{
    fully_funded, law_batch_equals_single_releases, paid_to_freelancer, permutes, release_each,
    same_outcome,
};
use crate::laws::funding::{funding_sound, law_funded_agreements_have_funded_milestones};
use crate::laws::lifecycle::{
    law_agreements_are_independent, law_agreements_are_kept, lemma_batch_items_accepted,
    lemma_milestone_step, lemma_refund_items_accepted,
};
use crate::laws::money::{
    escrow_gain, escrow_is_no_party, law_escrow_covers_its_agreements, law_fee_is_rounded_down,
    left_below, lemma_other_step, lemma_payouts, lemma_refund_total, lemma_release_step,
    total_left, withdrawn_by,
};
use crate::laws::reputation::{
    awaiting, counted, law_credits_count_completed_agreements, rated,
};
use crate::laws::settings::{
    ids_allocated, law_fee_rate_stays_within_its_ceiling, law_ids_are_allocated_in_order,
};
use crate::operation::{steps, Operation};
use crate::release::{batch_effect, batch_refusal, first_item_refusal, release_refusal};
use crate::types::{Address, Contract, Error, ReadinessChecklist};

verus! {

/// Every milestone is within its limits after a change.
proof fn lemma_milestone_stays_sound(before: State, op: Operation, contract_id: u32, i: int)
    requires
        op.refusal(before) is None,
        op.subject() == Some(contract_id),
        before.milestones.contains_key(contract_id),
        milestones_sound(before.milestones[contract_id]),
        0 <= i < before.milestones[contract_id].len(),
    ensures
        op.effect(before).milestones[contract_id][i].sound(),
{
    let milestones = before.milestones[contract_id];
    assert(milestones[i].sound());
    match op {
        Operation::ReleaseBatch { milestone_indices, .. } => {
            if milestone_indices@.contains(i as u32) {
                let k = choose|k: int|
                    0 <= k < milestone_indices@.len() && milestone_indices@[k] == i as u32;
                lemma_batch_items_accepted(before, contract_id, milestone_indices@, 0, k);
            }
        },
        Operation::Refund { milestone_indices, .. } => {
            if milestone_indices@.contains(i as u32) {
                let k = choose|k: int|
                    0 <= k < milestone_indices@.len() && milestone_indices@[k] == i as u32;
                lemma_refund_items_accepted(before, contract_id, milestone_indices@, 0, k);
            }
        },
        Operation::Deposit { .. } => {
            let funded = before.contracts[contract_id].funded_amount + op->Deposit_amount;
            assert(0 <= share_of(milestones, funded, i) <= milestones[i].amount);
        },
        Operation::Release { .. } => {},
        Operation::SubmitEvidence { .. } => {},
        _ => {},
    }
}

/// The books of the agreement that a change is about stay balanced.
proof fn lemma_books_stay_balanced(before: State, op: Operation, contract_id: u32)
    requires
        before.wf(),
        op.refusal(before) is None,
        op.subject() == Some(contract_id),
        before.contracts.contains_key(contract_id),
    ensures
        op.effect(before).contracts[contract_id].balanced(),
        op.effect(before).config.accumulated_fees >= 0,
{
    assert(before.contracts[contract_id].balanced());
    if op is Release || op is ReleaseBatch {
        lemma_release_step(before, op, contract_id);
    } else {
        lemma_other_step(before, op, contract_id);
        match op {
            Operation::Deposit { .. } => {
                let milestones = before.milestones[contract_id];
                lemma_sums_bounded(milestones, milestones.len());
            },
            Operation::ResolveDispute { resolution, .. } => {
                lemma_payouts(before.contracts[contract_id], resolution);
            },
            Operation::Refund { milestone_indices, .. } => {
                lemma_refund_total(before, contract_id, milestone_indices@);
            },
            Operation::Cancel { .. } => {},
            _ => {},
        }
    }
}

/// Credits stay countable and ratings consistent.
proof fn lemma_ratings_stay_sound(before: State, op: Operation, key: u64)
    requires
        before.wf(),
        op.has_room(before),
        op.refusal(before) is None,
    ensures
        ({
            let after = op.effect(before);
            &&& after.reputation_credits.contains_key(key) ==> after.reputation_credits[key] >= 0
            &&& after.reputations.contains_key(key) ==> after.reputations[key].consistent()
        }),
{
    match op {
        Operation::Rate { contract_id, .. } => {
            assert(before.reputation_of(before.contracts[contract_id].freelancer).consistent());
        },
        Operation::Release { .. } => {},
        Operation::ReleaseBatch { .. } => {},
        Operation::Refund { .. } => {},
        Operation::ResolveDispute { .. } => {},
        _ => {},
    }
}

/// The settings stay sound.
proof fn lemma_settings_stay_sound(before: State, op: Operation)
    requires
        before.wf(),
        op.refusal(before) is None,
        op.effect(before).config.accumulated_fees >= 0,
    ensures
        op.effect(before).config.sound(),
{
}

proof fn lemma_new_milestones_sound(before: State, op: Operation)
    requires
        op.refusal(before) is None,
        op is Create,
    ensures
        milestones_sound(op.effect(before).milestones[before.config.next_contract_id]),
        op.effect(before).contracts[before.config.next_contract_id].balanced(),
        op.effect(before).milestones == before.milestones.insert(
            before.config.next_contract_id,
            op.effect(before).milestones[before.config.next_contract_id],
        ),
        op.effect(before).contracts == before.contracts.insert(
            before.config.next_contract_id,
            op.effect(before).contracts[before.config.next_contract_id],
        ),
{
    let amounts = op->amounts;
    let list = op.effect(before).milestones[before.config.next_contract_id];
    assert(list.len() == amounts.len() <= MAX_MILESTONES);
    assert forall|i: int| 0 <= i < list.len() implies (#[trigger] list[i]).sound() by {
        assert(list[i] == fresh_milestone(amounts[i]));
        assert(0 < amounts[i]);
    }
}

/// Every change keeps the records sound: the settings, the books of every agreement,
/// the limits of every milestone, and the ratings.
pub proof fn law_changes_keep_records_sound(before: State, op: Operation, after: State)
    requires
        steps(before, op, after),
    ensures
        after.wf(),
{
    assert(after.config.accumulated_fees >= 0) by {
        match op.subject() {
            Some(contract_id) => {
                assert(before.contracts.contains_key(contract_id));
                lemma_books_stay_balanced(before, op, contract_id);
            },
            None => {},
        }
    }
    lemma_settings_stay_sound(before, op);
    assert forall|id: u32| after.contracts.contains_key(id) implies (
    #[trigger] after.contracts[id]).balanced() by {
        if op.subject() == Some(id) {
            assert(before.contracts.contains_key(id));
            lemma_books_stay_balanced(before, op, id);
        } else if before.contracts.contains_key(id) {
            law_agreements_are_independent(before, op, after, id);
            assert(before.contracts[id].balanced());
        } else {
            lemma_only_creation_adds(before, op, id);
            lemma_new_milestones_sound(before, op);
        }
    }
    assert forall|id: u32| after.milestones.contains_key(id) implies milestones_sound(
        #[trigger] after.milestones[id],
    ) by {
        lemma_milestones_stay_sound(before, op, id);
    }
    assert forall|key: u64| after.reputation_credits.contains_key(key) implies
        #[trigger] after.reputation_credits[key] >= 0 by {
        lemma_ratings_stay_sound(before, op, key);
    }
    assert forall|key: u64| after.reputations.contains_key(key) implies (
    #[trigger] after.reputations[key]).consistent() by {
        lemma_ratings_stay_sound(before, op, key);
    }
}

proof fn lemma_only_creation_adds(before: State, op: Operation, id: u32)
    requires
        op.refusal(before) is None,
        op.effect(before).contracts.contains_key(id),
        !before.contracts.contains_key(id),
    ensures
        op is Create,
        id == before.config.next_contract_id,
{
}

proof fn lemma_milestones_stay_sound(before: State, op: Operation, id: u32)
    requires
        before.wf(),
        op.refusal(before) is None,
        op.effect(before).milestones.contains_key(id),
    ensures
        milestones_sound(op.effect(before).milestones[id]),
{
    let after = op.effect(before);
    if op is Create {
        lemma_new_milestones_sound(before, op);
        if id != before.config.next_contract_id {
            assert(milestones_sound(before.milestones[id]));
        }
    } else if op.subject() != Some(id) {
        lemma_other_milestones(before, op, id);
        assert(milestones_sound(before.milestones[id]));
    } else {
        lemma_milestones_were_there(before, op, id);
        let milestones = before.milestones[id];
        assert(milestones_sound(milestones));
        assert forall|i: int| 0 <= i < milestones.len() implies (
        #[trigger] after.milestones[id][i]).sound() by {
            lemma_milestone_stays_sound(before, op, id, i);
        }
        if milestones.len() > 0 {
            assert(milestones[0].sound());
            lemma_milestone_step(before, op, id, 0);
        }
        lemma_milestone_count(before, op, id);
    }
}

proof fn lemma_other_milestones(before: State, op: Operation, id: u32)
    requires
        op.subject() != Some(id),
        !(op is Create),
    ensures
        op.effect(before).milestones.contains_key(id) == before.milestones.contains_key(id),
        op.effect(before).milestones[id] == before.milestones[id],
{
}

proof fn lemma_milestones_were_there(before: State, op: Operation, id: u32)
    requires
        op.refusal(before) is None,
        op.subject() == Some(id),
        op.effect(before).milestones.contains_key(id),
    ensures
        before.milestones.contains_key(id),
{
}

proof fn lemma_milestone_count(before: State, op: Operation, id: u32)
    requires
        op.refusal(before) is None,
        op.subject() == Some(id),
    ensures
        op.effect(before).milestones[id].len() == before.milestones[id].len(),
{
}

/// A call as the escrow gets it: the ledger, the authorizations and the token probes
/// that come with it, and the approvals and migrations that have expired by then.
pub struct Request {
    pub call: Invocation,
    pub authorized: Seq<Address>,
    pub token_probes: Map<u64, bool>,
    pub expired_approvals: Set<u64>,
    pub expired_migrations: Set<u32>,
    pub op: Operation,
}

/// What the escrow sees when the request comes.
pub open spec fn presented(s: State, request: Request) -> State {
    State {
        call: request.call,
        authorized: request.authorized,
        token_probes: request.token_probes,
        approvals: s.approvals.remove_keys(request.expired_approvals),
        migrations: s.migrations.remove_keys(request.expired_migrations),
        transfers: Seq::empty(),
        events: Seq::empty(),
        ..s
    }
}

/// What is there once the request has been answered.
pub open spec fn answered(s: State, request: Request) -> State {
    let seen = presented(s, request);
    if request.op.refusal(seen) is None {
        request.op.effect(seen)
    } else {
        seen
    }
}

/// An escrow that nobody has set up.
pub open spec fn blank(escrow: Address) -> State {
    State {
        call: Invocation { contract_address: escrow, timestamp: 0, sequence: 0 },
        config: Config {
            initialized: false,
            admin: None,
            settlement_token: None,
            paused: false,
            emergency: false,
            checklist: ReadinessChecklist {
                initialized: false,
                governed_params_set: false,
                emergency_controls_enabled: false,
            },
            protocol_fee_bps: 0,
            accumulated_fees: 0,
            pending_admin: None,
            governed: None,
            next_contract_id: 1,
        },
        authorized: Seq::empty(),
        token_probes: Map::empty(),
        contracts: Map::empty(),
        milestones: Map::empty(),
        approvals: Map::empty(),
        finalizations: Map::empty(),
        migrations: Map::empty(),
        reputation_issued: Map::empty(),
        reputation_comments: Map::empty(),
        reputation_credits: Map::empty(),
        reputations: Map::empty(),
        transfers: Seq::empty(),
        events: Seq::empty(),
    }
}

/// What is there once all requests of `history` have been answered, in order.
pub open spec fn state_after(escrow: Address, history: Seq<Request>) -> State
    decreases history.len(),
{
    if history.len() == 0 {
        blank(escrow)
    } else {
        answered(state_after(escrow, history.drop_last()), history.last())
    }
}

/// All that holds of an escrow at all times.
pub open spec fn sound(s: State) -> bool {
    &&& s.wf()
    &&& s.config.protocol_fee_bps <= MAX_FEE_BPS
    &&& ids_allocated(s)
    &&& counted(s)
    &&& forall|id: u32| #[trigger]
        s.contracts.contains_key(id) ==> s.milestones.contains_key(id) && funding_sound(
            s.contracts[id].status,
            s.milestones[id],
        )
}

/// There are no more ids below `n` than `n`.
proof fn lemma_few_ids(ids: Set<u32>, n: nat)
    requires
        ids.finite(),
        forall|id: u32| ids.contains(id) ==> id < n,
    ensures
        ids.len() <= n,
    decreases n,
{
    if n == 0 {
        assert(ids =~= Set::empty());
    } else {
        let last = (n - 1) as u32;
        let rest = ids.remove(last);
        assert forall|id: u32| rest.contains(id) implies id < n - 1 by {
            assert(ids.contains(id));
        }
        lemma_few_ids(rest, (n - 1) as nat);
    }
}

/// In a sound state the counters have room for every call.
pub proof fn law_counters_have_room(s: State, op: Operation)
    requires
        sound(s),
    ensures
        op.has_room(s),
{
    match op.subject() {
        Some(contract_id) => {
            let freelancer = s.contracts[contract_id].freelancer;
            assert(s.credits_of(freelancer) == awaiting(s, freelancer).len());
            assert(s.reputation_of(freelancer).completed_contracts == rated(
                s,
                freelancer,
            ).len());
            lemma_few_ids(awaiting(s, freelancer), 0x1_0000_0000);
            lemma_few_ids(rated(s, freelancer), 0x1_0000_0000);
            assert(s.reputation_of(freelancer).consistent());
        },
        None => {},
    }
}

/// What the host brings along with a request leaves the records sound.
pub(crate) proof fn lemma_presented_sound(s: State, request: Request)
    requires
        sound(s),
    ensures
        sound(presented(s, request)),
{
    let seen = presented(s, request);
    assert(seen.wf());
    assert forall|address: Address| #[trigger]
        seen.credits_of(address) == awaiting(seen, address).len() by {
        assert(s.credits_of(address) == awaiting(s, address).len());
        assert(awaiting(seen, address) =~= awaiting(s, address));
    }
    assert forall|address: Address|
        (#[trigger] seen.reputation_of(address)).completed_contracts == rated(
            seen,
            address,
        ).len() by {
        assert(s.reputation_of(address).completed_contracts == rated(s, address).len());
        assert(rated(seen, address) =~= rated(s, address));
    }
}

/// One more request leaves the records sound.
proof fn lemma_answered_sound(s: State, request: Request)
    requires
        sound(s),
    ensures
        sound(answered(s, request)),
{
    let seen = presented(s, request);
    let op = request.op;
    lemma_presented_sound(s, request);
    if op.refusal(seen) is None {
        let after = op.effect(seen);
        law_counters_have_room(seen, op);
        law_changes_keep_records_sound(seen, op, after);
        law_fee_rate_stays_within_its_ceiling(seen, op, after);
        law_ids_are_allocated_in_order(seen, op, after);
        law_credits_count_completed_agreements(seen, op, after);
        assert forall|id: u32| #[trigger] after.contracts.contains_key(id) implies {
            &&& after.milestones.contains_key(id)
            &&& funding_sound(after.contracts[id].status, after.milestones[id])
        } by {
            assert(seen.contracts.contains_key(id) ==> seen.milestones.contains_key(id));
            law_funded_agreements_have_funded_milestones(seen, op, after, id);
        }
    }
}

/// Whatever calls an escrow gets, accepted or refused, its records are sound
/// afterwards: the books are balanced, the fee rate is within its ceiling, the ids
/// have no gaps, every credit and every rating is counted, and funded agreements
/// have funded milestones.
pub proof fn law_every_history_is_sound(escrow: Address, history: Seq<Request>)
    ensures
        sound(state_after(escrow, history)),
    decreases history.len(),
{
    if history.len() == 0 {
        let s = blank(escrow);
        assert forall|address: Address| #[trigger]
            s.credits_of(address) == awaiting(s, address).len() by {
            assert(awaiting(s, address) =~= Set::empty());
        }
        assert forall|address: Address|
            (#[trigger] s.reputation_of(address)).completed_contracts == rated(
                s,
                address,
            ).len() by {
            assert(rated(s, address) =~= Set::empty());
        }
        assert(s.contracts.dom() =~= Set::empty());
        assert(sound(s));
    } else {
        law_every_history_is_sound(escrow, history.drop_last());
        lemma_answered_sound(state_after(escrow, history.drop_last()), history.last());
    }
}

/// Whatever calls an escrow got before, a batch release that it accepts is as good as
/// releasing the milestones one by one, in any order: each of those releases is
/// accepted, they leave the same records, and they pay the freelancer as much.
/// `arrival` is what the host brings along with the call.
pub proof fn law_batches_equal_single_releases_after_every_history(
    escrow: Address,
    history: Seq<Request>,
    arrival: Request,
    contract_id: u32,
    caller: Address,
    milestone_indices: Vec<u32>,
    order: Seq<u32>,
)
    requires
        batch_refusal(
            presented(state_after(escrow, history), arrival),
            contract_id,
            caller,
            milestone_indices@,
        ) is None,
        permutes(order, milestone_indices@),
    ensures
        ({
            let s = presented(state_after(escrow, history), arrival);
            let batch = batch_effect(s, contract_id, caller, milestone_indices);
            let each = release_each(s, contract_id, caller, order);
            &&& same_outcome(batch, each)
            &&& paid_to_freelancer(s, each, contract_id) == paid_to_freelancer(
                s,
                batch,
                contract_id,
            )
            &&& forall|k: int|
                0 <= k < order.len() ==> release_refusal(
                    release_each(s, contract_id, caller, order.take(k)),
                    contract_id,
                    caller,
                    #[trigger] order[k],
                ) is None
        }),
{
    let s = presented(state_after(escrow, history), arrival);
    let indices = milestone_indices@;
    law_every_history_is_sound(escrow, history);
    lemma_presented_sound(state_after(escrow, history), arrival);
    assert(s.contracts.contains_key(contract_id));
    assert(fully_funded(s.milestones[contract_id], indices)) by {
        assert forall|k: int| 0 <= k < indices.len() implies s.milestones[contract_id][
            #[trigger] indices[k] as int].funded_amount
            >= s.milestones[contract_id][indices[k] as int].amount by {
            lemma_batch_items_accepted(s, contract_id, indices, 0, k);
        }
    }
    law_batch_equals_single_releases(s, contract_id, caller, milestone_indices, order);
}

/// In a sound state no release is refused for a fee that cannot be charged.
pub proof fn law_fees_can_be_charged(
    s: State,
    contract_id: u32,
    caller: Address,
    milestone_index: u32,
    indices: Seq<u32>,
)
    requires
        sound(s),
    ensures
        release_refusal(s, contract_id, caller, milestone_index) != fail(
            Error::PotentialOverflow,
        ),
        batch_refusal(s, contract_id, caller, indices) != fail(Error::PotentialOverflow),
{
    let bps = s.config.protocol_fee_bps;
    if s.contracts.contains_key(contract_id) {
        let milestones = s.milestones[contract_id];
        assert(milestones_sound(milestones));
        if milestone_index < milestones.len() {
            assert(milestones[milestone_index as int].sound());
            law_fee_is_rounded_down(milestones[milestone_index as int].amount, bps);
        }
        if first_item_refusal(s, contract_id, indices, 0) is None {
            assert forall|k: int| 0 <= k < indices.len() implies !fee_unchargeable(
                milestones[#[trigger] indices[k] as int].amount,
                bps,
            ) by {
                lemma_batch_items_accepted(s, contract_id, indices, 0, k);
                assert(milestones[indices[k] as int].sound());
                law_fee_is_rounded_down(milestones[indices[k] as int].amount, bps);
            }
        } else {
            lemma_items_give_no_overflow(s, contract_id, indices, 0);
        }
    }
}

proof fn lemma_items_give_no_overflow(s: State, contract_id: u32, indices: Seq<u32>, k: int)
    requires
        0 <= k <= indices.len(),
    ensures
        first_item_refusal(s, contract_id, indices, k) != fail(Error::PotentialOverflow),
    decreases indices.len() - k,
{
    if k < indices.len() {
        lemma_items_give_no_overflow(s, contract_id, indices, k + 1);
    }
}

/// The request comes to `escrow` and makes it neither a party of an agreement nor a
/// receiver of fees.
pub open spec fn from_outside(escrow: Address, request: Request) -> bool {
    &&& request.call.contract_address == escrow
    &&& match request.op {
        Operation::Create { client, freelancer, .. } => client != escrow && freelancer != escrow,
        Operation::AcceptMigration { new_client, .. } => new_client != escrow,
        Operation::WithdrawFees { to, .. } => to != escrow,
        _ => true,
    }
}

/// The tokens that the escrow holds after `history`, if it held none at first.
pub open spec fn held_after(escrow: Address, history: Seq<Request>) -> int
    decreases history.len(),
{
    if history.len() == 0 {
        0
    } else {
        let before = state_after(escrow, history.drop_last());
        held_after(escrow, history.drop_last()) + escrow_gain(
            presented(before, history.last()),
            answered(before, history.last()),
        )
    }
}

/// The fees that were withdrawn in `history`.
pub open spec fn withdrawn_in(escrow: Address, history: Seq<Request>) -> int
    decreases history.len(),
{
    if history.len() == 0 {
        0
    } else {
        let before = state_after(escrow, history.drop_last());
        let accepted = history.last().op.refusal(presented(before, history.last())) is None;
        withdrawn_in(escrow, history.drop_last()) + if accepted {
            withdrawn_by(history.last().op)
        } else {
            0
        }
    }
}

/// The escrow is not a party of any agreement.
pub open spec fn has_outside_parties(s: State, escrow: Address) -> bool {
    forall|id: u32| #[trigger]
        s.contracts.contains_key(id) ==> s.contracts[id].client != escrow
            && s.contracts[id].freelancer != escrow
}

proof fn lemma_parties_stay_outside(before: State, op: Operation, after: State, escrow: Address)
    requires
        steps(before, op, after),
        has_outside_parties(before, escrow),
        match op {
            Operation::Create { client, freelancer, .. } => client != escrow && freelancer
                != escrow,
            Operation::AcceptMigration { new_client, .. } => new_client != escrow,
            _ => true,
        },
    ensures
        has_outside_parties(after, escrow),
{
    assert forall|id: u32| #[trigger] after.contracts.contains_key(id) implies
        after.contracts[id].client != escrow && after.contracts[id].freelancer != escrow by {
        if before.contracts.contains_key(id) {
            law_agreements_are_kept(before, op, after, id);
            if op.subject() != Some(id) {
                law_agreements_are_independent(before, op, after, id);
            }
        } else {
            lemma_only_creation_adds(before, op, id);
        }
    }
}

/// Whatever calls an escrow gets, it holds at least what is left of its agreements,
/// but for the fees that were withdrawn, and exactly that much if no dispute was
/// decided.
pub proof fn law_every_history_is_covered(escrow: Address, history: Seq<Request>)
    requires
        forall|k: int| 0 <= k < history.len() ==> from_outside(escrow, #[trigger] history[k]),
    ensures
        total_left(state_after(escrow, history)) <= held_after(escrow, history) + withdrawn_in(
            escrow,
            history,
        ),
        (forall|k: int| 0 <= k < history.len() ==> !((#[trigger] history[k]).op is ResolveDispute))
            ==> total_left(state_after(escrow, history)) == held_after(escrow, history)
            + withdrawn_in(escrow, history),
        has_outside_parties(state_after(escrow, history), escrow),
    decreases history.len(),
{
    if history.len() == 0 {
        lemma_nothing_left(blank(escrow), 0x1_0000_0000);
    } else {
        let rest = history.drop_last();
        let request = history.last();
        let op = request.op;
        assert(request == history[history.len() - 1]);
        assert forall|k: int| 0 <= k < rest.len() implies from_outside(
            escrow,
            #[trigger] rest[k],
        ) by {
            assert(rest[k] == history[k]);
        }
        law_every_history_is_covered(escrow, rest);
        if forall|k: int| 0 <= k < history.len() ==> !((#[trigger] history[k]).op is ResolveDispute) {
            assert forall|k: int| 0 <= k < rest.len() implies !((#[trigger] rest[k]).op
                is ResolveDispute) by {
                assert(rest[k] == history[k]);
            }
        }
        let before = state_after(escrow, rest);
        let seen = presented(before, request);
        let after = answered(before, request);
        law_every_history_is_sound(escrow, rest);
        lemma_presented_sound(before, request);
        assert(seen.contracts == before.contracts);
        if op.refusal(seen) is None {
            law_counters_have_room(seen, op);
            lemma_subject_outside(seen, op, escrow);
            law_escrow_covers_its_agreements(
                seen,
                op,
                after,
                held_after(escrow, rest),
                withdrawn_in(escrow, rest),
            );
            lemma_parties_stay_outside(seen, op, after, escrow);
        }
    }
}

pub(crate) proof fn lemma_subject_outside(s: State, op: Operation, escrow: Address)
    requires
        op.refusal(s) is None,
        has_outside_parties(s, escrow),
        s.call.contract_address == escrow,
        op matches Operation::WithdrawFees { to, .. } ==> to != escrow,
    ensures
        escrow_is_no_party(s, op),
{
    match op.subject() {
        Some(id) => {
            assert(s.contracts.contains_key(id));
        },
        None => {},
    }
}

/// Nothing is left where there are no agreements.
proof fn lemma_nothing_left(s: State, n: nat)
    requires
        s.contracts == Map::<u32, Contract>::empty(),
    ensures
        left_below(s.contracts, n) == 0,
    decreases n,
{
    if n > 0 {
        lemma_nothing_left(s, (n - 1) as nat);
    }
}

} // verus!
