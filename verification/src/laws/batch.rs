//! A batch release is as good as one release after the other, in whatever order.
use vstd::prelude::*;
use crate::env::{all_settled, approval_slot, milestones_sound, Config, State};
use crate::event::Transfer;
use crate::fees::{fee_of, fee_unchargeable};
use crate::laws::lifecycle::lemma_batch_items_accepted;
use crate::laws::money::lemma_batch_totals;
use crate::release::{
    batch_effect, batch_item_refusal, batch_refusal, first_item_refusal, lemma_fee_bounds,
    lemma_take_contains, release_effect, release_refusal, released_milestones, slots_of,
    some_fee_unchargeable, total_amount, total_fee,
};
use crate::types::{Address, Contract, ContractStatus, Milestone};

verus! {

/// The state after the milestones that `indices` names have been released one by
/// one.
pub open spec fn release_each(
    s: State,
    contract_id: u32,
    caller: Address,
    indices: Seq<u32>,
) -> State
    decreases indices.len(),
{
    if indices.len() == 0 {
        s
    } else {
        release_effect(
            release_each(s, contract_id, caller, indices.drop_last()),
            contract_id,
            caller,
            indices.last(),
        )
    }
}

/// The states hold the same records, whatever transfers and events led to them.
pub open spec fn same_outcome(a: State, b: State) -> bool {
    State { transfers: b.transfers, events: b.events, ..a } == b
}

/// What was paid out of the escrow to `to`, in the bound token, from the transfer at
/// `start` on.
pub open spec fn paid_since(s: State, transfers: Seq<Transfer>, start: nat, to: Address) -> int
    decreases transfers.len(),
{
    if transfers.len() <= start {
        0
    } else {
        let t = transfers.last();
        paid_since(s, transfers.drop_last(), start, to) + if s.config.settlement_token == Some(
            t.token,
        ) && t.from == s.call.contract_address && t.to == to {
            t.amount as int
        } else {
            0
        }
    }
}

/// What the transfers that led from `s` to `r` paid to the freelancer of the
/// agreement.
pub open spec fn paid_to_freelancer(s: State, r: State, contract_id: u32) -> int {
    paid_since(s, r.transfers, s.transfers.len(), s.contracts[contract_id].freelancer)
}

/// The milestones that `indices` names are fully funded.
pub open spec fn fully_funded(milestones: Seq<Milestone>, indices: Seq<u32>) -> bool {
    forall|k: int|
        0 <= k < indices.len() ==> milestones[#[trigger] indices[k] as int].funded_amount
            >= milestones[indices[k] as int].amount
}

/// Both the batch as a whole and its milestones one by one may be released.
pub open spec fn batch_ready(
    s: State,
    contract_id: u32,
    caller: Address,
    indices: Seq<u32>,
) -> bool {
    let contract = s.contracts[contract_id];
    let milestones = s.milestones[contract_id];
    &&& s.wf()
    &&& s.config.initialized
    &&& s.freeze() is None
    &&& s.authorized.contains(caller)
    &&& s.closed(contract_id) is None
    &&& contract.status == ContractStatus::Funded
    &&& contract.may_release(caller)
    &&& s.milestones.contains_key(contract_id)
    &&& fully_funded(milestones, indices)
    &&& indices.no_duplicates()
    &&& forall|k: int|
        0 <= k < indices.len() ==> batch_item_refusal(s, contract_id, #[trigger] indices[k])
            is None && !fee_unchargeable(
            milestones[indices[k] as int].amount,
            s.config.protocol_fee_bps,
        )
    &&& contract.available() - s.config.accumulated_fees >= total_amount(milestones, indices)
    &&& s.config.settlement_token is Some
}

/// `r` is `s` after the milestones that `indices` names have been released and paid
/// for, in however many transfers, and whatever events were published.
pub open spec fn progressed(s: State, r: State, contract_id: u32, indices: Seq<u32>) -> bool {
    let before = s.contracts[contract_id];
    let milestones = s.milestones[contract_id];
    let list = released_milestones(milestones, indices);
    let done = indices.len() > 0 && all_settled(list);
    let fee = total_fee(milestones, indices, s.config.protocol_fee_bps);
    let net = total_amount(milestones, indices) - fee;
    let freelancer = before.freelancer;
    &&& r == State {
        contracts: s.contracts.insert(
            contract_id,
            Contract {
                released_amount: (before.released_amount + net) as i128,
                status: if done {
                    ContractStatus::Completed
                } else {
                    before.status
                },
                ..before
            },
        ),
        milestones: s.milestones.insert(contract_id, list),
        config: Config {
            accumulated_fees: (s.config.accumulated_fees + fee) as i128,
            ..s.config
        },
        approvals: s.approvals.remove_keys(slots_of(contract_id, indices)),
        reputation_credits: if done {
            s.reputation_credits.insert(freelancer.id, (s.credits_of(freelancer) + 1) as i128)
        } else {
            s.reputation_credits
        },
        transfers: r.transfers,
        events: r.events,
        ..s
    }
    &&& r.transfers.len() >= s.transfers.len()
    &&& paid_to_freelancer(s, r, contract_id) == net
}

/// What is ready as a batch is ready without its last milestone.
proof fn lemma_shorter_batch_ready(
    s: State,
    contract_id: u32,
    caller: Address,
    indices: Seq<u32>,
)
    requires
        batch_ready(s, contract_id, caller, indices),
        indices.len() > 0,
    ensures
        batch_ready(s, contract_id, caller, indices.drop_last()),
        !indices.drop_last().contains(indices.last()),
{
    let rest = indices.drop_last();
    let milestones = s.milestones[contract_id];
    assert forall|k: int| 0 <= k < rest.len() implies batch_item_refusal(
        s,
        contract_id,
        #[trigger] rest[k],
    ) is None && !fee_unchargeable(
        milestones[rest[k] as int].amount,
        s.config.protocol_fee_bps,
    ) by {
        assert(rest[k] == indices[k]);
    }
    assert(fully_funded(milestones, rest)) by {
        assert forall|k: int| 0 <= k < rest.len() implies milestones[
            #[trigger] rest[k] as int].funded_amount >= milestones[rest[k] as int].amount by {
            assert(rest[k] == indices[k]);
        }
    }
    assert(rest.no_duplicates());
    let last = indices[indices.len() - 1];
    assert(milestones_sound(milestones));
    assert(batch_item_refusal(s, contract_id, last) is None);
    assert(milestones[last as int].sound());
    if rest.contains(indices.last()) {
        let k = choose|k: int| 0 <= k < rest.len() && rest[k] == indices.last();
        assert(indices[k] == indices[indices.len() - 1]);
    }
}

/// One more release takes the state from one step of the batch to the next.
proof fn lemma_release_progresses(
    s: State,
    r: State,
    contract_id: u32,
    caller: Address,
    indices: Seq<u32>,
)
    requires
        batch_ready(s, contract_id, caller, indices),
        indices.len() > 0,
        progressed(s, r, contract_id, indices.drop_last()),
    ensures
        release_refusal(r, contract_id, caller, indices.last()) is None,
        progressed(
            s,
            release_effect(r, contract_id, caller, indices.last()),
            contract_id,
            indices,
        ),
{
    let rest = indices.drop_last();
    let last = indices.last();
    let milestones = s.milestones[contract_id];
    assert(fully_funded(milestones, indices));
    let bps = s.config.protocol_fee_bps;
    let before = s.contracts[contract_id];
    lemma_shorter_batch_ready(s, contract_id, caller, indices);
    assert(last == indices[indices.len() - 1]);
    assert(batch_item_refusal(s, contract_id, last) is None);
    assert(milestones_sound(milestones));
    assert(milestones[last as int].sound());
    assert(before.balanced());
    assert forall|k: int| 0 <= k < rest.len() implies #[trigger] rest[k] < milestones.len()
        && !fee_unchargeable(milestones[rest[k] as int].amount, bps) by {
        assert(batch_item_refusal(s, contract_id, rest[k]) is None);
    }
    lemma_batch_totals(milestones, rest, bps);
    lemma_fee_bounds(milestones[last as int].amount, bps);

    let list = released_milestones(milestones, rest);
    assert(list[last as int] == milestones[last as int]);
    assert(!all_settled(list)) by {
        assert(!list[last as int].settled());
    }
    let slot = approval_slot(contract_id, last);
    assert(!slots_of(contract_id, rest).contains(slot)) by {
        if slots_of(contract_id, rest).contains(slot) {
            let k = choose|k: int|
                0 <= k < rest.len() && slot == approval_slot(contract_id, #[trigger] rest[k]);
            assert(rest[k] == last);
            assert(rest.contains(last));
        }
    }
    assert(r.approvals_of(contract_id, last) == s.approvals_of(contract_id, last));
    assert(r.contracts[contract_id].status == ContractStatus::Funded);
    assert(release_refusal(r, contract_id, caller, last) is None);

    let after = release_effect(r, contract_id, caller, last);
    let grown = released_milestones(milestones, indices);
    assert(list.update(last as int, list[last as int].after_release()) =~= grown) by {
        assert forall|i: int| 0 <= i < milestones.len() implies list.update(
            last as int,
            list[last as int].after_release(),
        )[i] == #[trigger] grown[i] by {
            assert(indices.take(indices.len() as int) =~= indices);
            assert(indices.take(indices.len() - 1) =~= rest);
            lemma_take_contains(indices, indices.len() - 1, i as u32);
        }
    }
    assert(after.milestones =~= s.milestones.insert(contract_id, grown));
    assert(after.approvals =~= s.approvals.remove_keys(slots_of(contract_id, indices))) by {
        assert forall|key: u64|
            slots_of(contract_id, indices).contains(key) == (slots_of(contract_id, rest).contains(
                key,
            ) || key == slot) by {
            if slots_of(contract_id, indices).contains(key) {
                let k = choose|k: int|
                    0 <= k < indices.len() && key == approval_slot(
                        contract_id,
                        #[trigger] indices[k],
                    );
                if k < rest.len() {
                    assert(rest[k] == indices[k]);
                }
            }
            if slots_of(contract_id, rest).contains(key) {
                let k = choose|k: int|
                    0 <= k < rest.len() && key == approval_slot(contract_id, #[trigger] rest[k]);
                assert(indices[k] == rest[k]);
            }
            assert(key == slot ==> key == approval_slot(contract_id, indices[indices.len() - 1]));
        }
    }
    assert(after.contracts =~= s.contracts.insert(contract_id, after.contracts[contract_id]));
    assert(total_amount(milestones, indices) == total_amount(milestones, rest)
        + milestones[last as int].amount);
    assert(total_fee(milestones, indices, bps) == total_fee(milestones, rest, bps) + fee_of(
        milestones[last as int].amount as int,
        bps,
    ));
    assert(after.transfers.drop_last() =~= r.transfers);
}

/// Releasing one by one is accepted at every step, and leads where the batch leads.
proof fn lemma_release_each_progresses(
    s: State,
    contract_id: u32,
    caller: Address,
    indices: Seq<u32>,
)
    requires
        batch_ready(s, contract_id, caller, indices),
    ensures
        progressed(
            s,
            release_each(s, contract_id, caller, indices),
            contract_id,
            indices,
        ),
    decreases indices.len(),
{
    if indices.len() > 0 {
        lemma_shorter_batch_ready(s, contract_id, caller, indices);
        lemma_release_each_progresses(s, contract_id, caller, indices.drop_last());
        lemma_release_progresses(
            s,
            release_each(s, contract_id, caller, indices.drop_last()),
            contract_id,
            caller,
            indices,
        );
    } else {
        let milestones = s.milestones[contract_id];
        assert(released_milestones(milestones, indices) =~= milestones);
        assert(s.milestones.insert(contract_id, milestones) =~= s.milestones);
        assert(s.contracts.insert(contract_id, s.contracts[contract_id]) =~= s.contracts);
        assert(s.approvals.remove_keys(slots_of(contract_id, indices)) =~= s.approvals);
    }
}

/// What an accepted batch names can be released, one milestone as well as all.
proof fn lemma_accepted_batch_ready(
    s: State,
    contract_id: u32,
    caller: Address,
    indices: Seq<u32>,
)
    requires
        s.wf(),
        batch_refusal(s, contract_id, caller, indices) is None,
        fully_funded(s.milestones[contract_id], indices),
    ensures
        batch_ready(s, contract_id, caller, indices),
{
    assert forall|k: int| 0 <= k < indices.len() implies batch_item_refusal(
        s,
        contract_id,
        #[trigger] indices[k],
    ) is None by {
        lemma_batch_items_accepted(s, contract_id, indices, 0, k);
    }
}

/// An accepted batch releases and pays for what it names.
proof fn lemma_batch_progresses(
    s: State,
    contract_id: u32,
    caller: Address,
    milestone_indices: Vec<u32>,
)
    requires
        s.wf(),
        batch_refusal(s, contract_id, caller, milestone_indices@) is None,
    ensures
        progressed(
            s,
            batch_effect(s, contract_id, caller, milestone_indices),
            contract_id,
            milestone_indices@,
        ),
{
    let indices = milestone_indices@;
    let milestones = s.milestones[contract_id];
    let bps = s.config.protocol_fee_bps;
    let batch = batch_effect(s, contract_id, caller, milestone_indices);
    assert(milestones_sound(milestones));
    assert(s.contracts[contract_id].balanced());
    assert forall|k: int| 0 <= k < indices.len() implies #[trigger] indices[k] < milestones.len()
        && !fee_unchargeable(milestones[indices[k] as int].amount, bps) by {
        lemma_batch_items_accepted(s, contract_id, indices, 0, k);
    }
    lemma_batch_totals(milestones, indices, bps);
    assert(batch.transfers.drop_last() =~= s.transfers);
    assert(paid_since(
        s,
        s.transfers,
        s.transfers.len(),
        s.contracts[contract_id].freelancer,
    ) == 0);
}

/// `order` names what `indices` names, in any order.
pub open spec fn permutes(order: Seq<u32>, indices: Seq<u32>) -> bool {
    order.to_multiset() == indices.to_multiset()
}

/// Both name the same milestones.
proof fn lemma_permutation_contains(order: Seq<u32>, indices: Seq<u32>)
    requires
        permutes(order, indices),
    ensures
        order.len() == indices.len(),
        forall|x: u32| #[trigger] order.contains(x) == indices.contains(x),
        indices.no_duplicates() ==> order.no_duplicates(),
{
    order.to_multiset_ensures();
    indices.to_multiset_ensures();
    assert forall|x: u32| #[trigger] order.contains(x) == indices.contains(x) by {
        assert(order.to_multiset().count(x) == indices.to_multiset().count(x));
    }
    if indices.no_duplicates() {
        indices.lemma_multiset_has_no_duplicates();
        order.lemma_multiset_has_no_duplicates_conv();
    }
}

/// A milestone taken out of a list takes its amount and its fee out of the totals.
proof fn lemma_totals_without(
    milestones: Seq<Milestone>,
    indices: Seq<u32>,
    p: int,
    fee_bps: u32,
)
    requires
        0 <= p < indices.len(),
    ensures
        total_amount(milestones, indices) == total_amount(milestones, indices.remove(p))
            + milestones[indices[p] as int].amount,
        total_fee(milestones, indices, fee_bps) == total_fee(
            milestones,
            indices.remove(p),
            fee_bps,
        ) + fee_of(milestones[indices[p] as int].amount as int, fee_bps),
    decreases indices.len(),
{
    let rest = indices.drop_last();
    if p == indices.len() - 1 {
        assert(indices.remove(p) =~= rest);
    } else {
        lemma_totals_without(milestones, rest, p, fee_bps);
        assert(indices.remove(p).drop_last() =~= rest.remove(p));
        assert(indices.remove(p).last() == indices.last());
    }
}

/// The totals do not depend on the order.
proof fn lemma_permutation_totals(
    milestones: Seq<Milestone>,
    order: Seq<u32>,
    indices: Seq<u32>,
    fee_bps: u32,
)
    requires
        permutes(order, indices),
    ensures
        total_amount(milestones, order) == total_amount(milestones, indices),
        total_fee(milestones, order, fee_bps) == total_fee(milestones, indices, fee_bps),
    decreases indices.len(),
{
    lemma_permutation_contains(order, indices);
    if indices.len() > 0 {
        let last = indices.len() - 1;
        assert(indices.contains(indices[last]));
        assert(order.contains(indices[last]));
        let p = choose|p: int| 0 <= p < order.len() && order[p] == indices[last];
        order.to_multiset_ensures();
        indices.to_multiset_ensures();
        assert(permutes(order.remove(p), indices.remove(last)));
        lemma_permutation_totals(milestones, order.remove(p), indices.remove(last), fee_bps);
        lemma_totals_without(milestones, order, p, fee_bps);
        lemma_totals_without(milestones, indices, last, fee_bps);
    }
}

/// What has been released and paid for does not depend on the order.
proof fn lemma_permutation_progresses(
    s: State,
    r: State,
    contract_id: u32,
    order: Seq<u32>,
    indices: Seq<u32>,
)
    requires
        permutes(order, indices),
        progressed(s, r, contract_id, order),
    ensures
        progressed(s, r, contract_id, indices),
{
    let milestones = s.milestones[contract_id];
    lemma_permutation_contains(order, indices);
    lemma_permutation_totals(milestones, order, indices, s.config.protocol_fee_bps);
    assert(released_milestones(milestones, order) =~= released_milestones(milestones, indices));
    assert(slots_of(contract_id, order) =~= slots_of(contract_id, indices)) by {
        assert forall|slot: u64|
            slots_of(contract_id, order).contains(slot) == slots_of(contract_id, indices).contains(
                slot,
            ) by {
            if slots_of(contract_id, order).contains(slot) {
                lemma_slots_by_name(contract_id, order, indices, slot);
            }
            if slots_of(contract_id, indices).contains(slot) {
                lemma_slots_by_name(contract_id, indices, order, slot);
            }
        }
    }
}

/// Where one list names no more than another, its approval keys are among the
/// other's.
proof fn lemma_slots_by_name(contract_id: u32, some: Seq<u32>, other: Seq<u32>, slot: u64)
    requires
        forall|x: u32| some.contains(x) ==> #[trigger] other.contains(x),
        slots_of(contract_id, some).contains(slot),
    ensures
        slots_of(contract_id, other).contains(slot),
{
    let k = choose|k: int|
        0 <= k < some.len() && slot == approval_slot(contract_id, #[trigger] some[k]);
    assert(some.contains(some[k]));
    assert(other.contains(some[k]));
    let j = choose|j: int| 0 <= j < other.len() && other[j] == some[k];
    assert(slot == approval_slot(contract_id, other[j]));
}

/// A batch in which no milestone is refused is not refused for one of them.
proof fn lemma_no_item_refused(s: State, contract_id: u32, indices: Seq<u32>, k: int)
    requires
        0 <= k <= indices.len(),
        forall|j: int|
            0 <= j < indices.len() ==> batch_item_refusal(s, contract_id, #[trigger] indices[j])
                is None,
    ensures
        first_item_refusal(s, contract_id, indices, k) is None,
    decreases indices.len() - k,
{
    if k < indices.len() {
        assert(batch_item_refusal(s, contract_id, indices[k]) is None);
        lemma_no_item_refused(s, contract_id, indices, k + 1);
    }
}

/// A batch that is accepted in one order is accepted in every order.
proof fn lemma_permutation_accepted(
    s: State,
    contract_id: u32,
    caller: Address,
    order: Seq<u32>,
    indices: Seq<u32>,
)
    requires
        batch_refusal(s, contract_id, caller, indices) is None,
        permutes(order, indices),
    ensures
        batch_refusal(s, contract_id, caller, order) is None,
{
    let milestones = s.milestones[contract_id];
    let bps = s.config.protocol_fee_bps;
    lemma_permutation_contains(order, indices);
    lemma_permutation_totals(milestones, order, indices, bps);
    assert forall|j: int| 0 <= j < order.len() implies batch_item_refusal(
        s,
        contract_id,
        #[trigger] order[j],
    ) is None && !fee_unchargeable(milestones[order[j] as int].amount, bps) by {
        assert(order.contains(order[j]));
        let k = choose|k: int| 0 <= k < indices.len() && indices[k] == order[j];
        lemma_batch_items_accepted(s, contract_id, indices, 0, k);
        assert(!fee_unchargeable(milestones[indices[k] as int].amount, bps));
    }
    lemma_no_item_refused(s, contract_id, order, 0);
    assert(!some_fee_unchargeable(milestones, order, bps));
}

/// The order in which a batch names its milestones does not matter: in every other
/// order it is accepted as well, leaves the same records and makes the same payment.
/// Only the published request tells the orders apart.
pub proof fn law_order_of_a_batch_does_not_matter(
    s: State,
    contract_id: u32,
    caller: Address,
    milestone_indices: Vec<u32>,
    order: Vec<u32>,
)
    requires
        s.wf(),
        batch_refusal(s, contract_id, caller, milestone_indices@) is None,
        permutes(order@, milestone_indices@),
    ensures
        batch_refusal(s, contract_id, caller, order@) is None,
        same_outcome(
            batch_effect(s, contract_id, caller, order),
            batch_effect(s, contract_id, caller, milestone_indices),
        ),
        batch_effect(s, contract_id, caller, order).transfers == batch_effect(
            s,
            contract_id,
            caller,
            milestone_indices,
        ).transfers,
{
    lemma_permutation_accepted(s, contract_id, caller, order@, milestone_indices@);
    lemma_batch_progresses(s, contract_id, caller, milestone_indices);
    lemma_batch_progresses(s, contract_id, caller, order);
    let one = batch_effect(s, contract_id, caller, milestone_indices);
    let other = batch_effect(s, contract_id, caller, order);
    lemma_permutation_progresses(s, other, contract_id, order@, milestone_indices@);
    assert(State { transfers: one.transfers, events: one.events, ..other } =~= one);
    lemma_permutation_totals(
        s.milestones[contract_id],
        order@,
        milestone_indices@,
        s.config.protocol_fee_bps,
    );
}

/// A batch release is as good as releasing its milestones one by one, in any order:
/// each of those releases is accepted, they leave the same records, and what they
/// pay to the freelancer adds up to what the batch pays. A single release asks for a
/// fully funded milestone, so the milestones have to be that.
pub proof fn law_batch_equals_single_releases(
    s: State,
    contract_id: u32,
    caller: Address,
    milestone_indices: Vec<u32>,
    order: Seq<u32>,
)
    requires
        s.wf(),
        batch_refusal(s, contract_id, caller, milestone_indices@) is None,
        permutes(order, milestone_indices@),
        fully_funded(s.milestones[contract_id], milestone_indices@),
    ensures
        forall|k: int|
            0 <= k < order.len() ==> release_refusal(
                release_each(s, contract_id, caller, order.take(k)),
                contract_id,
                caller,
                #[trigger] order[k],
            ) is None,
        same_outcome(
            batch_effect(s, contract_id, caller, milestone_indices),
            release_each(s, contract_id, caller, order),
        ),
        paid_to_freelancer(
            s,
            release_each(s, contract_id, caller, order),
            contract_id,
        ) == paid_to_freelancer(
            s,
            batch_effect(s, contract_id, caller, milestone_indices),
            contract_id,
        ),
{
    let milestones = s.milestones[contract_id];
    let indices = milestone_indices@;
    lemma_permutation_accepted(s, contract_id, caller, order, indices);
    lemma_permutation_contains(order, indices);
    assert(fully_funded(milestones, order)) by {
        assert forall|j: int| 0 <= j < order.len() implies milestones[
            #[trigger] order[j] as int].funded_amount >= milestones[order[j] as int].amount by {
            assert(order.contains(order[j]));
            let k = choose|k: int| 0 <= k < indices.len() && indices[k] == order[j];
            assert(milestones[indices[k] as int].funded_amount
                >= milestones[indices[k] as int].amount);
        }
    }
    lemma_accepted_batch_ready(s, contract_id, caller, order);
    lemma_release_each_progresses(s, contract_id, caller, order);
    let each = release_each(s, contract_id, caller, order);
    lemma_permutation_progresses(s, each, contract_id, order, indices);
    lemma_batch_progresses(s, contract_id, caller, milestone_indices);
    let batch = batch_effect(s, contract_id, caller, milestone_indices);
    assert(State { transfers: each.transfers, events: each.events, ..batch } =~= each);
    assert forall|k: int| 0 <= k < order.len() implies release_refusal(
        release_each(s, contract_id, caller, order.take(k)),
        contract_id,
        caller,
        #[trigger] order[k],
    ) is None by {
        lemma_prefix_ready(s, contract_id, caller, order, k + 1);
        let prefix = order.take(k + 1);
        assert(prefix.drop_last() =~= order.take(k));
        assert(prefix.last() == order[k]);
        lemma_shorter_batch_ready(s, contract_id, caller, prefix);
        lemma_release_each_progresses(s, contract_id, caller, order.take(k));
        lemma_release_progresses(
            s,
            release_each(s, contract_id, caller, order.take(k)),
            contract_id,
            caller,
            prefix,
        );
    }
}

/// What is ready as a batch is ready up to any of its milestones.
proof fn lemma_prefix_ready(
    s: State,
    contract_id: u32,
    caller: Address,
    indices: Seq<u32>,
    n: int,
)
    requires
        batch_ready(s, contract_id, caller, indices),
        0 <= n <= indices.len(),
    ensures
        batch_ready(s, contract_id, caller, indices.take(n)),
    decreases indices.len() - n,
{
    if n == indices.len() {
        assert(indices.take(n) =~= indices);
    } else {
        lemma_prefix_ready(s, contract_id, caller, indices, n + 1);
        lemma_shorter_batch_ready(s, contract_id, caller, indices.take(n + 1));
        assert(indices.take(n + 1).drop_last() =~= indices.take(n));
    }
}

} // verus!
