//! How two calls relate.
use vstd::prelude::*;
use crate::env::Env;
use crate::escrow::Escrow;
use crate::laws::calls::agreements::{
    law_approve_milestone_release, law_create_contract, law_release_milestone,
};
use crate::laws::calls::reading::{law_get_contract_summary, law_get_milestones};
use crate::laws::calls::settling::{law_refund_unreleased_milestones, law_release_milestones};
use crate::types::{
    Address, ContractSummary, Error, Halt, Milestone, ReleaseAuthorization,
};

verus! {

/// The same people approve a milestone, release it and release it with others, and the
/// mode says who: the client alone, the arbiter alone, either of the two, or the client
/// and the freelancer. Nobody else does any of it, the freelancer and the client
/// included where the arbiter decides.
pub proof fn law_who_approves_and_releases(
    approving: &mut Env,
    releasing: &mut Env,
    batching: &mut Env,
    contract_id: u32,
    caller: Address,
    milestone_index: u32,
    milestone_indices: Vec<u32>,
    approved: Result<bool, Halt>,
    released: Result<bool, Halt>,
    batch: Result<bool, Halt>,
)
    requires
        old(approving)@.wf(),
        old(releasing)@ == old(approving)@,
        old(batching)@ == old(approving)@,
        ({
            let s = old(approving)@;
            let key = s.contracts[contract_id].freelancer.id;
            s.reputation_credits.contains_key(key) ==> s.reputation_credits[key] < i128::MAX
        }),
        call_ensures(
            Escrow::approve_milestone_release,
            (approving, contract_id, caller, milestone_index),
            approved,
        ),
        call_ensures(
            Escrow::release_milestone,
            (releasing, contract_id, caller, milestone_index),
            released,
        ),
        call_ensures(
            Escrow::release_milestones,
            (batching, contract_id, caller, milestone_indices),
            batch,
        ),
    ensures
        approved is Ok || released is Ok || batch is Ok ==> {
            let c = old(approving)@.contracts[contract_id];
            let mode = c.release_authorization;
            &&& mode == ReleaseAuthorization::ClientOnly ==> caller == c.client
            &&& mode == ReleaseAuthorization::ArbiterOnly ==> c.arbiter == Some(caller)
            &&& mode == ReleaseAuthorization::ClientAndArbiter ==> caller == c.client
                || c.arbiter == Some(caller)
            &&& mode == ReleaseAuthorization::MultiSig ==> caller == c.client || caller
                == c.freelancer
            &&& approved != Err::<bool, Halt>(Halt::Failed(Error::UnauthorizedRole))
            &&& released != Err::<bool, Halt>(Halt::Failed(Error::UnauthorizedRole))
            &&& batch != Err::<bool, Halt>(Halt::Failed(Error::UnauthorizedRole))
        },
        released is Ok || batch is Ok ==> {
            let s = old(approving)@;
            let mode = s.contracts[contract_id].release_authorization;
            let n = if released is Ok {
                milestone_index
            } else {
                milestone_indices@[0]
            };
            let key = (contract_id * 0x1_0000_0000 + n) as u64;
            let given = s.approvals[key];
            &&& s.approvals.contains_key(key)
            &&& mode == ReleaseAuthorization::ClientOnly ==> given.client_approved
            &&& mode == ReleaseAuthorization::ArbiterOnly ==> given.arbiter_approved
            &&& mode == ReleaseAuthorization::ClientAndArbiter ==> given.client_approved
                || given.arbiter_approved
            &&& mode == ReleaseAuthorization::MultiSig ==> given.client_approved
                && given.freelancer_approved
        },
{
    law_approve_milestone_release(approving, contract_id, caller, milestone_index, approved);
    law_release_milestone(releasing, contract_id, caller, milestone_index, released);
    law_release_milestones(batching, contract_id, caller, milestone_indices, batch);
}

/// The amounts that an agreement was made with are the amounts of its milestones when
/// they are read, and their sum is the total that the summary tells, though nothing is
/// funded yet.
pub proof fn law_amounts_are_read_back(
    env: &mut Env,
    client: Address,
    freelancer: Address,
    arbiter: Option<Address>,
    amounts: Vec<i128>,
    mode: ReleaseAuthorization,
    id: u32,
    later: &Env,
    list: Result<&Vec<Milestone>, Halt>,
    summary: Result<ContractSummary, Halt>,
)
    requires
        old(env)@.wf(),
        later@.wf(),
        call_ensures(
            Escrow::create_contract,
            (env, client, freelancer, arbiter, amounts, mode),
            Ok::<u32, Halt>(id),
        ),
        call_ensures(Escrow::get_milestones, (later, id), list),
        call_ensures(Escrow::get_contract_summary, (later, id), summary),
    ensures
        later@ == final(env)@ ==> {
            &&& list is Ok
            &&& list->Ok_0@.len() == amounts@.len()
            &&& forall|i: int|
                0 <= i < amounts@.len() ==> (#[trigger] list->Ok_0@[i]).amount == amounts@[i]
            &&& summary is Ok
            &&& summary->Ok_0.client == client
            &&& summary->Ok_0.freelancer == freelancer
            &&& summary->Ok_0.arbiter == arbiter
            &&& summary->Ok_0.funded_amount == 0
            &&& summary->Ok_0.total_amount == amounts@.fold_left(
                0int,
                |sum: int, amount: i128| sum + amount,
            )
        },
{
    law_create_contract(
        env,
        client,
        freelancer,
        arbiter,
        amounts,
        mode,
        Ok::<u32, Halt>(id),
    );
    law_get_milestones(later, id, list);
    law_get_contract_summary(later, id, summary);
    if later@ == final(env)@ {
        lemma_same_sum(later@.milestones[id], amounts@);
    }
}

proof fn lemma_same_sum(list: Seq<Milestone>, amounts: Seq<i128>)
    requires
        list.len() == amounts.len(),
        forall|i: int| 0 <= i < list.len() ==> (#[trigger] list[i]).amount == amounts[i],
    ensures
        list.fold_left(0int, |sum: int, m: Milestone| sum + m.amount) == amounts.fold_left(
            0int,
            |sum: int, amount: i128| sum + amount,
        ),
    decreases list.len(),
{
    if list.len() > 0 {
        lemma_same_sum(list.drop_last(), amounts.drop_last());
        assert(list.last().amount == amounts.last());
    }
}

/// A release and then a refund of the same agreement pay two parties: first the
/// freelancer, then the client, who gets the whole amount of the milestone that is
/// refunded, with nothing taken from it for what was released.
pub proof fn law_release_then_refund(
    first: &mut Env,
    second: &mut Env,
    contract_id: u32,
    caller: Address,
    released: u32,
    refunded: Vec<u32>,
    total: i128,
)
    requires
        old(first)@.wf(),
        old(second)@.wf(),
        ({
            let s = old(first)@;
            let key = s.contracts[contract_id].freelancer.id;
            s.reputation_credits.contains_key(key) ==> s.reputation_credits[key] < i128::MAX
        }),
        ({
            let s = old(second)@;
            let key = s.contracts[contract_id].freelancer.id;
            s.reputation_credits.contains_key(key) ==> s.reputation_credits[key] < i128::MAX
        }),
        call_ensures(
            Escrow::release_milestone,
            (first, contract_id, caller, released),
            Ok::<bool, Halt>(true),
        ),
        call_ensures(
            Escrow::refund_unreleased_milestones,
            (second, contract_id, refunded),
            Ok::<i128, Halt>(total),
        ),
    ensures
        old(second)@ == final(first)@ ==> {
            let before = old(first)@;
            let after = final(second)@;
            let c = before.contracts[contract_id];
            let list = before.milestones[contract_id];
            let fee = list[released as int].amount * before.config.protocol_fee_bps / 10_000;
            let n = before.transfers.len() as int;
            &&& after.transfers.len() == n + 2
            &&& after.transfers.take(n) == before.transfers
            &&& after.transfers[n].to == c.freelancer
            &&& after.transfers[n].amount == list[released as int].amount - fee
            &&& after.transfers[n + 1].to == c.client
            &&& after.transfers[n + 1].amount == refunded@.fold_left(
                0int,
                |sum: int, index: u32| sum + list[index as int].amount,
            )
            &&& !refunded@.contains(released)
        },
{
    law_release_milestone(first, contract_id, caller, released, Ok::<bool, Halt>(true));
    law_refund_unreleased_milestones(second, contract_id, refunded, Ok::<i128, Halt>(total));
    if old(second)@ == final(first)@ {
        let s = old(first)@;
        let m = old(second)@;
        let list = s.milestones[contract_id];
        let now = m.milestones[contract_id];
        lemma_same_named_sum(list, now, refunded@);
        if refunded@.contains(released) {
            let k = choose|k: int| 0 <= k < refunded@.len() && refunded@[k] == released;
            assert(now[refunded@[k] as int].released);
        }
    }
}

proof fn lemma_same_named_sum(list: Seq<Milestone>, now: Seq<Milestone>, indices: Seq<u32>)
    requires
        forall|k: int|
            0 <= k < indices.len() ==> list[#[trigger] indices[k] as int].amount
                == now[indices[k] as int].amount,
    ensures
        indices.fold_left(0int, |sum: int, index: u32| sum + list[index as int].amount)
            == indices.fold_left(0int, |sum: int, index: u32| sum + now[index as int].amount),
    decreases indices.len(),
{
    if indices.len() > 0 {
        let rest = indices.drop_last();
        assert forall|k: int| 0 <= k < rest.len() implies list[#[trigger] rest[k] as int].amount
            == now[rest[k] as int].amount by {
            assert(rest[k] == indices[k]);
        }
        lemma_same_named_sum(list, now, rest);
        assert(list[indices[indices.len() - 1] as int].amount
            == now[indices[indices.len() - 1] as int].amount);
    }
}

} // verus!
