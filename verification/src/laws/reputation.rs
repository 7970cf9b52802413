//! What holds of ratings: who earns them, how often, and what they add up to.
use vstd::prelude::*;
use crate::env::{fail, State};
use crate::laws::lifecycle::lemma_records_independent;
use crate::operation::{steps, Operation};
use crate::reputation::{average_rating, rating_effect, rating_refusal};
use crate::types::{Address, Contract, ContractStatus, Error, Reputation};

verus! {

/// The agreement is completed, and its freelancer `address` has not been rated for
/// it.
pub open spec fn awaits_rating(contract: Contract, address: Address) -> bool {
    &&& contract.freelancer == address
    &&& contract.status == ContractStatus::Completed
    &&& !contract.reputation_issued
}

/// The freelancer `address` has been rated for the agreement.
pub open spec fn is_rated(contract: Contract, address: Address) -> bool {
    contract.freelancer == address && contract.reputation_issued
}

/// The agreements for which `address` awaits a rating.
pub open spec fn awaiting(s: State, address: Address) -> Set<u32> {
    s.contracts.dom().filter(|id: u32| awaits_rating(s.contracts[id], address))
}

/// The agreements for which `address` has been rated.
pub open spec fn rated(s: State, address: Address) -> Set<u32> {
    s.contracts.dom().filter(|id: u32| is_rated(s.contracts[id], address))
}

/// The credits of every freelancer count the completed agreements that await a
/// rating, the ratings count those that have one, and only completed ones have one.
pub open spec fn counted(s: State) -> bool {
    &&& s.contracts.dom().finite()
    &&& forall|id: u32|
        s.contracts.contains_key(id) && (#[trigger] s.contracts[id]).reputation_issued
            ==> s.contracts[id].status == ContractStatus::Completed
    &&& forall|address: Address| #[trigger]
        s.credits_of(address) == awaiting(s, address).len()
    &&& forall|address: Address|
        (#[trigger] s.reputation_of(address)).completed_contracts == rated(s, address).len()
}

/// One for yes and none for no.
pub open spec fn one_if(yes: bool) -> int {
    if yes {
        1
    } else {
        0
    }
}

/// Replacing one agreement changes the counts by what it was and what it is.
proof fn lemma_counts_change_with_one(
    before: State,
    after: State,
    contract_id: u32,
    address: Address,
)
    requires
        before.contracts.dom().finite(),
        before.contracts.contains_key(contract_id),
        after.contracts == before.contracts.insert(contract_id, after.contracts[contract_id]),
    ensures
        after.contracts.dom().finite(),
        awaiting(after, address).len() - awaiting(before, address).len() == one_if(
            awaits_rating(after.contracts[contract_id], address),
        ) - one_if(awaits_rating(before.contracts[contract_id], address)),
        rated(after, address).len() - rated(before, address).len() == one_if(
            is_rated(after.contracts[contract_id], address),
        ) - one_if(is_rated(before.contracts[contract_id], address)),
{
    assert(after.contracts.dom() =~= before.contracts.dom());
    assert(awaiting(before, address).finite());
    assert(awaiting(after, address).finite());
    if awaits_rating(after.contracts[contract_id], address) {
        assert(awaiting(after, address) =~= awaiting(before, address).insert(contract_id));
    } else {
        assert(awaiting(after, address) =~= awaiting(before, address).remove(contract_id));
    }
    if is_rated(after.contracts[contract_id], address) {
        assert(rated(after, address) =~= rated(before, address).insert(contract_id));
    } else {
        assert(rated(after, address) =~= rated(before, address).remove(contract_id));
    }
}

/// What a change adds to the credits and the ratings of a freelancer is what it adds
/// to the agreements that await a rating and that have one.
proof fn lemma_credits_step(before: State, op: Operation, contract_id: u32, address: Address)
    requires
        before.wf(),
        op.has_room(before),
        op.refusal(before) is None,
        op.subject() == Some(contract_id),
        before.contracts[contract_id].reputation_issued ==> before.contracts[contract_id].status
            == ContractStatus::Completed,
    ensures
        ({
            let after = op.effect(before);
            let old_one = before.contracts[contract_id];
            let new_one = after.contracts[contract_id];
            &&& after.credits_of(address) - before.credits_of(address) == one_if(
                awaits_rating(new_one, address),
            ) - one_if(awaits_rating(old_one, address))
            &&& after.reputation_of(address).completed_contracts - before.reputation_of(
                address,
            ).completed_contracts == one_if(is_rated(new_one, address)) - one_if(
                is_rated(old_one, address),
            )
            &&& new_one.reputation_issued ==> new_one.status == ContractStatus::Completed
        }),
{
    match op {
        Operation::Release { .. } => {},
        Operation::ReleaseBatch { .. } => {},
        Operation::Refund { .. } => {},
        Operation::ResolveDispute { .. } => {},
        Operation::Rate { .. } => {},
        Operation::Deposit { .. } => {},
        Operation::Cancel { .. } => {},
        Operation::RaiseDispute { .. } => {},
        _ => {},
    }
}

/// Credits are granted once per completed agreement and used up once per rating:
/// every change keeps the counts right, whichever way an agreement is completed.
pub proof fn law_credits_count_completed_agreements(before: State, op: Operation, after: State)
    requires
        steps(before, op, after),
        counted(before),
    ensures
        counted(after),
{
    match op.subject() {
        Some(contract_id) => {
            assert(before.contracts.contains_key(contract_id));
            assert(after.contracts =~= before.contracts.insert(
                contract_id,
                after.contracts[contract_id],
            )) by {
                lemma_only_subject_changes(before, op, contract_id);
            }
            assert(before.contracts[contract_id].reputation_issued
                ==> before.contracts[contract_id].status == ContractStatus::Completed);
            lemma_counts_change_with_one(
                before,
                after,
                contract_id,
                before.contracts[contract_id].freelancer,
            );
            assert forall|address: Address| #[trigger]
                after.credits_of(address) == awaiting(after, address).len() by {
                assert(before.credits_of(address) == awaiting(before, address).len());
                lemma_counts_change_with_one(before, after, contract_id, address);
                lemma_credits_step(before, op, contract_id, address);
            }
            assert forall|address: Address|
                (#[trigger] after.reputation_of(address)).completed_contracts == rated(
                    after,
                    address,
                ).len() by {
                assert(before.reputation_of(address).completed_contracts == rated(
                    before,
                    address,
                ).len());
                lemma_counts_change_with_one(before, after, contract_id, address);
                lemma_credits_step(before, op, contract_id, address);
            }
            lemma_credits_step(
                before,
                op,
                contract_id,
                before.contracts[contract_id].freelancer,
            );
        },
        None => {
            lemma_no_credits_elsewhere(before, op);
            if op is Create {
                assert(after.contracts.dom() =~= before.contracts.dom().insert(
                    before.config.next_contract_id,
                ));
            }
            assert forall|address: Address| awaiting(after, address) == #[trigger] awaiting(
                before,
                address,
            ) && rated(after, address) == rated(before, address) by {
                assert(awaiting(after, address) =~= awaiting(before, address));
                assert(rated(after, address) =~= rated(before, address));
            }
            assert forall|address: Address| #[trigger]
                after.credits_of(address) == awaiting(after, address).len() by {
                assert(before.credits_of(address) == awaiting(before, address).len());
            }
            assert forall|address: Address|
                (#[trigger] after.reputation_of(address)).completed_contracts == rated(
                    after,
                    address,
                ).len() by {
                assert(before.reputation_of(address).completed_contracts == rated(
                    before,
                    address,
                ).len());
                assert(awaiting(before, address) == awaiting(after, address));
            }
        },
    }
}

proof fn lemma_only_subject_changes(before: State, op: Operation, contract_id: u32)
    requires
        op.refusal(before) is None,
        op.subject() == Some(contract_id),
    ensures
        op.effect(before).contracts.contains_key(contract_id),
        forall|id: u32|
            id != contract_id ==> #[trigger] op.effect(before).contracts.contains_key(id)
                == before.contracts.contains_key(id) && op.effect(before).contracts[id]
                == before.contracts[id],
{
    assert forall|id: u32| id != contract_id implies #[trigger] op.effect(
        before,
    ).contracts.contains_key(id) == before.contracts.contains_key(id) && op.effect(
        before,
    ).contracts[id] == before.contracts[id] by {
        lemma_records_independent(before, op, id);
    }
}

/// A change that is not about an agreement leaves credits and ratings alone, and
/// makes at most a new agreement that is neither completed nor rated.
proof fn lemma_no_credits_elsewhere(before: State, op: Operation)
    requires
        op.refusal(before) is None,
        op.subject() is None,
    ensures
        op.effect(before).reputation_credits == before.reputation_credits,
        op.effect(before).reputations == before.reputations,
        op is Create ==> {
            let id = before.config.next_contract_id;
            let fresh = op.effect(before).contracts[id];
            &&& !before.contracts.contains_key(id)
            &&& op.effect(before).contracts == before.contracts.insert(id, fresh)
            &&& fresh.status == ContractStatus::Created
            &&& !fresh.reputation_issued
        },
        !(op is Create) ==> op.effect(before).contracts == before.contracts,
{
}

/// Where the counts are right, a completed agreement that has not been rated has its
/// credit, so that a rating is never refused for the want of one.
pub proof fn law_completed_agreements_can_be_rated(
    s: State,
    contract_id: u32,
    caller: Address,
    rating: u32,
    comment: Seq<u8>,
)
    requires
        s.wf(),
        counted(s),
    ensures
        rating_refusal(s, contract_id, caller, rating, comment) != fail(Error::InvalidState),
{
    if s.contracts.contains_key(contract_id) {
        let freelancer = s.contracts[contract_id].freelancer;
        if awaits_rating(s.contracts[contract_id], freelancer) {
            assert(awaiting(s, freelancer).contains(contract_id));
            assert(awaiting(s, freelancer).finite());
            assert(awaiting(s, freelancer).len() > 0) by {
                if awaiting(s, freelancer).len() == 0 {
                    assert(awaiting(s, freelancer) =~= Set::empty());
                }
            }
            assert(s.credits_of(freelancer) == awaiting(s, freelancer).len());
        }
    }
}

/// An agreement is rated once: its comment and its rating are on record then, and
/// every further rating of it is refused.
pub proof fn law_agreement_is_rated_once(
    s: State,
    contract_id: u32,
    caller: Address,
    rating: u32,
    comment: Vec<u8>,
    again: u32,
    other: Seq<u8>,
)
    requires
        s.wf(),
        rating_refusal(s, contract_id, caller, rating, comment@) is None,
        s.reputation_of(s.contracts[contract_id].freelancer).has_room(),
    ensures
        ({
            let after = rating_effect(s, contract_id, caller, rating, comment);
            let freelancer = s.contracts[contract_id].freelancer;
            &&& after.reputation_comments[contract_id] == comment
            &&& after.reputation_of(freelancer).completed_contracts == s.reputation_of(
                freelancer,
            ).completed_contracts + 1
            &&& after.reputation_of(freelancer).total_rating == s.reputation_of(
                freelancer,
            ).total_rating + rating
            &&& after.reputation_of(freelancer).last_rating == rating
            &&& after.credits_of(freelancer) == s.credits_of(freelancer) - 1
            &&& rating_refusal(after, contract_id, caller, again, other) is Some
            &&& 1 <= again <= 5 && 0 < other.len() <= 200 ==> rating_refusal(
                after,
                contract_id,
                caller,
                again,
                other,
            ) == fail(Error::ReputationAlreadyIssued)
        }),
{
}

/// An average rating lies between one and five, in basis points.
pub proof fn law_average_rating_is_between_one_and_five(reputation: Reputation)
    requires
        reputation.consistent(),
    ensures
        average_rating(reputation) matches Some(average) ==> 10_000 <= average <= 50_000,
        average_rating(reputation) is Some ==> reputation.completed_contracts > 0,
        reputation.completed_contracts > 0 && reputation.total_rating * 10_000 <= i128::MAX
            ==> average_rating(reputation) is Some,
{
    if reputation.completed_contracts > 0 {
        let total = reputation.total_rating * 10_000;
        let count = reputation.completed_contracts as int;
        assert(10_000 * count <= total <= 50_000 * count);
        assert(10_000 <= total / count <= 50_000) by (nonlinear_arith)
            requires
                count > 0,
                10_000 * count <= total <= 50_000 * count,
        ;
    }
}

} // verus!
