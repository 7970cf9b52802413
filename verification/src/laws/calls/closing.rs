//! Disputes, ratings, deliverable references, closes and migrations.
use vstd::prelude::*;
use crate::env::{Env, State};
use crate::escrow::Escrow;
use crate::event::Event;
use crate::types::{
    Address, Contract, ContractStatus, DisputeResolution, Error, FinalizationRecord, Halt,
    Milestone, PendingClientMigration,
};

verus! {

/// The client or the freelancer opens a dispute over a funded agreement that has an
/// arbiter. Nothing but its status changes.
pub proof fn law_raise_dispute(
    env: &mut Env,
    contract_id: u32,
    caller: Address,
    result: Result<bool, Halt>,
)
    requires
        old(env)@.wf(),
        call_ensures(Escrow::raise_dispute, (env, contract_id, caller), result),
    ensures
        result is Err ==> final(env)@ == old(env)@,
        ({
            let s = old(env)@;
            let t = final(env)@;
            let c = s.contracts[contract_id];
            if !s.config.initialized {
                result == Err::<bool, Halt>(Halt::Failed(Error::NotInitialized))
            } else if s.config.emergency || s.config.paused {
                result == Err::<bool, Halt>(Halt::Failed(Error::ContractPaused))
            } else if !s.authorized.contains(caller) {
                result == Err::<bool, Halt>(Halt::AuthRequired(caller))
            } else if !s.contracts.contains_key(contract_id) {
                result == Err::<bool, Halt>(Halt::Failed(Error::ContractNotFound))
            } else if s.finalizations.contains_key(contract_id) {
                result == Err::<bool, Halt>(Halt::Failed(Error::AlreadyFinalized))
            } else if caller != c.client && caller != c.freelancer {
                result == Err::<bool, Halt>(Halt::Failed(Error::UnauthorizedRole))
            } else if c.arbiter is None {
                result == Err::<bool, Halt>(Halt::Failed(Error::ArbiterRequired))
            } else if c.status != ContractStatus::Funded
                && c.status != ContractStatus::PartiallyFunded {
                result == Err::<bool, Halt>(Halt::Failed(Error::InvalidState))
            } else {
                &&& result == Ok::<bool, Halt>(true)
                &&& t == (State {
                    contracts: s.contracts.insert(
                        contract_id,
                        Contract { status: ContractStatus::Disputed, ..c },
                    ),
                    events: s.events.push(Event::DisputeOpened { contract_id, caller }),
                    ..s
                })
            }
        }),
{
}

/// The arbiter of the agreement, and nobody else, decides its dispute: what is left of it
/// is entered as paid back and paid out, to the last stroop. It is completed if anything
/// ever went to the freelancer, who then earns a credit, and refunded otherwise.
pub proof fn law_resolve_dispute(
    env: &mut Env,
    contract_id: u32,
    caller: Address,
    resolution: DisputeResolution,
    result: Result<bool, Halt>,
)
    requires
        old(env)@.wf(),
        ({
            let s = old(env)@;
            let key = s.contracts[contract_id].freelancer.id;
            s.reputation_credits.contains_key(key) ==> s.reputation_credits[key] < i128::MAX
        }),
        call_ensures(Escrow::resolve_dispute, (env, contract_id, caller, resolution), result),
    ensures
        result is Err ==> final(env)@ == old(env)@,
        ({
            let s = old(env)@;
            let t = final(env)@;
            let c = s.contracts[contract_id];
            let left = c.funded_amount - c.released_amount - c.refunded_amount;
            let divided = resolution matches DisputeResolution::Split(split) ==> (
                split.client_amount >= 0 && split.freelancer_amount >= 0
                && split.client_amount + split.freelancer_amount == left);
            let client = match resolution {
                DisputeResolution::FullRefund => left,
                DisputeResolution::FullPayout => 0,
                DisputeResolution::PartialRefund => left * 70 / 100,
                DisputeResolution::Split(split) => split.client_amount as int,
            };
            let credits = if s.reputation_credits.contains_key(c.freelancer.id) {
                s.reputation_credits[c.freelancer.id] as int
            } else {
                0
            };
            if !s.config.initialized {
                result == Err::<bool, Halt>(Halt::Failed(Error::NotInitialized))
            } else if s.config.emergency || s.config.paused {
                result == Err::<bool, Halt>(Halt::Failed(Error::ContractPaused))
            } else if !s.authorized.contains(caller) {
                result == Err::<bool, Halt>(Halt::AuthRequired(caller))
            } else if !s.contracts.contains_key(contract_id) {
                result == Err::<bool, Halt>(Halt::Failed(Error::ContractNotFound))
            } else if s.finalizations.contains_key(contract_id) {
                result == Err::<bool, Halt>(Halt::Failed(Error::AlreadyFinalized))
            } else if c.status != ContractStatus::Disputed {
                result == Err::<bool, Halt>(Halt::Failed(Error::InvalidStatusTransition))
            } else if c.arbiter != Some(caller) {
                result == Err::<bool, Halt>(Halt::Failed(Error::UnauthorizedRole))
            } else if !divided {
                result == Err::<bool, Halt>(Halt::Failed(Error::InvalidDisputeSplit))
            } else {
                let d = t.contracts[contract_id];
                &&& result == Ok::<bool, Halt>(true)
                &&& d.refunded_amount == c.refunded_amount + client
                &&& d.released_amount == c.released_amount + (left - client)
                &&& d.funded_amount - d.released_amount - d.refunded_amount == 0
                &&& d.status == if d.released_amount > 0 {
                    ContractStatus::Completed
                } else {
                    ContractStatus::Refunded
                }
                &&& t.contracts == s.contracts.insert(
                    contract_id,
                    Contract {
                        refunded_amount: d.refunded_amount,
                        released_amount: d.released_amount,
                        status: d.status,
                        ..c
                    },
                )
                &&& if d.released_amount > 0 {
                    t.reputation_credits[c.freelancer.id] == credits + 1 && t.reputation_credits
                        == s.reputation_credits.insert(
                        c.freelancer.id,
                        t.reputation_credits[c.freelancer.id],
                    )
                } else {
                    t.reputation_credits == s.reputation_credits
                }
                &&& t == (State {
                    contracts: t.contracts,
                    reputation_credits: t.reputation_credits,
                    events: s.events.push(
                        Event::DisputeResolved {
                            contract_id,
                            resolution_code: match resolution {
                                DisputeResolution::FullRefund => 0u32,
                                DisputeResolution::PartialRefund => 1u32,
                                DisputeResolution::FullPayout => 2u32,
                                DisputeResolution::Split(_) => 3u32,
                            },
                        },
                    ),
                    ..s
                })
            }
        }),
{
    let s = old(env)@;
    if s.contracts.contains_key(contract_id) {
        assert(s.contracts[contract_id].balanced());
    }
}

/// The payouts of a decision are what it gives to the client and the rest of what is
/// left. They fail for a split that does not divide what is left, for books from which
/// more went out than came in, and where what is left does not fit its integer.
pub proof fn law_resolution_payouts(
    contract: Contract,
    resolution: DisputeResolution,
    result: Result<(i128, i128), Error>,
)
    requires
        call_ensures(crate::dispute::resolution_payouts, (&contract, &resolution), result),
    ensures
        ({
            let left = contract.funded_amount - contract.released_amount - contract.refunded_amount;
            let divided = resolution matches DisputeResolution::Split(split) ==> (
                split.client_amount >= 0 && split.freelancer_amount >= 0
                && split.client_amount + split.freelancer_amount == left);
            let client = match resolution {
                DisputeResolution::FullRefund => left,
                DisputeResolution::FullPayout => 0,
                DisputeResolution::PartialRefund => left * 70 / 100,
                DisputeResolution::Split(split) => split.client_amount as int,
            };
            let kept = contract.funded_amount - contract.released_amount;
            if kept < i128::MIN || kept > i128::MAX || left < i128::MIN || left > i128::MAX {
                result == Err::<(i128, i128), Error>(Error::PotentialOverflow)
            } else if left < 0 {
                result == Err::<(i128, i128), Error>(Error::AccountingInvariantViolated)
            } else if !divided {
                result == Err::<(i128, i128), Error>(Error::InvalidDisputeSplit)
            } else {
                &&& result is Ok
                &&& result->Ok_0.0 == client
                &&& result->Ok_0.0 + result->Ok_0.1 == left
                &&& 0 <= result->Ok_0.0
                &&& 0 <= result->Ok_0.1
            }
        }),
{
}

/// A decided agreement is completed if anything went to the freelancer, and refunded
/// otherwise.
pub proof fn law_final_status_after_resolution(
    contract: Contract,
    result: ContractStatus,
)
    requires
        call_ensures(crate::dispute::final_status_after_resolution, (&contract,), result),
    ensures
        result == if contract.released_amount > 0 {
            ContractStatus::Completed
        } else {
            ContractStatus::Refunded
        },
{
}

/// The client of a completed agreement rates its freelancer, once, with one to five and a
/// comment of 1 to 200 bytes. The rating is added to the freelancer's record and to
/// nobody else's, the comment is kept, and one credit is used up.
pub proof fn law_issue_reputation(
    env: &mut Env,
    contract_id: u32,
    caller: Address,
    rating: u32,
    comment: Vec<u8>,
    result: Result<bool, Halt>,
)
    requires
        old(env)@.wf(),
        ({
            let s = old(env)@;
            let f = s.contracts[contract_id].freelancer;
            s.reputations.contains_key(f.id) ==> s.reputations[f.id].completed_contracts < i128::MAX
                && s.reputations[f.id].total_rating <= i128::MAX - 5
        }),
        call_ensures(Escrow::issue_reputation, (env, contract_id, caller, rating, comment), result),
    ensures
        result is Err ==> final(env)@ == old(env)@,
        ({
            let s = old(env)@;
            let t = final(env)@;
            let c = s.contracts[contract_id];
            let credits = if s.reputation_credits.contains_key(c.freelancer.id) {
                s.reputation_credits[c.freelancer.id] as int
            } else {
                0
            };
            if s.config.emergency {
                result == Err::<bool, Halt>(Halt::Failed(Error::EmergencyActive))
            } else if s.config.paused {
                result == Err::<bool, Halt>(Halt::Failed(Error::ContractPaused))
            } else if !s.contracts.contains_key(contract_id) {
                result == Err::<bool, Halt>(Halt::Failed(Error::ContractNotFound))
            } else if s.finalizations.contains_key(contract_id) {
                result == Err::<bool, Halt>(Halt::Failed(Error::AlreadyFinalized))
            } else if caller != c.client {
                result == Err::<bool, Halt>(Halt::Failed(Error::UnauthorizedRole))
            } else if rating == 0 || rating > 5 {
                result == Err::<bool, Halt>(Halt::Failed(Error::InvalidRating))
            } else if comment@.len() == 0 {
                result == Err::<bool, Halt>(Halt::Failed(Error::EmptyComment))
            } else if comment@.len() > 200 {
                result == Err::<bool, Halt>(Halt::Failed(Error::CommentTooLong))
            } else if c.status != ContractStatus::Completed {
                result == Err::<bool, Halt>(Halt::Failed(Error::NotCompleted))
            } else if c.reputation_issued {
                result == Err::<bool, Halt>(Halt::Failed(Error::ReputationAlreadyIssued))
            } else if c.client == c.freelancer {
                result == Err::<bool, Halt>(Halt::Failed(Error::SelfRating))
            } else if !s.authorized.contains(caller) {
                result == Err::<bool, Halt>(Halt::AuthRequired(caller))
            } else if credits <= 0 {
                result == Err::<bool, Halt>(Halt::Failed(Error::InvalidState))
            } else {
                let f = c.freelancer;
                let now = t.reputations[f.id];
                let known = s.reputations.contains_key(f.id);
                &&& result == Ok::<bool, Halt>(true)
                &&& now.completed_contracts == 1 + if known {
                    s.reputations[f.id].completed_contracts as int
                } else {
                    0
                }
                &&& now.total_rating == rating + if known {
                    s.reputations[f.id].total_rating as int
                } else {
                    0
                }
                &&& now.last_rating == rating
                &&& t.reputation_credits[f.id] == credits - 1
                &&& t == (State {
                    contracts: s.contracts.insert(
                        contract_id,
                        Contract { reputation_issued: true, ..c },
                    ),
                    reputation_issued: s.reputation_issued.insert(contract_id, true),
                    reputation_comments: s.reputation_comments.insert(contract_id, comment),
                    reputation_credits: s.reputation_credits.insert(
                        f.id,
                        t.reputation_credits[f.id],
                    ),
                    reputations: s.reputations.insert(f.id, now),
                    events: s.events.push(
                        Event::ReputationIssued {
                            contract_id,
                            client: c.client,
                            freelancer: f,
                            rating,
                            completed_contracts: now.completed_contracts,
                            total_rating: now.total_rating,
                            last_rating: now.last_rating,
                            caller,
                            timestamp: s.call.timestamp,
                        },
                    ),
                    ..s
                })
            }
        }),
{
    let s = old(env)@;
    let f = s.contracts[contract_id].freelancer;
    if s.reputations.contains_key(f.id) {
        assert(s.reputations[f.id].consistent());
    }
}

/// The freelancer of a funded agreement records a deliverable reference of at most 256
/// bytes for an open milestone. Nothing else of the milestone changes.
pub proof fn law_submit_work_evidence(
    env: &mut Env,
    contract_id: u32,
    caller: Address,
    milestone_index: u32,
    evidence: Vec<u8>,
    result: Result<bool, Halt>,
)
    requires
        old(env)@.wf(),
        call_ensures(
            Escrow::submit_work_evidence,
            (env, contract_id, caller, milestone_index, evidence),
            result,
        ),
    ensures
        result is Err ==> final(env)@ == old(env)@,
        ({
            let s = old(env)@;
            let t = final(env)@;
            let c = s.contracts[contract_id];
            let list = s.milestones[contract_id];
            let m = list[milestone_index as int];
            if !s.config.initialized {
                result == Err::<bool, Halt>(Halt::Failed(Error::NotInitialized))
            } else if s.config.emergency {
                result == Err::<bool, Halt>(Halt::Failed(Error::EmergencyActive))
            } else if s.config.paused {
                result == Err::<bool, Halt>(Halt::Failed(Error::ContractPaused))
            } else if !s.authorized.contains(caller) {
                result == Err::<bool, Halt>(Halt::AuthRequired(caller))
            } else if !s.contracts.contains_key(contract_id) {
                result == Err::<bool, Halt>(Halt::Failed(Error::ContractNotFound))
            } else if s.finalizations.contains_key(contract_id) {
                result == Err::<bool, Halt>(Halt::Failed(Error::AlreadyFinalized))
            } else if caller != c.freelancer {
                result == Err::<bool, Halt>(Halt::Failed(Error::UnauthorizedRole))
            } else if c.status != ContractStatus::Funded {
                result == Err::<bool, Halt>(Halt::Failed(Error::InvalidState))
            } else if evidence@.len() > 256 {
                result == Err::<bool, Halt>(Halt::Failed(Error::EvidenceTooLong))
            } else if !s.milestones.contains_key(contract_id) {
                result == Err::<bool, Halt>(Halt::Failed(Error::ContractNotFound))
            } else if milestone_index >= list.len() {
                result == Err::<bool, Halt>(Halt::Failed(Error::IndexOutOfBounds))
            } else if m.released {
                result == Err::<bool, Halt>(Halt::Failed(Error::AlreadyReleased))
            } else if m.refunded {
                result == Err::<bool, Halt>(Halt::Failed(Error::AlreadyRefunded))
            } else {
                &&& result == Ok::<bool, Halt>(true)
                &&& t == (State {
                    milestones: s.milestones.insert(
                        contract_id,
                        list.update(
                            milestone_index as int,
                            Milestone { work_evidence: Some(evidence), ..m },
                        ),
                    ),
                    events: s.events.push(
                        Event::EvidenceSubmitted {
                            contract_id,
                            milestone_index,
                            freelancer: c.freelancer,
                            timestamp: s.call.timestamp,
                        },
                    ),
                    ..s
                })
            }
        }),
{
}

/// The client, the freelancer or the arbiter closes a completed or disputed agreement,
/// once. Only the close record is added.
pub proof fn law_finalize_contract(
    env: &mut Env,
    contract_id: u32,
    finalizer: Address,
    result: Result<bool, Halt>,
)
    requires
        old(env)@.wf(),
        call_ensures(Escrow::finalize_contract, (env, contract_id, finalizer), result),
    ensures
        result is Err ==> final(env)@ == old(env)@,
        ({
            let s = old(env)@;
            let t = final(env)@;
            let c = s.contracts[contract_id];
            if s.config.emergency || s.config.paused {
                result == Err::<bool, Halt>(Halt::Failed(Error::ContractPaused))
            } else if !s.contracts.contains_key(contract_id) {
                result == Err::<bool, Halt>(Halt::Failed(Error::ContractNotFound))
            } else if s.finalizations.contains_key(contract_id) {
                result == Err::<bool, Halt>(Halt::Failed(Error::AlreadyFinalized))
            } else if finalizer != c.client && finalizer != c.freelancer
                && c.arbiter != Some(finalizer) {
                result == Err::<bool, Halt>(Halt::Failed(Error::UnauthorizedRole))
            } else if !s.authorized.contains(finalizer) {
                result == Err::<bool, Halt>(Halt::AuthRequired(finalizer))
            } else if c.status != ContractStatus::Completed
                && c.status != ContractStatus::Disputed {
                result == Err::<bool, Halt>(Halt::Failed(Error::InvalidStatusTransition))
            } else {
                &&& result == Ok::<bool, Halt>(true)
                &&& t == (State {
                    finalizations: s.finalizations.insert(
                        contract_id,
                        FinalizationRecord {
                            finalizer,
                            status: c.status,
                            finalized_at: s.call.timestamp,
                        },
                    ),
                    events: s.events.push(
                        Event::Finalized { contract_id, finalizer, timestamp: s.call.timestamp },
                    ),
                    ..s
                })
            }
        }),
{
}

/// The client proposes a successor who is not a party yet. Only the proposal is added.
pub proof fn law_propose_client_migration(
    env: &mut Env,
    contract_id: u32,
    current_client: Address,
    new_client: Address,
    result: Result<bool, Halt>,
)
    requires
        old(env)@.wf(),
        call_ensures(
            Escrow::propose_client_migration,
            (env, contract_id, current_client, new_client),
            result,
        ),
    ensures
        result is Err ==> final(env)@ == old(env)@,
        ({
            let s = old(env)@;
            let t = final(env)@;
            let c = s.contracts[contract_id];
            if s.config.emergency {
                result == Err::<bool, Halt>(Halt::Failed(Error::EmergencyActive))
            } else if s.config.paused {
                result == Err::<bool, Halt>(Halt::Failed(Error::ContractPaused))
            } else if !s.contracts.contains_key(contract_id) {
                result == Err::<bool, Halt>(Halt::Failed(Error::ContractNotFound))
            } else if s.finalizations.contains_key(contract_id) {
                result == Err::<bool, Halt>(Halt::Failed(Error::AlreadyFinalized))
            } else if current_client != c.client {
                result == Err::<bool, Halt>(Halt::Failed(Error::UnauthorizedRole))
            } else if !s.authorized.contains(current_client) {
                result == Err::<bool, Halt>(Halt::AuthRequired(current_client))
            } else if new_client == c.freelancer || new_client == c.client {
                result == Err::<bool, Halt>(Halt::Failed(Error::InvalidParticipant))
            } else {
                &&& result == Ok::<bool, Halt>(true)
                &&& t == (State {
                    migrations: s.migrations.insert(
                        contract_id,
                        PendingClientMigration { current_client, proposed_client: new_client },
                    ),
                    ..s
                })
            }
        }),
{
}

/// The proposed client, and nobody else, becomes the client. Nothing else of the
/// agreement changes, and the proposal is gone.
pub proof fn law_accept_client_migration(
    env: &mut Env,
    contract_id: u32,
    new_client: Address,
    result: Result<bool, Halt>,
)
    requires
        old(env)@.wf(),
        call_ensures(Escrow::accept_client_migration, (env, contract_id, new_client), result),
    ensures
        result is Err ==> final(env)@ == old(env)@,
        ({
            let s = old(env)@;
            let t = final(env)@;
            let c = s.contracts[contract_id];
            if s.config.emergency {
                result == Err::<bool, Halt>(Halt::Failed(Error::EmergencyActive))
            } else if s.config.paused {
                result == Err::<bool, Halt>(Halt::Failed(Error::ContractPaused))
            } else if !s.contracts.contains_key(contract_id) {
                result == Err::<bool, Halt>(Halt::Failed(Error::ContractNotFound))
            } else if s.finalizations.contains_key(contract_id) {
                result == Err::<bool, Halt>(Halt::Failed(Error::AlreadyFinalized))
            } else if !s.migrations.contains_key(contract_id) {
                result == Err::<bool, Halt>(Halt::Failed(Error::InvalidState))
            } else if new_client != s.migrations[contract_id].proposed_client {
                result == Err::<bool, Halt>(Halt::Failed(Error::UnauthorizedRole))
            } else if !s.authorized.contains(new_client) {
                result == Err::<bool, Halt>(Halt::AuthRequired(new_client))
            } else {
                &&& result == Ok::<bool, Halt>(true)
                &&& t == (State {
                    contracts: s.contracts.insert(
                        contract_id,
                        Contract { client: new_client, ..c },
                    ),
                    migrations: s.migrations.remove(contract_id),
                    ..s
                })
            }
        }),
{
}

/// The client withdraws a proposal, and only that.
pub proof fn law_cancel_client_migration(
    env: &mut Env,
    contract_id: u32,
    current_client: Address,
    result: Result<bool, Halt>,
)
    requires
        old(env)@.wf(),
        call_ensures(Escrow::cancel_client_migration, (env, contract_id, current_client), result),
    ensures
        result is Err ==> final(env)@ == old(env)@,
        ({
            let s = old(env)@;
            let t = final(env)@;
            let c = s.contracts[contract_id];
            if s.config.emergency {
                result == Err::<bool, Halt>(Halt::Failed(Error::EmergencyActive))
            } else if s.config.paused {
                result == Err::<bool, Halt>(Halt::Failed(Error::ContractPaused))
            } else if !s.contracts.contains_key(contract_id) {
                result == Err::<bool, Halt>(Halt::Failed(Error::ContractNotFound))
            } else if s.finalizations.contains_key(contract_id) {
                result == Err::<bool, Halt>(Halt::Failed(Error::AlreadyFinalized))
            } else if current_client != c.client {
                result == Err::<bool, Halt>(Halt::Failed(Error::UnauthorizedRole))
            } else if !s.authorized.contains(current_client) {
                result == Err::<bool, Halt>(Halt::AuthRequired(current_client))
            } else if !s.migrations.contains_key(contract_id) {
                result == Err::<bool, Halt>(Halt::Failed(Error::InvalidState))
            } else {
                &&& result == Ok::<bool, Halt>(true)
                &&& t == (State {
                    migrations: s.migrations.remove(contract_id),
                    events: s.events.push(
                        Event::ClientMigrationCancelled {
                            contract_id,
                            current_client,
                            timestamp: s.call.timestamp,
                        },
                    ),
                    ..s
                })
            }
        }),
{
}

} // verus!
