//! Questions, sums and numbers.
use vstd::prelude::*;
use crate::amount_validation::{amounts_of, sum_of, sums_fit};
use crate::env::{milestones_sound, Env};
use crate::escrow::Escrow;
use crate::event::Event;
use crate::laws::calls::agreements::{lemma_sum_of_all, lemma_sum_of_list};
use crate::reads::{milestone_summary, released_count};
use crate::types::{
    Address, Contract, ContractSummary, DisputeResolution, Error, FinalizationRecord, Halt,
    Milestone, MilestoneApprovals, MilestoneSummary, PendingClientMigration, Reputation,
    ReputationView,
};

verus! {

/// An agreement exists if it is on record.
pub proof fn law_contract_exists(
    env: &Env,
    contract_id: u32,
    result: bool,
)
    requires
        call_ensures(Escrow::contract_exists, (env, contract_id), result),
    ensures
        result == env@.contracts.contains_key(contract_id),
{
}

/// An agreement is read as it is on record.
pub proof fn law_get_contract(
    env: &Env,
    contract_id: u32,
    result: Result<Contract, Halt>,
)
    requires
        call_ensures(Escrow::get_contract, (env, contract_id), result),
    ensures
        env@.contracts.contains_key(contract_id) ==> result == Ok::<Contract, Halt>(
            env@.contracts[contract_id],
        ),
        !env@.contracts.contains_key(contract_id)
            ==> result == Err::<Contract, Halt>(Halt::Failed(Error::ContractNotFound)),
{
}

/// The milestones are read as they are on record.
pub proof fn law_get_milestones(
    env: &Env,
    contract_id: u32,
    result: Result<&Vec<Milestone>, Halt>,
)
    requires
        call_ensures(Escrow::get_milestones, (env, contract_id), result),
    ensures
        env@.milestones.contains_key(contract_id) ==> result is Ok && result->Ok_0@
            == env@.milestones[contract_id],
        !env@.milestones.contains_key(contract_id)
            ==> result == Err::<&Vec<Milestone>, Halt>(Halt::Failed(Error::ContractNotFound)),
{
}

/// One milestone is read as it is on record, and none past the last.
pub proof fn law_get_milestone(
    env: &Env,
    contract_id: u32,
    milestone_index: u32,
    result: Result<Option<&Milestone>, Halt>,
)
    requires
        call_ensures(Escrow::get_milestone, (env, contract_id, milestone_index), result),
    ensures
        !env@.milestones.contains_key(contract_id)
            ==> result == Err::<Option<&Milestone>, Halt>(Halt::Failed(Error::ContractNotFound)),
        env@.milestones.contains_key(contract_id) ==> result is Ok,
        env@.milestones.contains_key(contract_id) && milestone_index
            < env@.milestones[contract_id].len() ==> result->Ok_0 is Some && *result->Ok_0->0
            == env@.milestones[contract_id][milestone_index as int],
        env@.milestones.contains_key(contract_id) && milestone_index
            >= env@.milestones[contract_id].len() ==> result->Ok_0 is None,
{
}

/// What is left of an agreement is what came in, less what was paid out and paid back.
pub proof fn law_get_refundable_balance(
    env: &Env,
    contract_id: u32,
    result: Result<i128, Halt>,
)
    requires
        call_ensures(Escrow::get_refundable_balance, (env, contract_id), result),
    ensures
        !env@.contracts.contains_key(contract_id)
            ==> result == Err::<i128, Halt>(Halt::Failed(Error::ContractNotFound)),
        env@.contracts.contains_key(contract_id) ==> {
            let c = env@.contracts[contract_id];
            result is Ok && result->Ok_0 == c.funded_amount - c.released_amount - c.refunded_amount
        },
{
}

/// A summary tells of the agreement what is on record, and one line for each milestone.
/// Its total is the sum of the amounts of all lines, whatever has been deposited, and it
/// counts the lines that are released.
pub proof fn law_get_contract_summary(
    env: &Env,
    contract_id: u32,
    result: Result<ContractSummary, Halt>,
)
    requires
        env@.wf(),
        call_ensures(Escrow::get_contract_summary, (env, contract_id), result),
    ensures
        ({
            let known = env@.contracts.contains_key(contract_id) && env@.milestones.contains_key(
                contract_id,
            );
            let c = env@.contracts[contract_id];
            let list = env@.milestones[contract_id];
            let summary = result->Ok_0;
            let lines = summary.milestones@;
            if !known {
                result == Err::<ContractSummary, Halt>(Halt::Failed(Error::ContractNotFound))
            } else {
                &&& result is Ok
                &&& summary.schema_version == 1
                &&& summary.client == c.client
                &&& summary.freelancer == c.freelancer
                &&& summary.arbiter == c.arbiter
                &&& summary.status == c.status
                &&& summary.reputation_issued
                    == if env@.reputation_issued.contains_key(contract_id) {
                    env@.reputation_issued[contract_id]
                } else {
                    c.reputation_issued
                }
                &&& lines.len() == list.len()
                &&& forall|i: int|
                    0 <= i < list.len() ==> {
                        &&& (#[trigger] lines[i]).index == i
                        &&& lines[i].amount == list[i].amount
                        &&& lines[i].released == list[i].released
                        &&& lines[i].refunded == list[i].refunded
                    }
                &&& summary.total_amount == lines.fold_left(
                    0int,
                    |sum: int, line: MilestoneSummary| sum + line.amount,
                )
                &&& summary.total_amount == list.fold_left(
                    0int,
                    |sum: int, m: Milestone| sum + m.amount,
                )
                &&& summary.funded_amount == c.funded_amount
                &&& summary.released_amount == c.released_amount
                &&& summary.refundable_balance == c.funded_amount - c.released_amount
                    - c.refunded_amount
                &&& summary.released_milestone_count == lines.fold_left(
                    0int,
                    |count: int, line: MilestoneSummary|
                        if line.released {
                            count + 1
                        } else {
                            count
                        },
                )
            }
        }),
{
    let list = env@.milestones[contract_id];
    if result is Ok {
        let lines = result->Ok_0.milestones@;
        assert(milestones_sound(list));
        assert forall|i: int| 0 <= i < list.len() implies #[trigger] lines[i]
            == milestone_summary(list, i) by {}
        lemma_lines(list, lines, list.len());
        assert(lines.take(list.len() as int) =~= lines);
        lemma_sum_of_all(list, list.len());
        assert(list.take(list.len() as int) =~= list);
    }
}

proof fn lemma_lines(list: Seq<Milestone>, lines: Seq<MilestoneSummary>, n: nat)
    requires
        n <= list.len(),
        lines.len() == list.len(),
        forall|i: int|
            0 <= i < list.len() ==> (#[trigger] lines[i]).amount == list[i].amount
                && lines[i].released == list[i].released,
    ensures
        lines.take(n as int).fold_left(
            0int,
            |sum: int, line: MilestoneSummary| sum + line.amount,
        ) == sum_of(amounts_of(list), n),
        lines.take(n as int).fold_left(
            0int,
            |count: int, line: MilestoneSummary|
                if line.released {
                    count + 1
                } else {
                    count
                },
        ) == released_count(list, n),
    decreases n,
{
    if n > 0 {
        lemma_lines(list, lines, (n - 1) as nat);
        assert(lines.take(n as int).drop_last() =~= lines.take(n - 1));
        assert(amounts_of(list)[n - 1] == list[n - 1].amount);
        assert(lines[n - 1].amount == list[n - 1].amount);
    }
}

/// The approvals of a milestone are read as they are on record.
pub proof fn law_get_milestone_approvals(
    env: &Env,
    contract_id: u32,
    milestone_index: u32,
    result: Option<MilestoneApprovals>,
)
    requires
        call_ensures(Escrow::get_milestone_approvals, (env, contract_id, milestone_index), result),
    ensures
        ({
            let key = (contract_id * 0x1_0000_0000 + milestone_index) as u64;
            &&& env@.approvals.contains_key(key) ==> result == Some(env@.approvals[key])
            &&& !env@.approvals.contains_key(key) ==> result is None
        }),
{
}

/// A live approval has its full life left, up to the last ledger that there is.
pub proof fn law_get_approval_deadline(
    env: &Env,
    contract_id: u32,
    milestone_index: u32,
    result: Option<u32>,
)
    requires
        call_ensures(Escrow::get_approval_deadline, (env, contract_id, milestone_index), result),
    ensures
        result is Some == env@.approvals.contains_key(
            (contract_id * 0x1_0000_0000 + milestone_index) as u64,
        ),
        result matches Some(remaining) ==> remaining <= 120_960
            && env@.call.sequence + remaining <= u32::MAX && (remaining
            == 120_960 || env@.call.sequence + remaining == u32::MAX),
{
}

/// Something expires after as many ledgers as it lives, or at the last ledger.
pub proof fn law_compute_expiry(
    env: &Env,
    ttl_ledgers: u32,
    result: u32,
)
    requires
        call_ensures(crate::ttl::compute_expiry, (env, ttl_ledgers), result),
    ensures
        env@.call.sequence + ttl_ledgers <= u32::MAX ==> result == env@.call.sequence + ttl_ledgers,
        env@.call.sequence + ttl_ledgers > u32::MAX ==> result == u32::MAX,
{
}

/// The close record is read as it was written.
pub proof fn law_get_finalization_record(
    env: &Env,
    contract_id: u32,
    result: Option<FinalizationRecord>,
)
    requires
        call_ensures(Escrow::get_finalization_record, (env, contract_id), result),
    ensures
        env@.finalizations.contains_key(contract_id) ==> result == Some(
            env@.finalizations[contract_id],
        ),
        !env@.finalizations.contains_key(contract_id) ==> result is None,
{
}

/// A proposal is pending if it is on record.
pub proof fn law_has_pending_client_migration(
    env: &Env,
    contract_id: u32,
    result: bool,
)
    requires
        call_ensures(Escrow::has_pending_client_migration, (env, contract_id), result),
    ensures
        result == env@.migrations.contains_key(contract_id),
{
}

/// A proposal is read as it was made.
pub proof fn law_get_pending_client_migration(
    env: &Env,
    contract_id: u32,
    result: Result<PendingClientMigration, Halt>,
)
    requires
        call_ensures(Escrow::get_pending_client_migration, (env, contract_id), result),
    ensures
        env@.migrations.contains_key(contract_id) ==> result == Ok::<PendingClientMigration, Halt>(
            env@.migrations[contract_id],
        ),
        !env@.migrations.contains_key(contract_id)
            ==> result == Err::<PendingClientMigration, Halt>(
            Halt::Failed(Error::InvalidState),
        ),
{
}

/// The deliverable reference of a milestone is read as it was submitted.
pub proof fn law_get_work_evidence(
    env: &Env,
    contract_id: u32,
    milestone_index: u32,
    result: Result<Option<&Vec<u8>>, Halt>,
)
    requires
        call_ensures(Escrow::get_work_evidence, (env, contract_id, milestone_index), result),
    ensures
        !env@.milestones.contains_key(contract_id)
            ==> result == Err::<Option<&Vec<u8>>, Halt>(Halt::Failed(Error::ContractNotFound)),
        env@.milestones.contains_key(contract_id) ==> result is Ok,
        env@.milestones.contains_key(contract_id) && milestone_index
            >= env@.milestones[contract_id].len() ==> result->Ok_0 is None,
        env@.milestones.contains_key(contract_id) && milestone_index
            < env@.milestones[contract_id].len() ==> match
            env@.milestones[contract_id][milestone_index as int].work_evidence {
            Some(bytes) => result->Ok_0 is Some && *result->Ok_0->0 == bytes,
            None => result->Ok_0 is None,
        },
{
}

/// The comment of a rating is read as it was given.
pub proof fn law_get_reputation_comment(
    env: &Env,
    contract_id: u32,
    result: Option<&Vec<u8>>,
)
    requires
        call_ensures(Escrow::get_reputation_comment, (env, contract_id), result),
    ensures
        env@.reputation_comments.contains_key(contract_id) ==> result is Some && *result->0
            == env@.reputation_comments[contract_id],
        !env@.reputation_comments.contains_key(contract_id) ==> result is None,
{
}

/// The ratings of a freelancer are read as they are on record.
pub proof fn law_get_reputation(
    env: &Env,
    address: Address,
    result: Option<Reputation>,
)
    requires
        call_ensures(Escrow::get_reputation, (env, address), result),
    ensures
        env@.reputations.contains_key(address.id) ==> result == Some(env@.reputations[address.id]),
        !env@.reputations.contains_key(address.id) ==> result is None,
{
}

/// The credits of a freelancer are read as they are on record, none without a record.
pub proof fn law_get_pending_reputation_credits(
    env: &Env,
    address: Address,
    result: i128,
)
    requires
        call_ensures(Escrow::get_pending_reputation_credits, (env, address), result),
    ensures
        result == if env@.reputation_credits.contains_key(address.id) {
            env@.reputation_credits[address.id]
        } else {
            0
        },
{
}

/// The average is that of the ratings, in basis points and rounded down. There is none
/// without a rating, and none where the scaled sum does not fit its integer.
pub proof fn law_get_average_rating(
    env: &Env,
    address: Address,
    result: Option<i128>,
)
    requires
        env@.wf(),
        call_ensures(Escrow::get_average_rating, (env, address), result),
    ensures
        ({
            let rated = env@.reputations[address.id];
            if !env@.reputations.contains_key(address.id) || rated.completed_contracts == 0
                || rated.total_rating * 10_000 > i128::MAX {
                result is None
            } else {
                result is Some
                    && result->0 * rated.completed_contracts <= rated.total_rating * 10_000
                    < (result->0 + 1)
                    * rated.completed_contracts
            }
        }),
{
    if env@.reputations.contains_key(address.id) {
        let rated = env@.reputations[address.id];
        assert(rated.consistent());
        if rated.completed_contracts > 0 {
            let total = rated.total_rating * 10_000;
            let count = rated.completed_contracts as int;
            let average = total / count;
            assert(average * count <= total < (average + 1) * count) by (nonlinear_arith)
                requires
                    count > 0,
                    average == total / count,
            ;
        }
    }
}

/// The combined record tells the ratings, their average and the credits, each of them
/// zero where there is none.
pub proof fn law_get_reputation_view(
    env: &Env,
    address: Address,
    result: ReputationView,
)
    requires
        env@.wf(),
        call_ensures(Escrow::get_reputation_view, (env, address), result),
    ensures
        result.pending_credits == if env@.reputation_credits.contains_key(address.id) {
            env@.reputation_credits[address.id]
        } else {
            0
        },
        ({
            let rated = env@.reputations[address.id];
            if !env@.reputations.contains_key(address.id) {
                &&& result.completed_contracts == 0
                &&& result.total_rating == 0
                &&& result.last_rating == 0
                &&& result.average_rating_bps == 0
            } else {
                &&& result.completed_contracts == rated.completed_contracts
                &&& result.total_rating == rated.total_rating
                &&& result.last_rating == rated.last_rating
                &&& if rated.completed_contracts == 0 || rated.total_rating * 10_000 > i128::MAX {
                    result.average_rating_bps == 0
                } else {
                    result.average_rating_bps * rated.completed_contracts
                        <= rated.total_rating * 10_000 < (result.average_rating_bps + 1)
                            * rated.completed_contracts
                }
            }
        }),
{
    if env@.reputations.contains_key(address.id) {
        let rated = env@.reputations[address.id];
        assert(rated.consistent());
        if rated.completed_contracts > 0 {
            let total = rated.total_rating * 10_000;
            let count = rated.completed_contracts as int;
            let average = total / count;
            assert(average * count <= total < (average + 1) * count) by (nonlinear_arith)
                requires
                    count > 0,
                    average == total / count,
            ;
        }
    }
}

/// Amounts are added up exactly, unless a running sum does not fit its integer.
pub proof fn law_accumulate_amounts(
    amounts: Vec<i128>,
    result: Result<i128, Error>,
)
    requires
        call_ensures(crate::amount_validation::accumulate_amounts, (&amounts,), result),
    ensures
        ({
            let running = |n: int|
                amounts@.take(n).fold_left(0int, |sum: int, amount: i128| sum + amount);
            if forall|n: int| 0 <= n <= amounts@.len()
                ==> i128::MIN <= #[trigger] running(n) <= i128::MAX {
                result is Ok && result->Ok_0 == amounts@.fold_left(
                    0int,
                    |sum: int, amount: i128| sum + amount,
                )
            } else {
                result == Err::<i128, Error>(Error::PotentialOverflow)
            }
        }),
{
    let running = |n: int| amounts@.take(n).fold_left(0int, |sum: int, amount: i128| sum + amount);
    assert forall|n: int| 0 <= n <= amounts@.len() implies #[trigger] running(n) == sum_of(
        amounts@,
        n as nat,
    ) by {
        lemma_sum_of_list(amounts@, n as nat);
    }
    assert(amounts@.take(amounts@.len() as int) =~= amounts@);
    lemma_sum_of_list(amounts@, amounts@.len());
    if sums_fit(amounts@) {
        assert forall|n: int| 0 <= n <= amounts@.len() implies i128::MIN <= #[trigger] running(n)
            <= i128::MAX by {
            assert(i128::MIN <= sum_of(amounts@, n as nat) <= i128::MAX);
        }
    } else {
        let n = choose|n: nat|
            n <= amounts@.len() && !(i128::MIN <= #[trigger] sum_of(amounts@, n) <= i128::MAX);
        assert(running(n as int) == sum_of(amounts@, n));
    }
}

/// Every error has the number under which callers know it.
pub proof fn law_error_code(
    error: Error,
    result: u32,
)
    requires
        call_ensures(Error::code, (&error,), result),
    ensures
        error == Error::InvalidParticipant <==> result == 1,
        error == Error::EmptyMilestones <==> result == 2,
        error == Error::InvalidMilestoneAmount <==> result == 3,
        error == Error::InvalidDepositAmount <==> result == 4,
        error == Error::InvalidMilestone <==> result == 5,
        error == Error::ContractNotFound <==> result == 6,
        error == Error::EmptyRefundRequest <==> result == 7,
        error == Error::DuplicateMilestoneInRefund <==> result == 8,
        error == Error::AlreadyReleased <==> result == 9,
        error == Error::AlreadyRefunded <==> result == 10,
        error == Error::InsufficientFunds <==> result == 11,
        error == Error::AlreadyInitialized <==> result == 12,
        error == Error::InsufficientAccumulatedFees <==> result == 13,
        error == Error::NotInitialized <==> result == 14,
        error == Error::UnauthorizedRole <==> result == 15,
        error == Error::ContractPaused <==> result == 16,
        error == Error::EmergencyActive <==> result == 17,
        error == Error::InvalidState <==> result == 18,
        error == Error::InvalidRating <==> result == 19,
        error == Error::SelfRating <==> result == 20,
        error == Error::ReputationAlreadyIssued <==> result == 21,
        error == Error::NotCompleted <==> result == 22,
        error == Error::FreelancerMismatch <==> result == 23,
        error == Error::InvalidStatusTransition <==> result == 24,
        error == Error::ArbiterRequired <==> result == 25,
        error == Error::InvalidDisputeSplit <==> result == 26,
        error == Error::AccountingInvariantViolated <==> result == 27,
        error == Error::PotentialOverflow <==> result == 28,
        error == Error::AlreadyFinalized <==> result == 29,
        error == Error::AmountMustBePositive <==> result == 30,
        error == Error::SettlementTokenNotConfigured <==> result == 31,
        error == Error::SettlementTokenAlreadyBound <==> result == 32,
        error == Error::TotalCapExceeded <==> result == 33,
        error == Error::TooManyMilestones <==> result == 34,
        error == Error::MissingArbiter <==> result == 35,
        error == Error::InvalidArbiter <==> result == 36,
        error == Error::ContractCancelled <==> result == 37,
        error == Error::ContractRefunded <==> result == 38,
        error == Error::InvalidSettlementToken <==> result == 39,
        error == Error::SettlementTokenIsSelf <==> result == 40,
        error == Error::SettlementTokenIsAdmin <==> result == 41,
        error == Error::EmptyComment <==> result == 42,
        error == Error::CommentTooLong <==> result == 43,
        error == Error::EmptyReleaseIndices <==> result == 44,
        error == Error::DuplicateMilestoneInRelease <==> result == 45,
        error == Error::MilestoneAlreadyReleased <==> result == 46,
        error == Error::TimelockNotElapsed <==> result == 48,
        error == Error::IndexOutOfBounds <==> result == 49,
        error == Error::AlreadyApproved <==> result == 50,
        error == Error::InsufficientApprovals <==> result == 51,
        error == Error::ContractIdCollision <==> result == 52,
        error == Error::ContractIdOverflow <==> result == 53,
        error == Error::EvidenceTooLong <==> result == 54,
        error == Error::InvalidProtocolParameters <==> result == 55,
        error == Error::MilestoneNotOverdue <==> result == 56,
{
}

/// Every decision has the number under which it is published.
pub proof fn law_resolution_code(
    resolution: DisputeResolution,
    result: u32,
)
    requires
        call_ensures(DisputeResolution::code, (&resolution,), result),
    ensures
        resolution is FullRefund <==> result == 0,
        resolution is PartialRefund <==> result == 1,
        resolution is FullPayout <==> result == 2,
        resolution is Split <==> result == 3,
{
}

/// Every event has the topic under which it is found.
pub proof fn law_event_topic(
    event: Event,
    result: &'static str,
)
    requires
        call_ensures(Event::topic, (&event,), result),
    ensures
        event is Initialized ==> result@ == "init"@,
        event is SettlementTokenBound ==> result@ == "settlement_token_bound"@,
        event is ContractCreated ==> result@ == "created"@,
        event is MilestoneReleased ==> result@ == "mlstn_rls"@,
        event is MilestonesReleased ==> result@ == "b_rls"@,
        event is ContractCompleted ==> result@ == "ctrct_cmp"@,
        event is Refunded ==> result@ == "refunded"@,
        event is Cancelled ==> result@ == "cancelled"@,
        event is DisputeOpened ==> result@ == "dispute"@,
        event is DisputeResolved ==> result@ == "dispute"@,
        event is ReputationIssued ==> result@ == "rep_iss"@,
        event is EvidenceSubmitted ==> result@ == "evidence"@,
        event is FeesWithdrawn ==> result@ == "fee"@,
        event is Paused ==> result@ == "pause"@,
        event is Unpaused ==> result@ == "unpaused"@,
        event is EmergencyActivated ==> result@ == "emergency"@,
        event is EmergencyResolved ==> result@ == "emergency"@,
        event is Finalized ==> result@ == "finalized"@,
        event is ClientMigrationCancelled ==> result@ == "client_migration_cancelled"@,
        event is ProtocolFeeSet ==> result@ == "protocol_fee_bps"@,
        event is AdminProposed ==> result@ == "admin"@,
        event is AdminAccepted ==> result@ == "admin"@,
        event is AdminProposalCancelled ==> result@ == "admin"@,
{
}

/// The events that have a second name have this one, and the others none.
pub proof fn law_event_subtopic(
    event: Event,
    result: Option<&'static str>,
)
    requires
        call_ensures(Event::subtopic, (&event,), result),
    ensures
        event is Initialized ==> result is Some && result->0@ == "admin_set"@,
        event is DisputeOpened ==> result is Some && result->0@ == "opened"@,
        event is DisputeResolved ==> result is Some && result->0@ == "resolved"@,
        event is FeesWithdrawn ==> result is Some && result->0@ == "withdraw"@,
        event is EmergencyActivated ==> result is Some && result->0@ == "activated"@,
        event is EmergencyResolved ==> result is Some && result->0@ == "resolved"@,
        event is AdminProposed ==> result is Some && result->0@ == "proposed"@,
        event is AdminAccepted ==> result is Some && result->0@ == "accepted"@,
        event is AdminProposalCancelled ==> result is Some && result->0@ == "cancelled"@,
        result is Some ==> event is Initialized || event is DisputeOpened
            || event is DisputeResolved || event is FeesWithdrawn
            || event is EmergencyActivated || event is EmergencyResolved
            || event is AdminProposed || event is AdminAccepted || event is AdminProposalCancelled,
{
}

} // verus!
