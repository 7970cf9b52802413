//! Ratings of freelancers by their clients.
use vstd::prelude::*;
use crate::env::{answers, fail, Env, State};
use crate::escrow::Escrow;
use crate::event::Event;
use crate::types::{
    Address, Contract, ContractStatus, Error, Halt, Reputation, ReputationView,
};

verus! {

broadcast use vstd::std_specs::hash::group_hash_axioms;

/// The longest comment, in bytes.
pub const MAX_COMMENT_BYTES: usize = 200;

/// Ratings are averaged in basis points.
pub const RATING_SCALE: i128 = 10_000;

/// Why a rating is refused.
pub open spec fn rating_refusal(
    s: State,
    contract_id: u32,
    caller: Address,
    rating: u32,
    comment: Seq<u8>,
) -> Option<Halt> {
    let contract = s.contracts[contract_id];
    if s.freeze() is Some {
        s.freeze()
    } else if s.closed(contract_id) is Some {
        s.closed(contract_id)
    } else if caller != contract.client {
        fail(Error::UnauthorizedRole)
    } else if rating < 1 || rating > 5 {
        fail(Error::InvalidRating)
    } else if comment.len() == 0 {
        fail(Error::EmptyComment)
    } else if comment.len() > MAX_COMMENT_BYTES {
        fail(Error::CommentTooLong)
    } else if contract.status != ContractStatus::Completed {
        fail(Error::NotCompleted)
    } else if contract.reputation_issued {
        fail(Error::ReputationAlreadyIssued)
    } else if contract.client == contract.freelancer {
        fail(Error::SelfRating)
    } else if !s.authorized.contains(caller) {
        Some(Halt::AuthRequired(caller))
    } else if s.credits_of(contract.freelancer) <= 0 {
        fail(Error::InvalidState)
    } else {
        None
    }
}

/// What a rating leaves behind: the agreement is rated for good, one credit of the
/// freelancer is used up, and the rating and the comment are on record.
pub open spec fn rating_effect(
    s: State,
    contract_id: u32,
    caller: Address,
    rating: u32,
    comment: Vec<u8>,
) -> State {
    let contract = s.contracts[contract_id];
    let freelancer = contract.freelancer;
    let reputation = s.reputation_of(freelancer).after_rating(rating);
    State {
        reputation_issued: s.reputation_issued.insert(contract_id, true),
        reputation_credits: s.reputation_credits.insert(
            freelancer.id,
            (s.credits_of(freelancer) - 1) as i128,
        ),
        reputations: s.reputations.insert(freelancer.id, reputation),
        reputation_comments: s.reputation_comments.insert(contract_id, comment),
        ..s.with_contract(
            contract_id,
            Contract { reputation_issued: true, ..contract },
        ).with_event(
            Event::ReputationIssued {
                contract_id,
                client: contract.client,
                freelancer,
                rating,
                completed_contracts: reputation.completed_contracts,
                total_rating: reputation.total_rating,
                last_rating: reputation.last_rating,
                caller,
                timestamp: s.call.timestamp,
            },
        )
    }
}

/// The average of the ratings in basis points. There is none without a rating, and
/// none where the scaled sum does not fit its integer.
pub open spec fn average_rating(reputation: Reputation) -> Option<int> {
    if reputation.completed_contracts == 0 {
        None
    } else if reputation.total_rating * RATING_SCALE > i128::MAX {
        None
    } else {
        Some(reputation.total_rating * RATING_SCALE / reputation.completed_contracts as int)
    }
}

/// The average of the ratings in basis points.
fn compute_average_rating(reputation: &Reputation) -> (average: Option<i128>)
    requires
        reputation.consistent(),
    ensures
        match average {
            Some(value) => average_rating(*reputation) == Some(value as int),
            None => average_rating(*reputation) is None,
        },
{
    if reputation.completed_contracts == 0 {
        return None;
    }
    let scaled: i128 = match reputation.total_rating.checked_mul(RATING_SCALE) {
        Some(scaled) => scaled,
        None => return None,
    };
    proof {
        let total = scaled as int;
        let count = reputation.completed_contracts as int;
        assert(0 <= total / count <= total) by (nonlinear_arith)
            requires
                total > 0,
                count > 0,
        ;
    }
    scaled.checked_div(reputation.completed_contracts)
}

impl Escrow {
    /// Rates the freelancer of a completed agreement, once, with one to five and a
    /// comment of 1 to 200 bytes.
    ///
    /// Only the client can rate, and not a freelancer with the client's own
    /// address.
    pub fn issue_reputation(
        env: &mut Env,
        contract_id: u32,
        caller: Address,
        rating: u32,
        comment: Vec<u8>,
    ) -> (result: Result<bool, Halt>)
        requires
            old(env)@.wf(),
            old(env)@.contracts.contains_key(contract_id) ==> old(env)@.reputation_of(
                old(env)@.contracts[contract_id].freelancer,
            ).has_room(),
        ensures
            answers(
                result,
                rating_refusal(old(env)@, contract_id, caller, rating, comment@),
                old(env)@,
                final(env)@,
                rating_effect(old(env)@, contract_id, caller, rating, comment),
            ),
            final(env)@.wf(),
    {
        env.require_not_paused()?;
        let contract = env.read_open_contract(contract_id)?;
        if caller != contract.client {
            return Err(Halt::Failed(Error::UnauthorizedRole));
        }
        if rating < 1 || rating > 5 {
            return Err(Halt::Failed(Error::InvalidRating));
        }
        if comment.len() == 0 {
            return Err(Halt::Failed(Error::EmptyComment));
        }
        if comment.len() > MAX_COMMENT_BYTES {
            return Err(Halt::Failed(Error::CommentTooLong));
        }
        if contract.status != ContractStatus::Completed {
            return Err(Halt::Failed(Error::NotCompleted));
        }
        if contract.reputation_issued {
            return Err(Halt::Failed(Error::ReputationAlreadyIssued));
        }
        if contract.client == contract.freelancer {
            return Err(Halt::Failed(Error::SelfRating));
        }
        env.require_auth(caller)?;
        let freelancer = contract.freelancer;
        let pending: i128 = env.read_credits(freelancer);
        if pending <= 0 {
            return Err(Halt::Failed(Error::InvalidState));
        }
        let mut after = contract;
        after.reputation_issued = true;
        env.write_contract(contract_id, after);
        env.reputation_issued.insert(contract_id, true);
        env.reputation_credits.insert(freelancer.id, pending - 1);
        let mut reputation = env.read_reputation(freelancer);
        reputation.completed_contracts = reputation.completed_contracts + 1;
        reputation.total_rating = reputation.total_rating + rating as i128;
        reputation.last_rating = rating as i128;
        env.reputations.insert(freelancer.id, reputation);
        env.reputation_comments.insert(contract_id, comment);
        let timestamp: u64 = env.call.timestamp;
        env.publish(
            Event::ReputationIssued {
                contract_id,
                client: contract.client,
                freelancer,
                rating,
                completed_contracts: reputation.completed_contracts,
                total_rating: reputation.total_rating,
                last_rating: reputation.last_rating,
                caller,
                timestamp,
            },
        );
        Ok(true)
    }

    /// The comment that came with the rating of an agreement, `None` if it has not
    /// been rated.
    pub fn get_reputation_comment(env: &Env, contract_id: u32) -> (comment: Option<&Vec<u8>>)
        ensures
            match comment {
                Some(bytes) => env@.reputation_comments.contains_key(contract_id) && *bytes
                    == env@.reputation_comments[contract_id],
                None => !env@.reputation_comments.contains_key(contract_id),
            },
    {
        env.reputation_comments.get(&contract_id)
    }

    /// The ratings of `address`, `None` if nobody has rated it.
    pub fn get_reputation(env: &Env, address: Address) -> (reputation: Option<Reputation>)
        ensures
            reputation == (if env@.reputations.contains_key(address.id) {
                Some(env@.reputations[address.id])
            } else {
                None
            }),
    {
        match env.reputations.get(&address.id) {
            Some(reputation) => Some(*reputation),
            None => None,
        }
    }

    /// Everything about the reputation of `address` in one record, all zero if
    /// nobody has rated it and nothing awaits a rating.
    pub fn get_reputation_view(env: &Env, address: Address) -> (combined: ReputationView)
        requires
            env@.wf(),
        ensures
            combined.completed_contracts == env@.reputation_of(address).completed_contracts,
            combined.total_rating == env@.reputation_of(address).total_rating,
            combined.last_rating == env@.reputation_of(address).last_rating,
            combined.average_rating_bps == (match average_rating(env@.reputation_of(address)) {
                Some(average) => average,
                None => 0,
            }),
            combined.pending_credits == env@.credits_of(address),
    {
        let reputation = env.read_reputation(address);
        let average_rating_bps: i128 = match compute_average_rating(&reputation) {
            Some(average) => average,
            None => 0,
        };
        ReputationView {
            completed_contracts: reputation.completed_contracts,
            total_rating: reputation.total_rating,
            last_rating: reputation.last_rating,
            average_rating_bps,
            pending_credits: env.read_credits(address),
        }
    }

    /// The average rating of `address` in basis points, `None` if nobody has rated
    /// it.
    pub fn get_average_rating(env: &Env, address: Address) -> (average: Option<i128>)
        requires
            env@.wf(),
        ensures
            match average {
                Some(value) => average_rating(env@.reputation_of(address)) == Some(value as int),
                None => average_rating(env@.reputation_of(address)) is None,
            },
    {
        match env.reputations.get(&address.id) {
            Some(reputation) => compute_average_rating(reputation),
            None => None,
        }
    }

    /// How many completed agreements of `address` await a rating.
    pub fn get_pending_reputation_credits(env: &Env, address: Address) -> (credits: i128)
        ensures
            credits == env@.credits_of(address),
    {
        env.read_credits(address)
    }
}

} // verus!
