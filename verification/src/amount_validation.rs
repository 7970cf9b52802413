//! Limits on amounts, in stroops, and checked sums of them.
use vstd::prelude::*;
use crate::env::milestones_sound;
use crate::types::{Error, Milestone};

verus! {

/// Maximum number of milestones per contract.
pub const MAX_MILESTONES: u32 = 10;

/// Maximum amount of a single milestone.
pub const MAX_SINGLE_AMOUNT_STROOPS: i128 = 1_000_000_000_000_000;

/// Maximum sum of all milestone amounts of a contract.
pub const MAX_TOTAL_ESCROW_STROOPS: i128 = MAX_SINGLE_AMOUNT_STROOPS;

/// The sum of the first `n` amounts.
pub open spec fn sum_of(amounts: Seq<i128>, n: nat) -> int
    decreases n,
{
    if n == 0 {
        0
    } else {
        sum_of(amounts, (n - 1) as nat) + amounts[n - 1]
    }
}

/// All running sums of the amounts fit their integer.
pub open spec fn sums_fit(amounts: Seq<i128>) -> bool {
    forall|n: nat|
        n <= amounts.len() ==> i128::MIN <= #[trigger] sum_of(amounts, n) <= i128::MAX
}

/// The amounts of a list of milestones.
pub open spec fn amounts_of(milestones: Seq<Milestone>) -> Seq<i128> {
    milestones.map_values(|m: Milestone| m.amount)
}

/// The sum of the amounts of a list of milestones.
pub open spec fn sum_of_milestones(milestones: Seq<Milestone>) -> int {
    sum_of(amounts_of(milestones), milestones.len())
}

/// The sums of amounts of sound milestones stay small, and grow from each one to
/// the next.
pub proof fn lemma_sums_bounded(milestones: Seq<Milestone>, n: nat)
    requires
        milestones_sound(milestones),
        n <= milestones.len(),
    ensures
        0 <= sum_of(amounts_of(milestones), n) <= n * MAX_SINGLE_AMOUNT_STROOPS,
        forall|k: nat|
            k <= n ==> #[trigger] sum_of(amounts_of(milestones), k) <= sum_of(
                amounts_of(milestones),
                n,
            ),
    decreases n,
{
    if n > 0 {
        lemma_sums_bounded(milestones, (n - 1) as nat);
        assert(milestones[n - 1].sound());
    }
}

/// The amounts of a list of milestones.
pub(crate) fn collect_amounts(milestones: &Vec<Milestone>) -> (amounts: Vec<i128>)
    ensures
        amounts@ == amounts_of(milestones@),
{
    let mut amounts: Vec<i128> = Vec::new();
    for i in 0..milestones.len()
        invariant
            amounts@.len() == i,
            forall|j: int| 0 <= j < i ==> #[trigger] amounts@[j] == milestones@[j].amount,
    {
        amounts.push(milestones[i].amount);
    }
    assert(amounts@ =~= amounts_of(milestones@));
    amounts
}

/// The sum of the amounts, or `PotentialOverflow` where a running sum does not
/// fit its integer.
pub fn accumulate_amounts(amounts: &Vec<i128>) -> (result: Result<i128, Error>)
    ensures
        match result {
            Ok(total) => sums_fit(amounts@) && total == sum_of(amounts@, amounts@.len()),
            Err(error) => !sums_fit(amounts@) && error == Error::PotentialOverflow,
        },
{
    let mut total: i128 = 0;
    for i in 0..amounts.len()
        invariant
            total == sum_of(amounts@, i as nat),
            forall|n: nat| n <= i ==> i128::MIN <= #[trigger] sum_of(amounts@, n) <= i128::MAX,
    {
        assert(sum_of(amounts@, (i + 1) as nat) == total + amounts@[i as int]);
        match total.checked_add(amounts[i]) {
            Some(sum) => {
                total = sum;
            },
            None => {
                return Err(Error::PotentialOverflow);
            },
        }
    }
    Ok(total)
}

} // verus!
