use vstd::prelude::*;

use crate::contract::{EbasDeFiContract, min_collateral, profile_is};
use crate::scoring::{MAX_SCORE, MIN_SCORE, score_spec};
use crate::types::{ContractError, CreditProfile};

verus! {

/// Every credit score lies in [300, 850].
pub proof fn lemma_score_in_range(total_income: int, avg_monthly_income: int, platforms: int)
    requires
        platforms >= 0,
    ensures
        MIN_SCORE <= score_spec(total_income, avg_monthly_income, platforms) <= MAX_SCORE,
{
}

/// The credit score never drops when the monthly income or the platform count grows.
pub proof fn lemma_score_monotone(
    total_income: int,
    monthly_low: int,
    monthly_high: int,
    platforms_low: int,
    platforms_high: int,
)
    requires
        monthly_low <= monthly_high,
        0 <= platforms_low <= platforms_high,
    ensures
        score_spec(total_income, monthly_low, platforms_low) <= score_spec(total_income, monthly_high, platforms_high),
{
}

/// A request whose collateral is under 150% of the amount is always refused.
pub proof fn lemma_undercollateralized_refused(
    state: EbasDeFiContract,
    caller: Seq<u8>,
    borrower: Seq<u8>,
    amount: i128,
    collateral: i128,
)
    requires
        collateral < min_collateral(amount as int),
    ensures
        state.loan_refusal(caller, borrower, amount, collateral) is Some,
{
}

/// Collateral of at least 150% of the amount is never the reason for a refusal.
pub proof fn lemma_collateral_at_ratio_suffices(
    state: EbasDeFiContract,
    caller: Seq<u8>,
    borrower: Seq<u8>,
    amount: i128,
    collateral: i128,
)
    requires
        collateral >= min_collateral(amount as int),
    ensures
        state.loan_refusal(caller, borrower, amount, collateral) != Some(ContractError::InsufficientCollateral),
{
}

/// A request for more than the pool holds is always refused.
pub proof fn lemma_overdraw_refused(
    state: EbasDeFiContract,
    caller: Seq<u8>,
    borrower: Seq<u8>,
    amount: i128,
    collateral: i128,
)
    requires
        state.total_liquidity < amount,
    ensures
        state.loan_refusal(caller, borrower, amount, collateral) is Some,
{
}

/// Two profiles agree on everything but the time of the update.
pub open spec fn same_but_timestamp(a: CreditProfile, b: CreditProfile) -> bool {
    &&& a.user@ == b.user@
    &&& a.total_income == b.total_income
    &&& a.avg_monthly_income == b.avg_monthly_income
    &&& a.payment_history == b.payment_history
    &&& a.gig_platforms@ == b.gig_platforms@
    &&& a.verification_level == b.verification_level
    &&& a.credit_score == b.credit_score
}

/// Updating a profile twice with the same inputs stores the same profile,
/// whatever it held before, but for the time of the update.
pub proof fn lemma_profile_update_idempotent(
    first: CreditProfile,
    second: CreditProfile,
    user: Seq<u8>,
    total_income: i128,
    avg_monthly_income: i128,
    gig_platforms: Seq<String>,
    first_time: u64,
    second_time: u64,
)
    requires
        profile_is(first, user, total_income, avg_monthly_income, gig_platforms, first_time),
        profile_is(second, user, total_income, avg_monthly_income, gig_platforms, second_time),
    ensures
        same_but_timestamp(first, second),
        second.last_updated == second_time,
{
}

} // verus!
