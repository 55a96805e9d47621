use vstd::prelude::*;

verus! {

/// Smallest-unit scale of one currency unit (seven decimal places).
pub const UNIT: i128 = 10_000_000;

/// Lowest credit score a profile can carry.
pub const MIN_SCORE: u32 = 300;

/// Highest credit score a profile can carry.
pub const MAX_SCORE: u32 = 850;

/// Score bonus for the average monthly income tier.
pub open spec fn monthly_bonus(avg_monthly_income: int) -> int {
    if avg_monthly_income > 3000 * UNIT {
        200
    } else if avg_monthly_income > 2000 * UNIT {
        150
    } else if avg_monthly_income > 1000 * UNIT {
        100
    } else {
        50
    }
}

/// Score bonus for the total reported income.
pub open spec fn total_bonus(total_income: int) -> int {
    if total_income > 50000 * UNIT {
        100
    } else if total_income > 25000 * UNIT {
        50
    } else {
        0
    }
}

/// Credit score: base 300 plus the income bonuses and 25 per platform, capped at 850.
pub open spec fn score_spec(total_income: int, avg_monthly_income: int, platforms: int) -> int {
    let raw = MIN_SCORE + monthly_bonus(avg_monthly_income) + 25 * platforms + total_bonus(total_income);
    if raw > MAX_SCORE { MAX_SCORE as int } else { raw }
}

/// Derives a credit score from reported income and the number of gig platforms.
pub fn calculate_credit_score(total_income: i128, avg_monthly_income: i128, platforms_count: u32) -> (score: u32)
    ensures
        score as int == score_spec(total_income as int, avg_monthly_income as int, platforms_count as int),
        MIN_SCORE <= score <= MAX_SCORE,
{
    let mut score: u64 = MIN_SCORE as u64;
    if avg_monthly_income > 3000 * UNIT {
        score = score + 200;
    } else if avg_monthly_income > 2000 * UNIT {
        score = score + 150;
    } else if avg_monthly_income > 1000 * UNIT {
        score = score + 100;
    } else {
        score = score + 50;
    }
    score = score + 25 * (platforms_count as u64);
    if total_income > 50000 * UNIT {
        score = score + 100;
    } else if total_income > 25000 * UNIT {
        score = score + 50;
    }
    if score > MAX_SCORE as u64 {
        MAX_SCORE
    } else {
        score as u32
    }
}

} // verus!
