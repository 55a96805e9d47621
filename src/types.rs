use vstd::prelude::*;

verus! {

/// A loan: immutable once originated.
#[derive(Debug)]
pub struct Loan {
    /// Identity of the borrower.
    pub borrower: Vec<u8>,
    pub amount: i128,
    pub collateral: i128,
    /// Interest rate in basis points (1% = 100).
    pub interest_rate: u32,
    /// Duration in seconds.
    pub duration: u64,
    pub created_at: u64,
    pub due_date: u64,
    pub is_active: bool,
    /// The borrower's credit score at origination.
    pub credit_score: u32,
}

/// A user's credit profile, fully replaced on every update.
#[derive(Debug)]
pub struct CreditProfile {
    /// Identity of the profile's owner.
    pub user: Vec<u8>,
    /// Total reported income.
    pub total_income: i128,
    /// Average monthly income.
    pub avg_monthly_income: i128,
    /// Payment-history score (0-1000).
    pub payment_history: u32,
    /// Gig platforms the user works on, in the order given.
    pub gig_platforms: Vec<String>,
    /// Verification level (0-5).
    pub verification_level: u32,
    /// Derived credit score (300-850).
    pub credit_score: u32,
    pub last_updated: u64,
}

/// One deposit of a liquidity provider.
#[derive(Debug)]
pub struct LiquidityPool {
    /// Identity of the provider.
    pub provider: Vec<u8>,
    pub amount: i128,
    /// Yield in basis points, fixed at deposit time.
    pub apy: u32,
    pub provided_at: u64,
    pub earned_interest: i128,
    pub is_active: bool,
}

/// The logical keys under which the protocol's state is persisted.
#[derive(Clone, Copy, Debug, PartialEq, Eq, Structural)]
pub enum DataKey {
    /// Loan id -> loan.
    Loans,
    /// Identity -> credit profile.
    CreditProfiles,
    /// Identity -> that provider's deposits.
    LiquidityPools,
    /// The next loan id.
    LoanCounter,
    /// Aggregate liquidity.
    TotalLiquidity,
    /// Administrator identity.
    Admin,
    /// Pause flag.
    Paused,
    /// Score threshold -> rate.
    InterestRates,
}

/// Why a call was refused. A refused call changes nothing.
#[derive(Clone, Copy, Debug, PartialEq, Eq, Structural)]
pub enum ContractError {
    /// The caller is not the identity the call acts for.
    Unauthorized,
    /// The protocol is paused.
    Paused,
    /// The pool holds less than the amount asked for.
    InsufficientLiquidity,
    /// The borrower has no credit profile.
    ProfileNotFound,
    /// The collateral is under 150% of the amount.
    InsufficientCollateral,
}

impl ContractError {
    /// A human-readable description of the condition.
    pub fn message(&self) -> (r: &'static str) {
        match self {
            ContractError::Unauthorized => "caller is not authorized",
            ContractError::Paused => "contract is paused",
            ContractError::InsufficientLiquidity => "insufficient liquidity",
            ContractError::ProfileNotFound => "credit profile not found",
            ContractError::InsufficientCollateral => "insufficient collateral",
        }
    }
}

/// Copies an identity byte for byte.
pub fn copy_identity(id: &Vec<u8>) -> (r: Vec<u8>)
    ensures
        r@ == id@,
{
    let mut r: Vec<u8> = Vec::new();
    let mut i: usize = 0;
    while i < id.len()
        invariant
            i <= id.len(),
            r@ == id@.subrange(0, i as int),
        decreases id.len() - i,
    {
        r.push(id[i]);
        i = i + 1;
        assert(r@ =~= id@.subrange(0, i as int));
    }
    assert(id@.subrange(0, i as int) =~= id@);
    r
}

/// Compares two identities byte for byte.
pub fn same_identity(a: &Vec<u8>, b: &Vec<u8>) -> (r: bool)
    ensures
        r == (a@ == b@),
{
    if a.len() != b.len() {
        return false;
    }
    let mut i: usize = 0;
    while i < a.len()
        invariant
            i <= a.len(),
            a.len() == b.len(),
            forall|j: int| 0 <= j < i ==> a@[j] == b@[j],
        decreases a.len() - i,
    {
        if a[i] != b[i] {
            assert(a@[i as int] != b@[i as int]);
            return false;
        }
        i = i + 1;
    }
    assert(a@ =~= b@);
    true
}

} // verus!
