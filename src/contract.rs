use vstd::prelude::*;

use crate::rates::{default_rates, default_table, rate_spec, resolve_rate};
use crate::scoring::{calculate_credit_score, score_spec};
use crate::types::{ContractError, CreditProfile, LiquidityPool, Loan, copy_identity, same_identity};

verus! {

/// Yield, in basis points, of every new deposit.
pub const DEPOSIT_APY: u32 = 800;

/// Payment-history score that every profile update sets.
pub const INITIAL_PAYMENT_HISTORY: u32 = 500;

/// Verification level that every profile update sets.
pub const INITIAL_VERIFICATION_LEVEL: u32 = 3;

/// Least collateral for a loan of `amount`: 150% of it, truncated toward zero.
pub open spec fn min_collateral(amount: int) -> int {
    if amount >= 0 {
        (amount * 150) / 100
    } else {
        -(((-amount) * 150) / 100)
    }
}

/// `l` is the loan that an origination with these values builds.
pub open spec fn loan_is(
    l: Loan,
    borrower: Seq<u8>,
    amount: i128,
    collateral: i128,
    interest_rate: u32,
    duration: u64,
    now: u64,
    credit_score: u32,
) -> bool {
    &&& l.borrower@ == borrower
    &&& l.amount == amount
    &&& l.collateral == collateral
    &&& l.interest_rate == interest_rate
    &&& l.duration == duration
    &&& l.created_at == now
    &&& l.due_date == now + duration
    &&& l.is_active
    &&& l.credit_score == credit_score
}

/// `p` is the profile that an update with these values stores.
pub open spec fn profile_is(
    p: CreditProfile,
    user: Seq<u8>,
    total_income: i128,
    avg_monthly_income: i128,
    gig_platforms: Seq<String>,
    now: u64,
) -> bool {
    &&& p.user@ == user
    &&& p.total_income == total_income
    &&& p.avg_monthly_income == avg_monthly_income
    &&& p.payment_history == INITIAL_PAYMENT_HISTORY
    &&& p.gig_platforms@ == gig_platforms
    &&& p.verification_level == INITIAL_VERIFICATION_LEVEL
    &&& p.credit_score as int == score_spec(total_income as int, avg_monthly_income as int, gig_platforms.len() as int)
    &&& p.last_updated == now
}

/// `d` is the deposit record that a deposit with these values appends.
pub open spec fn deposit_is(d: LiquidityPool, provider: Seq<u8>, amount: i128, now: u64) -> bool {
    &&& d.provider@ == provider
    &&& d.amount == amount
    &&& d.apy == DEPOSIT_APY
    &&& d.provided_at == now
    &&& d.earned_interest == 0
    &&& d.is_active
}

/// Sum of the amounts of a sequence of deposits.
pub open spec fn deposited(s: Seq<LiquidityPool>) -> int
    decreases s.len(),
{
    if s.len() == 0 {
        0
    } else {
        deposited(s.drop_last()) + s.last().amount
    }
}

/// Sum of the principals of the active loans of a sequence.
pub open spec fn lent(s: Seq<Loan>) -> int
    decreases s.len(),
{
    if s.len() == 0 {
        0
    } else {
        lent(s.drop_last()) + if s.last().is_active {
            s.last().amount as int
        } else {
            0
        }
    }
}

/// The whole state of the protocol, threaded through every operation.
pub struct EbasDeFiContract {
    pub admin: Vec<u8>,
    /// Loans by id: the loan with id `i` stands at index `i`.
    pub loans: Vec<Loan>,
    /// Credit profiles, at most one per user.
    pub credit_profiles: Vec<CreditProfile>,
    /// Every deposit, in the order made.
    pub liquidity_pools: Vec<LiquidityPool>,
    /// The id of the next loan.
    pub loan_counter: u64,
    /// Deposits minus the principal of the loans made.
    pub total_liquidity: i128,
    pub paused: bool,
    /// Tier table: score threshold -> rate in basis points.
    pub interest_rates: Vec<(u32, u32)>,
}

impl EbasDeFiContract {
    /// Loan ids are dense and profiles are keyed by user.
    pub open spec fn wf(&self) -> bool {
        &&& self.loans@.len() == self.loan_counter
        &&& forall|i: int, j: int|
            0 <= i < self.credit_profiles@.len() && 0 <= j < self.credit_profiles@.len()
                && #[trigger] self.credit_profiles@[i].user@ == #[trigger] self.credit_profiles@[j].user@
                ==> i == j
    }

    /// The aggregate liquidity is what was deposited minus what is lent out.
    pub open spec fn balanced(&self) -> bool {
        self.total_liquidity == deposited(self.liquidity_pools@) - lent(self.loans@)
    }

    /// Every loan is collateralized at 150% and falls due `duration` after its creation.
    pub open spec fn loans_sound(&self) -> bool {
        forall|i: int|
            0 <= i < self.loans@.len() ==> {
                let l = #[trigger] self.loans@[i];
                &&& l.collateral >= min_collateral(l.amount as int)
                &&& l.due_date == l.created_at + l.duration
            }
    }

    /// Whether `user` has a stored profile.
    pub open spec fn has_profile(&self, user: Seq<u8>) -> bool {
        exists|i: int| 0 <= i < self.credit_profiles@.len() && #[trigger] self.credit_profiles@[i].user@ == user
    }

    /// The stored profile of `user`.
    pub open spec fn profile_of(&self, user: Seq<u8>) -> CreditProfile
        recommends
            self.has_profile(user),
    {
        self.credit_profiles@[choose|i: int| 0 <= i < self.credit_profiles@.len() && #[trigger] self.credit_profiles@[i].user@ == user]
    }

    /// The deposits of `provider`, in the order made.
    pub open spec fn deposits_of(&self, provider: Seq<u8>) -> Seq<LiquidityPool> {
        self.liquidity_pools@.filter(|d: LiquidityPool| d.provider@ == provider)
    }

    /// The first condition that refuses a loan request, if any.
    pub open spec fn loan_refusal(
        &self,
        caller: Seq<u8>,
        borrower: Seq<u8>,
        amount: i128,
        collateral: i128,
    ) -> Option<ContractError> {
        if caller != borrower {
            Some(ContractError::Unauthorized)
        } else if self.paused {
            Some(ContractError::Paused)
        } else if self.total_liquidity < amount {
            Some(ContractError::InsufficientLiquidity)
        } else if !self.has_profile(borrower) {
            Some(ContractError::ProfileNotFound)
        } else if collateral < min_collateral(amount as int) {
            Some(ContractError::InsufficientCollateral)
        } else {
            None
        }
    }

    /// The first condition that refuses a deposit, if any.
    pub open spec fn deposit_refusal(&self, caller: Seq<u8>, provider: Seq<u8>) -> Option<ContractError> {
        if caller != provider {
            Some(ContractError::Unauthorized)
        } else if self.paused {
            Some(ContractError::Paused)
        } else {
            None
        }
    }

    proof fn lemma_profile_at(&self, i: int)
        requires
            self.wf(),
            0 <= i < self.credit_profiles@.len(),
        ensures
            self.has_profile(self.credit_profiles@[i].user@),
            self.profile_of(self.credit_profiles@[i].user@) == self.credit_profiles@[i],
    {
        let user = self.credit_profiles@[i].user@;
        assert(self.credit_profiles@[i].user@ == user);
        let j = choose|j: int| 0 <= j < self.credit_profiles@.len() && #[trigger] self.credit_profiles@[j].user@ == user;
        assert(self.credit_profiles@[j].user@ == self.credit_profiles@[i].user@);
    }

    /// Sets up the protocol: no loans, profiles or deposits, zero liquidity,
    /// not paused, and the default tier table.
    pub fn initialize(admin: Vec<u8>) -> (r: Self)
        ensures
            r.wf(),
            r.admin == admin,
            r.loans@.len() == 0,
            r.credit_profiles@.len() == 0,
            r.liquidity_pools@.len() == 0,
            r.loan_counter == 0,
            r.total_liquidity == 0,
            !r.paused,
            r.interest_rates@ == default_table(),
            r.balanced(),
            r.loans_sound(),
    {
        EbasDeFiContract {
            admin,
            loans: Vec::new(),
            credit_profiles: Vec::new(),
            liquidity_pools: Vec::new(),
            loan_counter: 0,
            total_liquidity: 0,
            paused: false,
            interest_rates: default_rates(),
        }
    }

    /// The least collateral accepted for a loan of `amount`.
    pub fn required_collateral(amount: i128) -> (r: i128)
        requires
            i128::MIN <= amount * 150 <= i128::MAX,
        ensures
            r as int == min_collateral(amount as int),
    {
        if amount >= 0 {
            (amount * 150) / 100
        } else {
            -(((-amount) * 150) / 100)
        }
    }

    /// Fails with `Paused` while the protocol is paused.
    pub fn require_not_paused(&self) -> (r: Result<(), ContractError>)
        ensures
            r == (if self.paused { Err(ContractError::Paused) } else { Ok::<(), ContractError>(()) }),
    {
        if self.paused {
            Err(ContractError::Paused)
        } else {
            Ok(())
        }
    }

    /// The rate, in basis points, for a credit score under the stored tier table.
    pub fn get_interest_rate(&self, credit_score: u32) -> (r: u32)
        ensures
            r == rate_spec(self.interest_rates@, credit_score),
    {
        resolve_rate(&self.interest_rates, credit_score)
    }

    /// Originates a loan to `borrower`, acting for `caller` at time `now`.
    ///
    /// Refused, with nothing changed, on the first of: caller is not the
    /// borrower, paused, liquidity under `amount`, no profile, collateral under
    /// 150% of `amount`. Otherwise stores the loan under the next id, debits
    /// the liquidity by `amount`, advances the counter and returns the id.
    pub fn request_loan(
        &mut self,
        caller: &Vec<u8>,
        borrower: &Vec<u8>,
        amount: i128,
        collateral: i128,
        duration: u64,
        now: u64,
    ) -> (r: Result<u64, ContractError>)
        requires
            old(self).wf(),
            i128::MIN <= amount * 150 <= i128::MAX,
            now + duration <= u64::MAX,
            old(self).loan_counter < u64::MAX,
            i128::MIN <= old(self).total_liquidity - amount <= i128::MAX,
        ensures
            final(self).wf(),
            old(self).balanced() ==> final(self).balanced(),
            old(self).loans_sound() ==> final(self).loans_sound(),
            r is Err <==> old(self).loan_refusal(caller@, borrower@, amount, collateral) is Some,
            match r {
                Ok(id) => {
                    let score = old(self).profile_of(borrower@).credit_score;
                    &&& id == old(self).loan_counter
                    &&& final(self).loan_counter == old(self).loan_counter + 1
                    &&& final(self).total_liquidity == old(self).total_liquidity - amount
                    &&& final(self).loans@.len() == old(self).loans@.len() + 1
                    &&& final(self).loans@.drop_last() == old(self).loans@
                    &&& loan_is(
                        final(self).loans@.last(),
                        borrower@,
                        amount,
                        collateral,
                        rate_spec(old(self).interest_rates@, score),
                        duration,
                        now,
                        score,
                    )
                    &&& final(self).credit_profiles == old(self).credit_profiles
                    &&& final(self).liquidity_pools == old(self).liquidity_pools
                    &&& final(self).interest_rates == old(self).interest_rates
                    &&& final(self).paused == old(self).paused
                    &&& final(self).admin == old(self).admin
                },
                Err(e) => {
                    &&& old(self).loan_refusal(caller@, borrower@, amount, collateral) == Some(e)
                    &&& *final(self) == *old(self)
                },
            },
    {
        if !same_identity(caller, borrower) {
            return Err(ContractError::Unauthorized);
        }
        match self.require_not_paused() {
            Err(e) => {
                return Err(e);
            },
            Ok(()) => {},
        }
        let total_liquidity = self.total_liquidity;
        if total_liquidity < amount {
            return Err(ContractError::InsufficientLiquidity);
        }
        let index = match self.find_profile(borrower) {
            Some(i) => i,
            None => {
                return Err(ContractError::ProfileNotFound);
            },
        };
        proof {
            self.lemma_profile_at(index as int);
        }
        let credit_score = self.credit_profiles[index].credit_score;
        let interest_rate = self.get_interest_rate(credit_score);
        if collateral < Self::required_collateral(amount) {
            return Err(ContractError::InsufficientCollateral);
        }
        let loan_id = self.loan_counter;
        let loan = Loan {
            borrower: copy_identity(borrower),
            amount,
            collateral,
            interest_rate,
            duration,
            created_at: now,
            due_date: now + duration,
            is_active: true,
            credit_score,
        };
        self.loans.push(loan);
        self.loan_counter = loan_id + 1;
        self.total_liquidity = total_liquidity - amount;
        assert(self.loans@.drop_last() =~= old(self).loans@);
        assert(forall|i: int| 0 <= i < old(self).loans@.len() ==> self.loans@[i] == old(self).loans@[i]);
        Ok(loan_id)
    }

    /// Creates or fully replaces the credit profile of `user`, acting for
    /// `caller` at time `now`. Refused with `Unauthorized`, with nothing
    /// changed, when the caller is not the user. Other users' profiles and the
    /// rest of the state are left as they were.
    pub fn update_credit_profile(
        &mut self,
        caller: &Vec<u8>,
        user: &Vec<u8>,
        total_income: i128,
        avg_monthly_income: i128,
        gig_platforms: Vec<String>,
        now: u64,
    ) -> (r: Result<(), ContractError>)
        requires
            old(self).wf(),
            gig_platforms@.len() <= u32::MAX,
        ensures
            final(self).wf(),
            old(self).balanced() ==> final(self).balanced(),
            old(self).loans_sound() ==> final(self).loans_sound(),
            r is Err <==> caller@ != user@,
            r is Err ==> r == Err::<(), ContractError>(ContractError::Unauthorized) && *final(self) == *old(self),
            r is Ok ==> {
                &&& final(self).has_profile(user@)
                &&& profile_is(final(self).profile_of(user@), user@, total_income, avg_monthly_income, gig_platforms@, now)
                &&& forall|other: Seq<u8>|
                    other != user@ ==> (#[trigger] final(self).has_profile(other) == old(self).has_profile(other)
                        && (old(self).has_profile(other) ==> final(self).profile_of(other) == old(self).profile_of(other)))
                &&& final(self).loans == old(self).loans
                &&& final(self).liquidity_pools == old(self).liquidity_pools
                &&& final(self).loan_counter == old(self).loan_counter
                &&& final(self).total_liquidity == old(self).total_liquidity
                &&& final(self).interest_rates == old(self).interest_rates
                &&& final(self).paused == old(self).paused
                &&& final(self).admin == old(self).admin
            },
    {
        if !same_identity(caller, user) {
            return Err(ContractError::Unauthorized);
        }
        let credit_score = calculate_credit_score(total_income, avg_monthly_income, gig_platforms.len() as u32);
        let profile = CreditProfile {
            user: copy_identity(user),
            total_income,
            avg_monthly_income,
            payment_history: INITIAL_PAYMENT_HISTORY,
            gig_platforms,
            verification_level: INITIAL_VERIFICATION_LEVEL,
            credit_score,
            last_updated: now,
        };
        let ghost before = self.credit_profiles@;
        let slot = self.find_profile(user);
        match slot {
            Some(i) => {
                self.credit_profiles.set(i, profile);
                assert(self.credit_profiles@ == before.update(i as int, self.credit_profiles@[i as int]));
            },
            None => {
                self.credit_profiles.push(profile);
            },
        }
        let ghost k: int = match slot {
            Some(i) => i as int,
            None => before.len() as int,
        };
        let ghost after = self.credit_profiles@;
        assert(forall|j: int| 0 <= j < after.len() && j != k ==> after[j] == before[j]);
        assert(after[k].user@ == user@);
        assert(self.wf());
        proof {
            self.lemma_profile_at(k);
            assert forall|other: Seq<u8>| other != user@ implies
                (#[trigger] self.has_profile(other) == old(self).has_profile(other)
                && (old(self).has_profile(other) ==> self.profile_of(other) == old(self).profile_of(other))) by {
                if old(self).has_profile(other) {
                    let j = choose|j: int| 0 <= j < before.len() && #[trigger] before[j].user@ == other;
                    old(self).lemma_profile_at(j);
                    assert(j != k);
                    assert(after[j] == before[j]);
                    self.lemma_profile_at(j);
                }
                if self.has_profile(other) {
                    let j = choose|j: int| 0 <= j < after.len() && #[trigger] after[j].user@ == other;
                    assert(j != k);
                    assert(before[j].user@ == other);
                }
            }
        }
        Ok(())
    }

    /// Adds a deposit of `amount` by `provider`, acting for `caller` at time
    /// `now`. Refused, with nothing changed, when the caller is not the
    /// provider or the protocol is paused. Otherwise appends one deposit record
    /// and raises the liquidity by exactly `amount`.
    pub fn provide_liquidity(&mut self, caller: &Vec<u8>, provider: &Vec<u8>, amount: i128, now: u64) -> (r: Result<(), ContractError>)
        requires
            old(self).wf(),
            i128::MIN <= old(self).total_liquidity + amount <= i128::MAX,
        ensures
            final(self).wf(),
            old(self).balanced() ==> final(self).balanced(),
            old(self).loans_sound() ==> final(self).loans_sound(),
            r is Err <==> old(self).deposit_refusal(caller@, provider@) is Some,
            match r {
                Ok(()) => {
                    &&& final(self).total_liquidity == old(self).total_liquidity + amount
                    &&& final(self).liquidity_pools@.len() == old(self).liquidity_pools@.len() + 1
                    &&& final(self).liquidity_pools@.drop_last() == old(self).liquidity_pools@
                    &&& deposit_is(final(self).liquidity_pools@.last(), provider@, amount, now)
                    &&& final(self).deposits_of(provider@) == old(self).deposits_of(provider@).push(final(self).liquidity_pools@.last())
                    &&& final(self).loans == old(self).loans
                    &&& final(self).credit_profiles == old(self).credit_profiles
                    &&& final(self).loan_counter == old(self).loan_counter
                    &&& final(self).interest_rates == old(self).interest_rates
                    &&& final(self).paused == old(self).paused
                    &&& final(self).admin == old(self).admin
                },
                Err(e) => {
                    &&& old(self).deposit_refusal(caller@, provider@) == Some(e)
                    &&& *final(self) == *old(self)
                },
            },
    {
        if !same_identity(caller, provider) {
            return Err(ContractError::Unauthorized);
        }
        match self.require_not_paused() {
            Err(e) => {
                return Err(e);
            },
            Ok(()) => {},
        }
        let deposit = LiquidityPool {
            provider: copy_identity(provider),
            amount,
            apy: DEPOSIT_APY,
            provided_at: now,
            earned_interest: 0,
            is_active: true,
        };
        self.liquidity_pools.push(deposit);
        self.total_liquidity = self.total_liquidity + amount;
        proof {
            let pred = |d: LiquidityPool| d.provider@ == provider@;
            old(self).liquidity_pools@.lemma_filter_push(self.liquidity_pools@.last(), pred);
            assert(self.liquidity_pools@ == old(self).liquidity_pools@.push(self.liquidity_pools@.last()));
            assert(self.liquidity_pools@.drop_last() =~= old(self).liquidity_pools@);
        }
        Ok(())
    }

    /// The loan with id `loan_id`, if one was made.
    pub fn get_loan(&self, loan_id: u64) -> (r: Option<&Loan>)
        ensures
            r == (if (loan_id as int) < self.loans@.len() { Some(&self.loans@[loan_id as int]) } else { None }),
    {
        if loan_id < self.loans.len() as u64 {
            Some(&self.loans[loan_id as usize])
        } else {
            None
        }
    }

    /// The credit profile of `user`, if one is stored.
    pub fn get_credit_profile(&self, user: &Vec<u8>) -> (r: Option<&CreditProfile>)
        requires
            self.wf(),
        ensures
            r is Some <==> self.has_profile(user@),
            r is Some ==> *r.unwrap() == self.profile_of(user@),
    {
        match self.find_profile(user) {
            Some(i) => {
                proof {
                    self.lemma_profile_at(i as int);
                }
                Some(&self.credit_profiles[i])
            },
            None => None,
        }
    }

    /// The aggregate liquidity.
    pub fn get_total_liquidity(&self) -> (r: i128)
        ensures
            r == self.total_liquidity,
    {
        self.total_liquidity
    }

    /// Index of the profile of `user`, if there is one.
    fn find_profile(&self, user: &Vec<u8>) -> (r: Option<usize>)
        ensures
            match r {
                Some(i) => i < self.credit_profiles@.len() && self.credit_profiles@[i as int].user@ == user@,
                None => !self.has_profile(user@),
            },
    {
        let mut i: usize = 0;
        while i < self.credit_profiles.len()
            invariant
                i <= self.credit_profiles@.len(),
                forall|j: int| 0 <= j < i ==> #[trigger] self.credit_profiles@[j].user@ != user@,
            decreases self.credit_profiles.len() - i,
        {
            if same_identity(&self.credit_profiles[i].user, user) {
                return Some(i);
            }
            i = i + 1;
        }
        None
    }
}

} // verus!
