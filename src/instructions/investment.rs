use vstd::prelude::*;
use crate::errors::SkillPassError;
use crate::ledger::LedgerRequest;
use crate::state::{
    Investment, InvestmentPool, ProgramState, Pubkey, RevenueBreakdown, Skill,
    Treasury, BASIS_POINTS, INVESTOR_SHARE, JOB_COMPLETION_FEE, MIN_INVESTMENT, PLATFORM_SHARE,
    SKILL_OWNER_SHARE, YIELD_PERIOD,
};

verus! {

/// The records that an investment reads and writes.
#[derive(Clone, Debug, PartialEq, Eq)]
pub struct InvestInSkill {
    pub program_state: ProgramState,
    pub skill: Skill,
    pub investment_pool: InvestmentPool,
    /// The investor's position in this skill.
    pub investment: Investment,
    pub treasury: Treasury,
    /// The caller.
    pub investor: Pubkey,
    /// What the investor's token account holds.
    pub investor_token_balance: u64,
}

/// The records that recording a completed job reads and writes.
#[derive(Clone, Debug, PartialEq, Eq)]
pub struct RecordJobCompletion {
    pub program_state: ProgramState,
    pub skill: Skill,
    pub investment_pool: InvestmentPool,
    pub revenue_breakdown: RevenueBreakdown,
    pub treasury: Treasury,
    /// The caller.
    pub authority: Pubkey,
}

/// The records that a yield claim reads and writes.
#[derive(Clone, Debug, PartialEq, Eq)]
pub struct ClaimYield {
    pub program_state: ProgramState,
    pub skill: Skill,
    pub investment_pool: InvestmentPool,
    /// The investor's position in this skill.
    pub investment: Investment,
    pub treasury: Treasury,
    /// The caller.
    pub investor: Pubkey,
    /// What the treasury's token account holds.
    pub treasury_token_balance: u64,
}

impl ClaimYield {
    /// The investor's position is part of the pool's total: every accepted
    /// investment adds the same amount to both.
    pub open spec fn position_within_pool(&self) -> bool {
        self.investment.amount <= self.investment_pool.total_invested
    }
}

// ----- investing -----

/// The pool as an investment finds it: a pool never set up gets its identity
/// (the skill id and the time it was set up); what it holds is kept.
pub open spec fn pool_in_use(pool: InvestmentPool, skill_id: u64, now: i64) -> InvestmentPool {
    if pool.skill_id == 0 {
        InvestmentPool { skill_id, last_distribution: now, ..pool }
    } else {
        pool
    }
}

/// Why an investment is refused, if it is.
pub open spec fn invest_error(c: InvestInSkill, skill_id: u64, amount: u64, now: i64) -> Option<SkillPassError> {
    let pool = pool_in_use(c.investment_pool, skill_id, now);
    if amount < MIN_INVESTMENT {
        Some(SkillPassError::BelowMinimumInvestment)
    } else if amount == 0 {
        Some(SkillPassError::InvalidAmount)
    } else if skill_id == 0 {
        Some(SkillPassError::InvalidSkillId)
    } else if c.skill.creator == c.investor {
        Some(SkillPassError::CannotInvestInOwnSkill)
    } else if c.investor_token_balance < amount {
        Some(SkillPassError::InsufficientReputationTokens)
    } else if c.investment.amount + amount > u64::MAX || pool.total_invested + amount > u64::MAX || (
    c.investment.amount == 0 && pool.investor_count + 1 > u64::MAX) || c.program_state.total_investments + 1
        > u64::MAX {
        Some(SkillPassError::ArithmeticOverflow)
    } else {
        None
    }
}

/// The records after an accepted investment: the amount is added to the
/// position and to the pool; a first contribution counts a new investor and
/// starts the claim clock, a top-up leaves the clock where it was.
pub open spec fn invested(c: InvestInSkill, skill_id: u64, amount: u64, now: i64) -> InvestInSkill {
    let pool = pool_in_use(c.investment_pool, skill_id, now);
    let first = c.investment.amount == 0;
    InvestInSkill {
        investment_pool: InvestmentPool {
            total_invested: (pool.total_invested + amount) as u64,
            investor_count: if first {
                (pool.investor_count + 1) as u64
            } else {
                pool.investor_count
            },
            ..pool
        },
        investment: Investment {
            investor: c.investor,
            skill_id,
            amount: (c.investment.amount + amount) as u64,
            last_claim_time: if first {
                now
            } else {
                c.investment.last_claim_time
            },
            ..c.investment
        },
        program_state: ProgramState {
            total_investments: (c.program_state.total_investments + 1) as u64,
            ..c.program_state
        },
        ..c
    }
}

/// Puts `amount` of the investor's units into a skill's pool. On success the
/// amount is to move from the investor into the treasury.
pub fn invest_in_skill(ctx: &mut InvestInSkill, skill_id: u64, amount: u64, now: i64) -> (r: Result<
    LedgerRequest,
    SkillPassError,
>)
    ensures
        match invest_error(*old(ctx), skill_id, amount, now) {
            Some(e) => r == Err::<LedgerRequest, SkillPassError>(e) && *final(ctx) == *old(ctx),
            None => r == Ok::<LedgerRequest, SkillPassError>(
                LedgerRequest::IntoTreasury { owner: old(ctx).investor, amount },
            ) && *final(ctx) == invested(*old(ctx), skill_id, amount, now),
        },
        amount < MIN_INVESTMENT ==> r == Err::<LedgerRequest, SkillPassError>(
            SkillPassError::BelowMinimumInvestment,
        ) && final(ctx).investment_pool == old(ctx).investment_pool,
{
    if amount < MIN_INVESTMENT {
        return Err(SkillPassError::BelowMinimumInvestment);
    }
    if amount == 0 {
        return Err(SkillPassError::InvalidAmount);
    }
    if skill_id == 0 {
        return Err(SkillPassError::InvalidSkillId);
    }
    if ctx.skill.creator == ctx.investor {
        return Err(SkillPassError::CannotInvestInOwnSkill);
    }
    if ctx.investor_token_balance < amount {
        return Err(SkillPassError::InsufficientReputationTokens);
    }
    let pool = if ctx.investment_pool.skill_id == 0 {
        InvestmentPool { skill_id, last_distribution: now, ..ctx.investment_pool }
    } else {
        ctx.investment_pool
    };
    let first = ctx.investment.amount == 0;
    let position = match ctx.investment.amount.checked_add(amount) {
        Some(v) => v,
        None => return Err(SkillPassError::ArithmeticOverflow),
    };
    let pool_total = match pool.total_invested.checked_add(amount) {
        Some(v) => v,
        None => return Err(SkillPassError::ArithmeticOverflow),
    };
    let investor_count = if first {
        match pool.investor_count.checked_add(1) {
            Some(v) => v,
            None => return Err(SkillPassError::ArithmeticOverflow),
        }
    } else {
        pool.investor_count
    };
    let total_investments = match ctx.program_state.total_investments.checked_add(1) {
        Some(v) => v,
        None => return Err(SkillPassError::ArithmeticOverflow),
    };
    ctx.investment_pool = InvestmentPool { total_invested: pool_total, investor_count, ..pool };
    if first {
        ctx.investment.last_claim_time = now;
    }
    ctx.investment.investor = ctx.investor;
    ctx.investment.skill_id = skill_id;
    ctx.investment.amount = position;
    ctx.program_state.total_investments = total_investments;
    Ok(LedgerRequest::IntoTreasury { owner: ctx.investor, amount })
}

/// The sum of the amounts among the first `n` whose call was accepted.
pub open spec fn accepted_total(
    amounts: Seq<u64>,
    results: Seq<Result<LedgerRequest, SkillPassError>>,
    n: int,
) -> int
    decreases n,
{
    if n <= 0 {
        0
    } else {
        accepted_total(amounts, results, n - 1) + if results[n - 1] is Ok {
            amounts[n - 1] as int
        } else {
            0
        }
    }
}

/// Over any run of investment calls on one pool that starts with nothing
/// invested, the pool's total is the sum of the amounts that were accepted.
/// Call `i` takes the records `before[i]` and leaves `after[i]`, as
/// `invest_in_skill` does; each call sees the pool that the one before left.
pub proof fn lemma_pool_total_is_sum_of_accepted(
    before: Seq<InvestInSkill>,
    after: Seq<InvestInSkill>,
    skill_ids: Seq<u64>,
    amounts: Seq<u64>,
    nows: Seq<i64>,
    results: Seq<Result<LedgerRequest, SkillPassError>>,
)
    requires
        before.len() > 0,
        after.len() == before.len(),
        skill_ids.len() == before.len(),
        amounts.len() == before.len(),
        nows.len() == before.len(),
        results.len() == before.len(),
        before[0].investment_pool.total_invested == 0,
        forall|i: int|
            0 <= i < before.len() ==> match #[trigger] invest_error(before[i], skill_ids[i], amounts[i], nows[i]) {
                Some(e) => results[i] == Err::<LedgerRequest, SkillPassError>(e) && after[i] == before[i],
                None => results[i] == Ok::<LedgerRequest, SkillPassError>(
                    LedgerRequest::IntoTreasury { owner: before[i].investor, amount: amounts[i] },
                ) && after[i] == invested(before[i], skill_ids[i], amounts[i], nows[i]),
            },
        forall|i: int|
            0 <= i < before.len() - 1 ==> #[trigger] before[i + 1].investment_pool == after[i].investment_pool,
    ensures
        after[before.len() - 1].investment_pool.total_invested == accepted_total(
            amounts,
            results,
            before.len() as int,
        ),
{
    let n = before.len() as int;
    assert forall|k: int| 0 <= k < n implies {
        after[k].investment_pool.total_invested == accepted_total(amounts, results, k + 1)
    } by {
        lemma_pool_total_prefix(before, after, skill_ids, amounts, nows, results, k);
    }
}

proof fn lemma_pool_total_prefix(
    before: Seq<InvestInSkill>,
    after: Seq<InvestInSkill>,
    skill_ids: Seq<u64>,
    amounts: Seq<u64>,
    nows: Seq<i64>,
    results: Seq<Result<LedgerRequest, SkillPassError>>,
    k: int,
)
    requires
        0 <= k < before.len(),
        after.len() == before.len(),
        skill_ids.len() == before.len(),
        amounts.len() == before.len(),
        nows.len() == before.len(),
        results.len() == before.len(),
        before[0].investment_pool.total_invested == 0,
        forall|i: int|
            0 <= i < before.len() ==> match #[trigger] invest_error(before[i], skill_ids[i], amounts[i], nows[i]) {
                Some(e) => results[i] == Err::<LedgerRequest, SkillPassError>(e) && after[i] == before[i],
                None => results[i] == Ok::<LedgerRequest, SkillPassError>(
                    LedgerRequest::IntoTreasury { owner: before[i].investor, amount: amounts[i] },
                ) && after[i] == invested(before[i], skill_ids[i], amounts[i], nows[i]),
            },
        forall|i: int|
            0 <= i < before.len() - 1 ==> #[trigger] before[i + 1].investment_pool == after[i].investment_pool,
    ensures
        after[k].investment_pool.total_invested == accepted_total(amounts, results, k + 1),
    decreases k,
{
    let err = invest_error(before[k], skill_ids[k], amounts[k], nows[k]);
    if k > 0 {
        lemma_pool_total_prefix(before, after, skill_ids, amounts, nows, results, k - 1);
        assert(before[k].investment_pool == after[k - 1].investment_pool);
    }
    let pool = before[k].investment_pool;
    assert(pool.total_invested == accepted_total(amounts, results, k));
    assert(pool_in_use(pool, skill_ids[k], nows[k]).total_invested == pool.total_invested);
    if err is None {
        assert(results[k] is Ok);
    } else {
        assert(results[k] is Err);
    }
}

// ----- job revenue -----

/// The fee taken from a job's revenue.
pub open spec fn platform_fee_of(job_revenue: u64) -> int {
    job_revenue * JOB_COMPLETION_FEE / (BASIS_POINTS as int)
}

/// The investors' part of a fee.
pub open spec fn investor_share_of(fee: int) -> int {
    fee * INVESTOR_SHARE / (BASIS_POINTS as int)
}

/// The skill owner's part of a fee.
pub open spec fn owner_share_of(fee: int) -> int {
    fee * SKILL_OWNER_SHARE / (BASIS_POINTS as int)
}

/// The platform's part of a fee.
pub open spec fn platform_share_of(fee: int) -> int {
    fee * PLATFORM_SHARE / (BASIS_POINTS as int)
}

/// The annual return, in basis points, of a pool with this monthly revenue.
pub open spec fn apy_of(monthly_revenue: int, total_invested: u64) -> int {
    monthly_revenue * 12 * BASIS_POINTS / (total_invested as int)
}

/// Why recording a job is refused, if it is.
pub open spec fn record_job_error(c: RecordJobCompletion, skill_id: u64, job_revenue: u64, job_title: Seq<char>) -> Option<
    SkillPassError,
> {
    let fee = platform_fee_of(job_revenue);
    let monthly = c.investment_pool.monthly_revenue + investor_share_of(fee);
    if c.authority != c.program_state.authority {
        Some(SkillPassError::Unauthorized)
    } else if job_revenue == 0 || job_title.len() == 0 {
        Some(SkillPassError::InvalidAmount)
    } else if skill_id == 0 {
        Some(SkillPassError::InvalidSkillId)
    } else if monthly > u64::MAX || c.investment_pool.total_revenue_earned + investor_share_of(fee) > u64::MAX
        || c.investment_pool.skill_owner_earnings + owner_share_of(fee) > u64::MAX || (
    c.investment_pool.total_invested > 0 && apy_of(monthly, c.investment_pool.total_invested) > u64::MAX)
        || c.revenue_breakdown.job_completions + investor_share_of(fee) > u64::MAX || c.treasury.total_fees
        + platform_share_of(fee) > u64::MAX || c.program_state.total_revenue + job_revenue > u64::MAX {
        Some(SkillPassError::ArithmeticOverflow)
    } else {
        None
    }
}

/// The records after a recorded job: the investors' share goes to the pool's
/// monthly and total revenue and to the job line of the breakdown, the owner's
/// share to the owner's earnings, the platform's share to the treasury's fees;
/// the annual return is recomputed when the pool holds anything.
pub open spec fn job_recorded(c: RecordJobCompletion, skill_id: u64, job_revenue: u64) -> RecordJobCompletion {
    let fee = platform_fee_of(job_revenue);
    let inv = investor_share_of(fee);
    let monthly = c.investment_pool.monthly_revenue + inv;
    RecordJobCompletion {
        investment_pool: InvestmentPool {
            monthly_revenue: monthly as u64,
            total_revenue_earned: (c.investment_pool.total_revenue_earned + inv) as u64,
            skill_owner_earnings: (c.investment_pool.skill_owner_earnings + owner_share_of(fee)) as u64,
            current_apy: if c.investment_pool.total_invested > 0 {
                apy_of(monthly, c.investment_pool.total_invested) as u64
            } else {
                c.investment_pool.current_apy
            },
            ..c.investment_pool
        },
        revenue_breakdown: RevenueBreakdown {
            skill_id,
            job_completions: (c.revenue_breakdown.job_completions + inv) as u64,
            ..c.revenue_breakdown
        },
        treasury: Treasury {
            total_fees: (c.treasury.total_fees + platform_share_of(fee)) as u64,
            ..c.treasury
        },
        program_state: ProgramState {
            total_revenue: (c.program_state.total_revenue + job_revenue) as u64,
            ..c.program_state
        },
        ..c
    }
}

/// `value * part / BASIS_POINTS`, for a part of at most one whole.
fn bps_of(value: u64, part: u64) -> (r: u64)
    requires
        part <= BASIS_POINTS,
    ensures
        r == value * part / (BASIS_POINTS as int),
{
    proof {
        assert(value * part <= value * BASIS_POINTS) by (nonlinear_arith)
            requires
                part <= BASIS_POINTS,
        ;
        assert(value * part / (BASIS_POINTS as int) <= value) by (nonlinear_arith)
            requires
                value * part <= value * BASIS_POINTS,
        ;
    }
    (value as u128 * part as u128 / BASIS_POINTS as u128) as u64
}

/// Records the revenue of a completed job for a skill and splits its fee, as
/// the platform authority.
pub fn record_job_completion(
    ctx: &mut RecordJobCompletion,
    skill_id: u64,
    job_revenue: u64,
    job_title: String,
) -> (r: Result<(), SkillPassError>)
    ensures
        match record_job_error(*old(ctx), skill_id, job_revenue, job_title@) {
            Some(e) => r == Err::<(), SkillPassError>(e) && *final(ctx) == *old(ctx),
            None => r is Ok && *final(ctx) == job_recorded(*old(ctx), skill_id, job_revenue),
        },
{
    if ctx.authority != ctx.program_state.authority {
        return Err(SkillPassError::Unauthorized);
    }
    if job_revenue == 0 || job_title.as_str().is_empty() {
        return Err(SkillPassError::InvalidAmount);
    }
    if skill_id == 0 {
        return Err(SkillPassError::InvalidSkillId);
    }
    let fee = bps_of(job_revenue, JOB_COMPLETION_FEE);
    let investor_share = bps_of(fee, INVESTOR_SHARE);
    let owner_share = bps_of(fee, SKILL_OWNER_SHARE);
    let platform_share = bps_of(fee, PLATFORM_SHARE);
    let monthly = match ctx.investment_pool.monthly_revenue.checked_add(investor_share) {
        Some(v) => v,
        None => return Err(SkillPassError::ArithmeticOverflow),
    };
    let earned = match ctx.investment_pool.total_revenue_earned.checked_add(investor_share) {
        Some(v) => v,
        None => return Err(SkillPassError::ArithmeticOverflow),
    };
    let owner_earnings = match ctx.investment_pool.skill_owner_earnings.checked_add(owner_share) {
        Some(v) => v,
        None => return Err(SkillPassError::ArithmeticOverflow),
    };
    let total_invested = ctx.investment_pool.total_invested;
    let apy = if total_invested > 0 {
        proof {
            assert(monthly * 120000 <= u64::MAX * 120000) by (nonlinear_arith)
                requires
                    monthly <= u64::MAX,
            ;
            assert(apy_of(monthly as int, total_invested) == monthly * 120000 / (total_invested as int)) by (
            nonlinear_arith);
        }
        let wide = monthly as u128 * 120000 / total_invested as u128;
        if wide > u64::MAX as u128 {
            return Err(SkillPassError::ArithmeticOverflow);
        }
        wide as u64
    } else {
        ctx.investment_pool.current_apy
    };
    let job_completions = match ctx.revenue_breakdown.job_completions.checked_add(investor_share) {
        Some(v) => v,
        None => return Err(SkillPassError::ArithmeticOverflow),
    };
    let total_fees = match ctx.treasury.total_fees.checked_add(platform_share) {
        Some(v) => v,
        None => return Err(SkillPassError::ArithmeticOverflow),
    };
    let total_revenue = match ctx.program_state.total_revenue.checked_add(job_revenue) {
        Some(v) => v,
        None => return Err(SkillPassError::ArithmeticOverflow),
    };
    ctx.investment_pool.monthly_revenue = monthly;
    ctx.investment_pool.total_revenue_earned = earned;
    ctx.investment_pool.skill_owner_earnings = owner_earnings;
    ctx.investment_pool.current_apy = apy;
    ctx.revenue_breakdown.skill_id = skill_id;
    ctx.revenue_breakdown.job_completions = job_completions;
    ctx.treasury.total_fees = total_fees;
    ctx.program_state.total_revenue = total_revenue;
    Ok(())
}

// ----- yield -----

/// Whole yield periods from `last_claim_time` to `now`; none when `now` is not later.
pub open spec fn months_elapsed(last_claim_time: i64, now: i64) -> int {
    if now > last_claim_time {
        (now - last_claim_time) / (YIELD_PERIOD as int)
    } else {
        0
    }
}

/// The investor's part of the pool, in basis points.
pub open spec fn investor_share_bps(c: ClaimYield) -> int {
    c.investment.amount * BASIS_POINTS / (c.investment_pool.total_invested as int)
}

/// The investor's part of one month's revenue.
pub open spec fn monthly_yield(c: ClaimYield) -> int {
    c.investment_pool.monthly_revenue * investor_share_bps(c) / (BASIS_POINTS as int)
}

/// What a claim at `now` pays: one month's part for every whole month elapsed.
pub open spec fn yield_due(c: ClaimYield, now: i64) -> int {
    monthly_yield(c) * months_elapsed(c.investment.last_claim_time, now)
}

/// Why a yield claim is refused, if it is.
pub open spec fn claim_yield_error(c: ClaimYield, skill_id: u64, now: i64) -> Option<SkillPassError> {
    let due = yield_due(c, now);
    if c.investment.amount == 0 || c.investment.skill_id != skill_id {
        Some(SkillPassError::NoInvestmentInSkill)
    } else if months_elapsed(c.investment.last_claim_time, now) == 0 || due == 0 {
        Some(SkillPassError::NoYieldToClaim)
    } else if c.treasury_token_balance < due {
        Some(SkillPassError::InsufficientReputationTokens)
    } else if c.investment.total_claimed + due > u64::MAX || c.treasury.total_distributed + due > u64::MAX {
        Some(SkillPassError::ArithmeticOverflow)
    } else {
        None
    }
}

/// The records after a yield claim: the whole elapsed window is claimed at
/// once, so the claim clock moves to `now`; the amount is added to what the
/// investor has claimed and to what the treasury has distributed.
pub open spec fn yield_claimed(c: ClaimYield, now: i64) -> ClaimYield {
    let due = yield_due(c, now);
    ClaimYield {
        investment: Investment {
            last_claim_time: now,
            total_claimed: (c.investment.total_claimed + due) as u64,
            ..c.investment
        },
        treasury: Treasury { total_distributed: (c.treasury.total_distributed + due) as u64, ..c.treasury },
        ..c
    }
}

/// Pays the investor's part of the pool's monthly revenue for every whole
/// month since the last claim. On success the amount is to move from the
/// treasury to the investor.
pub fn claim_yield(ctx: &mut ClaimYield, skill_id: u64, now: i64) -> (r: Result<LedgerRequest, SkillPassError>)
    requires
        old(ctx).position_within_pool(),
    ensures
        match claim_yield_error(*old(ctx), skill_id, now) {
            Some(e) => r == Err::<LedgerRequest, SkillPassError>(e) && *final(ctx) == *old(ctx),
            None => r == Ok::<LedgerRequest, SkillPassError>(
                LedgerRequest::OutOfTreasury { owner: old(ctx).investor, amount: yield_due(*old(ctx), now) as u64 },
            ) && *final(ctx) == yield_claimed(*old(ctx), now),
        },
{
    let amount = ctx.investment.amount;
    if amount == 0 || ctx.investment.skill_id != skill_id {
        return Err(SkillPassError::NoInvestmentInSkill);
    }
    let last = ctx.investment.last_claim_time;
    let months: u64 = if now > last {
        let elapsed = (now as i128 - last as i128) as u64;
        elapsed / (YIELD_PERIOD as u64)
    } else {
        0
    };
    if months == 0 {
        return Err(SkillPassError::NoYieldToClaim);
    }
    let total = ctx.investment_pool.total_invested;
    let monthly_revenue = ctx.investment_pool.monthly_revenue;
    proof {
        assert(amount * BASIS_POINTS <= total * BASIS_POINTS) by (nonlinear_arith)
            requires
                amount <= total,
        ;
        assert(amount * BASIS_POINTS / (total as int) <= BASIS_POINTS) by (nonlinear_arith)
            requires
                amount * BASIS_POINTS <= total * BASIS_POINTS,
                total > 0,
        ;
    }
    let share = (amount as u128 * BASIS_POINTS as u128 / total as u128) as u64;
    let per_month = bps_of(monthly_revenue, share);
    proof {
        assert(per_month * months <= u64::MAX * u64::MAX) by (nonlinear_arith)
            requires
                per_month <= u64::MAX,
                months <= u64::MAX,
        ;
    }
    let due = per_month as u128 * months as u128;
    if due == 0 {
        return Err(SkillPassError::NoYieldToClaim);
    }
    if (ctx.treasury_token_balance as u128) < due {
        return Err(SkillPassError::InsufficientReputationTokens);
    }
    let due = due as u64;
    let claimed = match ctx.investment.total_claimed.checked_add(due) {
        Some(v) => v,
        None => return Err(SkillPassError::ArithmeticOverflow),
    };
    let distributed = match ctx.treasury.total_distributed.checked_add(due) {
        Some(v) => v,
        None => return Err(SkillPassError::ArithmeticOverflow),
    };
    ctx.investment.last_claim_time = now;
    ctx.investment.total_claimed = claimed;
    ctx.treasury.total_distributed = distributed;
    Ok(LedgerRequest::OutOfTreasury { owner: ctx.investor, amount: due })
}

/// After a successful yield claim at `first_now`, a claim on the same position
/// earlier than one full yield period later is refused with `NoYieldToClaim`.
pub proof fn lemma_second_claim_in_window_fails(
    first: ClaimYield,
    skill_id: u64,
    first_now: i64,
    second: ClaimYield,
    second_now: i64,
)
    requires
        claim_yield_error(first, skill_id, first_now) is None,
        second.investment == yield_claimed(first, first_now).investment,
        second_now < first_now + YIELD_PERIOD,
    ensures
        claim_yield_error(second, skill_id, second_now) == Some(SkillPassError::NoYieldToClaim),
{
    if second_now > first_now {
        let d: int = second_now - first_now;
        assert(d / (YIELD_PERIOD as int) == 0) by (nonlinear_arith)
            requires
                0 < d < YIELD_PERIOD,
                YIELD_PERIOD > 0,
        ;
    }
}

} // verus!
