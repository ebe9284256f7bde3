use vstd::prelude::*;
use crate::errors::SkillPassError;
use crate::ledger::LedgerRequest;
use crate::state::{
    meets_verification, is_verified_by, Endorsement,
    ProgramState, Pubkey, ReputationState, Skill, StakeInfo, StakerRewards, Treasury,
    CHALLENGE_MIN_REPUTATION, CHALLENGE_PERIOD, MIN_STAKE, REWARD_PERCENTAGE, SLASH_PERCENTAGE,
};

verus! {

/// The records that an endorsement reads and writes.
#[derive(Clone, Debug, PartialEq, Eq)]
pub struct EndorseSkill {
    pub program_state: ProgramState,
    pub skill: Skill,
    pub stake_info: StakeInfo,
    /// The endorser's endorsement record for this skill.
    pub endorsement: Endorsement,
    pub treasury: Treasury,
    /// The caller.
    pub endorser: Pubkey,
    /// What the endorser's token account holds.
    pub endorser_token_balance: u64,
}

/// The records that a challenge reads and writes.
#[derive(Clone, Debug, PartialEq, Eq)]
pub struct ChallengeSkill {
    pub program_state: ProgramState,
    pub skill: Skill,
    pub stake_info: StakeInfo,
    pub challenger_reputation: ReputationState,
    /// The caller.
    pub challenger: Pubkey,
}

/// The records that resolving a challenge reads and writes.
#[derive(Clone, Debug, PartialEq, Eq)]
pub struct ResolveChallenge {
    pub program_state: ProgramState,
    pub skill: Skill,
    pub stake_info: StakeInfo,
    pub treasury: Treasury,
    /// The caller.
    pub authority: Pubkey,
}

/// The records that claiming staking rewards reads and writes.
#[derive(Clone, Copy, Debug, PartialEq, Eq)]
pub struct ClaimStakingRewards {
    pub program_state: ProgramState,
    pub staker_rewards: StakerRewards,
    pub treasury: Treasury,
    /// The caller.
    pub staker: Pubkey,
    /// What the treasury's token account holds.
    pub treasury_token_balance: u64,
}

/// The stake information as an endorsement finds it: a record never set up
/// gets its skill id; what it holds is kept.
pub open spec fn stake_info_in_use(s: StakeInfo, skill_id: u64) -> StakeInfo {
    if s.skill_id == 0 {
        StakeInfo { skill_id, ..s }
    } else {
        s
    }
}

/// Why an endorsement is refused, if it is.
pub open spec fn endorse_error(c: EndorseSkill, skill_id: u64, stake_amount: u64, evidence: Seq<char>) -> Option<
    SkillPassError,
> {
    let s = stake_info_in_use(c.stake_info, skill_id);
    if stake_amount < MIN_STAKE {
        Some(SkillPassError::BelowMinimumStake)
    } else if stake_amount == 0 || evidence.len() == 0 {
        Some(SkillPassError::InvalidAmount)
    } else if skill_id == 0 {
        Some(SkillPassError::InvalidSkillId)
    } else if c.skill.creator == c.endorser {
        Some(SkillPassError::CannotEndorseOwnSkill)
    } else if c.endorsement.endorser == c.endorser && c.endorsement.active {
        Some(SkillPassError::AlreadyEndorsed)
    } else if c.endorser_token_balance < stake_amount {
        Some(SkillPassError::InsufficientReputationTokens)
    } else if s.total_staked + stake_amount > u64::MAX || s.endorsement_count + 1 > u64::MAX {
        Some(SkillPassError::ArithmeticOverflow)
    } else {
        None
    }
}

/// The records after an accepted endorsement: the endorsement is recorded as
/// active, the stake is added, the average recomputed, and the skill becomes
/// verified when the thresholds are met.
pub open spec fn endorsed(c: EndorseSkill, skill_id: u64, stake_amount: u64, evidence: String, now: i64) -> EndorseSkill {
    let s = stake_info_in_use(c.stake_info, skill_id);
    let total = (s.total_staked + stake_amount) as u64;
    let count = (s.endorsement_count + 1) as u64;
    EndorseSkill {
        stake_info: StakeInfo {
            total_staked: total,
            endorsement_count: count,
            average_stake: (total / count) as u64,
            ..s
        },
        endorsement: Endorsement {
            endorser: c.endorser,
            staked_amount: stake_amount,
            timestamp: now,
            active: true,
            evidence,
        },
        skill: Skill { verified: c.skill.verified || meets_verification(total, count), ..c.skill },
        ..c
    }
}

/// Stakes `stake_amount` on a skill of someone else. On success the stake is to
/// move from the endorser into the treasury.
pub fn endorse_skill(
    ctx: &mut EndorseSkill,
    skill_id: u64,
    stake_amount: u64,
    evidence: String,
    now: i64,
) -> (r: Result<LedgerRequest, SkillPassError>)
    ensures
        match endorse_error(*old(ctx), skill_id, stake_amount, evidence@) {
            Some(e) => r == Err::<LedgerRequest, SkillPassError>(e) && *final(ctx) == *old(ctx),
            None => r == Ok::<LedgerRequest, SkillPassError>(
                LedgerRequest::IntoTreasury { owner: old(ctx).endorser, amount: stake_amount },
            ) && *final(ctx) == endorsed(*old(ctx), skill_id, stake_amount, evidence, now),
        },
        old(ctx).skill.verified ==> final(ctx).skill.verified,
{
    if stake_amount < MIN_STAKE {
        return Err(SkillPassError::BelowMinimumStake);
    }
    if stake_amount == 0 || evidence.as_str().is_empty() {
        return Err(SkillPassError::InvalidAmount);
    }
    if skill_id == 0 {
        return Err(SkillPassError::InvalidSkillId);
    }
    if ctx.skill.creator == ctx.endorser {
        return Err(SkillPassError::CannotEndorseOwnSkill);
    }
    if ctx.endorsement.endorser == ctx.endorser && ctx.endorsement.active {
        return Err(SkillPassError::AlreadyEndorsed);
    }
    if ctx.endorser_token_balance < stake_amount {
        return Err(SkillPassError::InsufficientReputationTokens);
    }
    let current = if ctx.stake_info.skill_id == 0 {
        StakeInfo { skill_id, ..ctx.stake_info }
    } else {
        ctx.stake_info
    };
    let total = match current.total_staked.checked_add(stake_amount) {
        Some(v) => v,
        None => return Err(SkillPassError::ArithmeticOverflow),
    };
    let count = match current.endorsement_count.checked_add(1) {
        Some(v) => v,
        None => return Err(SkillPassError::ArithmeticOverflow),
    };
    ctx.stake_info = StakeInfo {
        total_staked: total,
        endorsement_count: count,
        average_stake: total / count,
        ..current
    };
    ctx.endorsement = Endorsement {
        endorser: ctx.endorser,
        staked_amount: stake_amount,
        timestamp: now,
        active: true,
        evidence,
    };
    if is_verified_by(total, count) {
        ctx.skill.verified = true;
    }
    Ok(LedgerRequest::IntoTreasury { owner: ctx.endorser, amount: stake_amount })
}

/// Why a challenge is refused, if it is.
pub open spec fn challenge_error(c: ChallengeSkill, now: i64) -> Option<SkillPassError> {
    if c.challenger_reputation.user != c.challenger {
        Some(SkillPassError::Unauthorized)
    } else if c.stake_info.total_staked == 0 || c.stake_info.challenged {
        Some(SkillPassError::AlreadyChallenged)
    } else if c.challenger_reputation.reputation_score < CHALLENGE_MIN_REPUTATION {
        Some(SkillPassError::InsufficientReputationToChallenge)
    } else if now + CHALLENGE_PERIOD > i64::MAX {
        Some(SkillPassError::ArithmeticOverflow)
    } else {
        None
    }
}

/// The records after an accepted challenge: the skill is challenged until one
/// challenge period from now.
pub open spec fn challenge_opened(c: ChallengeSkill, now: i64) -> ChallengeSkill {
    ChallengeSkill {
        stake_info: StakeInfo {
            challenged: true,
            challenge_end_time: (now + CHALLENGE_PERIOD) as i64,
            ..c.stake_info
        },
        ..c
    }
}

/// Disputes a skill that has stake on it and is not already disputed.
pub fn challenge_skill(ctx: &mut ChallengeSkill, _skill_id: u64, now: i64) -> (r: Result<(), SkillPassError>)
    ensures
        match challenge_error(*old(ctx), now) {
            Some(e) => r == Err::<(), SkillPassError>(e) && *final(ctx) == *old(ctx),
            None => r is Ok && *final(ctx) == challenge_opened(*old(ctx), now),
        },
        old(ctx).stake_info.total_staked == 0 ==> r is Err && *final(ctx) == *old(ctx),
{
    if ctx.challenger_reputation.user != ctx.challenger {
        return Err(SkillPassError::Unauthorized);
    }
    if ctx.stake_info.total_staked == 0 || ctx.stake_info.challenged {
        return Err(SkillPassError::AlreadyChallenged);
    }
    if ctx.challenger_reputation.reputation_score < CHALLENGE_MIN_REPUTATION {
        return Err(SkillPassError::InsufficientReputationToChallenge);
    }
    let end = match now.checked_add(CHALLENGE_PERIOD) {
        Some(v) => v,
        None => return Err(SkillPassError::ArithmeticOverflow),
    };
    ctx.stake_info.challenged = true;
    ctx.stake_info.challenge_end_time = end;
    Ok(())
}

/// What resolving a challenge adds to the treasury's fees: the reward pool
/// when the skill is valid, the slashed stake when it is not.
pub open spec fn resolution_fee(total_staked: u64, skill_is_valid: bool) -> int {
    if skill_is_valid {
        total_staked * REWARD_PERCENTAGE / 100
    } else {
        total_staked * SLASH_PERCENTAGE / 100
    }
}

/// Why resolving a challenge is refused, if it is.
pub open spec fn resolve_error(c: ResolveChallenge, skill_is_valid: bool, now: i64) -> Option<SkillPassError> {
    if c.authority != c.program_state.authority {
        Some(SkillPassError::Unauthorized)
    } else if !c.stake_info.challenged {
        Some(SkillPassError::SkillNotChallenged)
    } else if now < c.stake_info.challenge_end_time {
        Some(SkillPassError::ChallengePeriodNotEnded)
    } else if c.treasury.total_fees + resolution_fee(c.stake_info.total_staked, skill_is_valid) > u64::MAX {
        Some(SkillPassError::ArithmeticOverflow)
    } else {
        None
    }
}

/// The records after a resolution: the fee is added to the treasury, and the
/// stake information returns to its zero, unchallenged state.
pub open spec fn resolved(c: ResolveChallenge, skill_is_valid: bool) -> ResolveChallenge {
    ResolveChallenge {
        treasury: Treasury {
            total_fees: (c.treasury.total_fees + resolution_fee(c.stake_info.total_staked, skill_is_valid)) as u64,
            ..c.treasury
        },
        stake_info: StakeInfo {
            total_staked: 0,
            endorsement_count: 0,
            average_stake: 0,
            challenged: false,
            challenge_end_time: 0,
            ..c.stake_info
        },
        ..c
    }
}

/// Ends a challenge once its period is over, as the platform authority.
pub fn resolve_challenge(ctx: &mut ResolveChallenge, _skill_id: u64, skill_is_valid: bool, now: i64) -> (r: Result<
    (),
    SkillPassError,
>)
    ensures
        match resolve_error(*old(ctx), skill_is_valid, now) {
            Some(e) => r == Err::<(), SkillPassError>(e) && *final(ctx) == *old(ctx),
            None => r is Ok && *final(ctx) == resolved(*old(ctx), skill_is_valid),
        },
        ({
            let c = *old(ctx);
            c.authority == c.program_state.authority && c.stake_info.challenged
                && now < c.stake_info.challenge_end_time
        }) ==> r == Err::<(), SkillPassError>(SkillPassError::ChallengePeriodNotEnded)
            && *final(ctx) == *old(ctx),
        ({
            let c = *old(ctx);
            c.authority == c.program_state.authority && c.stake_info.challenged
                && now >= c.stake_info.challenge_end_time
                && c.treasury.total_fees + resolution_fee(c.stake_info.total_staked, skill_is_valid) <= u64::MAX
        }) ==> r is Ok && final(ctx).stake_info.total_staked == 0
            && final(ctx).stake_info.endorsement_count == 0 && final(ctx).stake_info.average_stake == 0
            && !final(ctx).stake_info.challenged,
{
    if ctx.authority != ctx.program_state.authority {
        return Err(SkillPassError::Unauthorized);
    }
    if !ctx.stake_info.challenged {
        return Err(SkillPassError::SkillNotChallenged);
    }
    if now < ctx.stake_info.challenge_end_time {
        return Err(SkillPassError::ChallengePeriodNotEnded);
    }
    let percentage: u64 = if skill_is_valid {
        REWARD_PERCENTAGE
    } else {
        SLASH_PERCENTAGE
    };
    let staked = ctx.stake_info.total_staked;
    proof {
        assert(staked * percentage <= u64::MAX * 100) by (nonlinear_arith)
            requires
                percentage <= 100,
                staked <= u64::MAX,
        ;
    }
    let fee = (staked as u128 * percentage as u128 / 100) as u64;
    let total_fees = match ctx.treasury.total_fees.checked_add(fee) {
        Some(v) => v,
        None => return Err(SkillPassError::ArithmeticOverflow),
    };
    ctx.treasury.total_fees = total_fees;
    ctx.stake_info.total_staked = 0;
    ctx.stake_info.endorsement_count = 0;
    ctx.stake_info.average_stake = 0;
    ctx.stake_info.challenged = false;
    ctx.stake_info.challenge_end_time = 0;
    Ok(())
}

/// Resolving a challenge, by the platform authority, before its end time is
/// refused with `ChallengePeriodNotEnded` whichever outcome is given, and so
/// changes nothing.
pub proof fn lemma_resolve_before_end_fails(c: ResolveChallenge, skill_is_valid: bool, now: i64)
    requires
        c.authority == c.program_state.authority,
        c.stake_info.challenged,
        now < c.stake_info.challenge_end_time,
    ensures
        resolve_error(c, skill_is_valid, now) == Some(SkillPassError::ChallengePeriodNotEnded),
{
}

/// From its end time on, the platform authority's resolution of a challenge
/// succeeds for either outcome, and both outcomes leave the same zero,
/// unchallenged stake information; they differ only in the fee added to the
/// treasury (a tenth of the stake when valid, half when invalid).
pub proof fn lemma_resolve_after_end_resets_either_way(c: ResolveChallenge, now: i64)
    requires
        c.authority == c.program_state.authority,
        c.stake_info.challenged,
        now >= c.stake_info.challenge_end_time,
        c.treasury.total_fees + resolution_fee(c.stake_info.total_staked, false) <= u64::MAX,
    ensures
        resolve_error(c, true, now) is None,
        resolve_error(c, false, now) is None,
        resolved(c, true).stake_info == resolved(c, false).stake_info,
        resolved(c, true).stake_info == (StakeInfo {
            total_staked: 0,
            endorsement_count: 0,
            average_stake: 0,
            challenged: false,
            challenge_end_time: 0,
            ..c.stake_info
        }),
        resolved(c, true).treasury.total_fees == c.treasury.total_fees + c.stake_info.total_staked
            * REWARD_PERCENTAGE / 100,
        resolved(c, false).treasury.total_fees == c.treasury.total_fees + c.stake_info.total_staked
            * SLASH_PERCENTAGE / 100,
{
    let t = c.stake_info.total_staked;
    assert(t * REWARD_PERCENTAGE / 100 <= t * SLASH_PERCENTAGE / 100) by (nonlinear_arith)
        requires
            t >= 0,
    ;
}

/// The records that settling one endorsement after a resolution reads and writes.
#[derive(Clone, Debug, PartialEq, Eq)]
pub struct CreditStakingReward {
    pub program_state: ProgramState,
    pub stake_info: StakeInfo,
    /// The endorsement being settled.
    pub endorsement: Endorsement,
    /// The endorser's reward record.
    pub staker_rewards: StakerRewards,
    /// The caller.
    pub authority: Pubkey,
}

/// What an endorser is owed once the challenge is resolved: the stake back
/// with its pro-rata part of the reward pool when the skill was valid, the
/// part of the stake that was not slashed when it was not.
pub open spec fn endorsement_credit(staked_amount: u64, skill_was_valid: bool) -> int {
    if skill_was_valid {
        staked_amount + staked_amount * REWARD_PERCENTAGE / 100
    } else {
        staked_amount - staked_amount * SLASH_PERCENTAGE / 100
    }
}

/// Why settling an endorsement is refused, if it is.
pub open spec fn credit_error(c: CreditStakingReward, skill_was_valid: bool) -> Option<SkillPassError> {
    if c.authority != c.program_state.authority {
        Some(SkillPassError::Unauthorized)
    } else if c.stake_info.challenged {
        Some(SkillPassError::ChallengePeriodNotEnded)
    } else if !c.endorsement.active {
        Some(SkillPassError::NoRewardsToClaim)
    } else if c.staker_rewards.total_rewards + endorsement_credit(c.endorsement.staked_amount, skill_was_valid)
        > u64::MAX {
        Some(SkillPassError::ArithmeticOverflow)
    } else {
        None
    }
}

/// The records after settling: the credit is added to the endorser's rewards,
/// and the endorsement is closed with nothing staked on it.
pub open spec fn reward_credited(c: CreditStakingReward, skill_was_valid: bool) -> CreditStakingReward {
    CreditStakingReward {
        staker_rewards: StakerRewards {
            user: c.endorsement.endorser,
            total_rewards: (c.staker_rewards.total_rewards + endorsement_credit(
                c.endorsement.staked_amount,
                skill_was_valid,
            )) as u64,
            ..c.staker_rewards
        },
        endorsement: Endorsement { active: false, staked_amount: 0, ..c.endorsement },
        ..c
    }
}

/// Settles one active endorsement of a skill whose challenge has been resolved,
/// as the platform authority, crediting the endorser's rewards.
pub fn credit_staking_reward(ctx: &mut CreditStakingReward, skill_was_valid: bool) -> (r: Result<
    (),
    SkillPassError,
>)
    ensures
        match credit_error(*old(ctx), skill_was_valid) {
            Some(e) => r == Err::<(), SkillPassError>(e) && *final(ctx) == *old(ctx),
            None => r is Ok && *final(ctx) == reward_credited(*old(ctx), skill_was_valid),
        },
{
    if ctx.authority != ctx.program_state.authority {
        return Err(SkillPassError::Unauthorized);
    }
    if ctx.stake_info.challenged {
        return Err(SkillPassError::ChallengePeriodNotEnded);
    }
    if !ctx.endorsement.active {
        return Err(SkillPassError::NoRewardsToClaim);
    }
    let staked = ctx.endorsement.staked_amount;
    let part = if skill_was_valid {
        REWARD_PERCENTAGE
    } else {
        SLASH_PERCENTAGE
    };
    proof {
        assert(staked * part / 100 <= staked) by (nonlinear_arith)
            requires
                part <= 100,
        ;
    }
    let share = (staked as u128 * part as u128 / 100) as u64;
    let credit: u128 = if skill_was_valid {
        staked as u128 + share as u128
    } else {
        (staked - share) as u128
    };
    let room = (u64::MAX - ctx.staker_rewards.total_rewards) as u128;
    if credit > room {
        return Err(SkillPassError::ArithmeticOverflow);
    }
    ctx.staker_rewards.total_rewards = ctx.staker_rewards.total_rewards + credit as u64;
    ctx.staker_rewards.user = ctx.endorsement.endorser;
    ctx.endorsement.active = false;
    ctx.endorsement.staked_amount = 0;
    Ok(())
}

/// Why a reward claim is refused, if it is.
pub open spec fn claim_rewards_error(c: ClaimStakingRewards) -> Option<SkillPassError> {
    if c.staker_rewards.total_rewards == 0 {
        Some(SkillPassError::NoRewardsToClaim)
    } else if c.treasury_token_balance < c.staker_rewards.total_rewards {
        Some(SkillPassError::InsufficientReputationTokens)
    } else if c.treasury.total_distributed + c.staker_rewards.total_rewards > u64::MAX {
        Some(SkillPassError::ArithmeticOverflow)
    } else {
        None
    }
}

/// The records after a reward claim: nothing is owed any more, and the amount
/// paid is added to what the treasury has distributed.
pub open spec fn rewards_claimed(c: ClaimStakingRewards, now: i64) -> ClaimStakingRewards {
    ClaimStakingRewards {
        staker_rewards: StakerRewards { total_rewards: 0, last_claim_time: now, ..c.staker_rewards },
        treasury: Treasury {
            total_distributed: (c.treasury.total_distributed + c.staker_rewards.total_rewards) as u64,
            ..c.treasury
        },
        ..c
    }
}

/// Pays out everything owed to the staker. On success the amount is to move
/// from the treasury to the staker.
pub fn claim_rewards(ctx: &mut ClaimStakingRewards, now: i64) -> (r: Result<LedgerRequest, SkillPassError>)
    ensures
        match claim_rewards_error(*old(ctx)) {
            Some(e) => r == Err::<LedgerRequest, SkillPassError>(e) && *final(ctx) == *old(ctx),
            None => r == Ok::<LedgerRequest, SkillPassError>(
                LedgerRequest::OutOfTreasury { owner: old(ctx).staker, amount: old(ctx).staker_rewards.total_rewards },
            ) && *final(ctx) == rewards_claimed(*old(ctx), now),
        },
{
    let reward = ctx.staker_rewards.total_rewards;
    if reward == 0 {
        return Err(SkillPassError::NoRewardsToClaim);
    }
    if ctx.treasury_token_balance < reward {
        return Err(SkillPassError::InsufficientReputationTokens);
    }
    let distributed = match ctx.treasury.total_distributed.checked_add(reward) {
        Some(v) => v,
        None => return Err(SkillPassError::ArithmeticOverflow),
    };
    ctx.staker_rewards.total_rewards = 0;
    ctx.staker_rewards.last_claim_time = now;
    ctx.treasury.total_distributed = distributed;
    Ok(LedgerRequest::OutOfTreasury { owner: ctx.staker, amount: reward })
}

/// A second reward claim right after a successful one, with nothing credited in
/// between, is refused for want of rewards and so changes nothing.
pub proof fn lemma_second_reward_claim_fails(
    first: ClaimStakingRewards,
    first_now: i64,
    second: ClaimStakingRewards,
)
    requires
        claim_rewards_error(first) is None,
        second.staker_rewards == rewards_claimed(first, first_now).staker_rewards,
    ensures
        claim_rewards_error(second) == Some(SkillPassError::NoRewardsToClaim),
{
}

} // verus!
