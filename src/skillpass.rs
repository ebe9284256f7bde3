use vstd::prelude::*;
use crate::errors::SkillPassError;
use crate::instructions::initialize::{self, initialized, Initialize};
use crate::instructions::investment::{
    self, claim_yield_error, invest_error, invested, job_recorded, record_job_error, yield_claimed,
    yield_due, ClaimYield, InvestInSkill, RecordJobCompletion,
};
use crate::instructions::reputation::{
    self, mint_error, minted, slash_error, slashed, MintReputationTokens, SlashReputationTokens,
};
use crate::instructions::skill::{
    self, create_skill_error, metrics_updated, next_skill_id, skill_created, update_metrics_error,
    CreateSkill, UpdateSkillMetrics,
};
use crate::instructions::staking::{
    self, challenge_error, challenge_opened, claim_rewards_error, credit_error, endorse_error, endorsed,
    resolve_error, resolved, reward_credited, rewards_claimed, ChallengeSkill, ClaimStakingRewards,
    CreditStakingReward, EndorseSkill, ResolveChallenge,
};
use crate::ledger::LedgerRequest;

verus! {

/// Sets up the program state and the treasury.
pub fn initialize(ctx: &mut Initialize) -> (r: Result<(), SkillPassError>)
    ensures
        r is Ok,
        *final(ctx) == initialized(*old(ctx)),
{
    initialize::handler(ctx)
}

/// Credits reputation to a user, as the platform authority.
pub fn mint_reputation_tokens(ctx: &mut MintReputationTokens, amount: u64, reason: String, now: i64) -> (r:
    Result<LedgerRequest, SkillPassError>)
    ensures
        match mint_error(*old(ctx), amount) {
            Some(e) => r == Err::<LedgerRequest, SkillPassError>(e) && *final(ctx) == *old(ctx),
            None => r == Ok::<LedgerRequest, SkillPassError>(
                LedgerRequest::Mint { owner: old(ctx).user, amount },
            ) && *final(ctx) == minted(*old(ctx), amount, now),
        },
{
    reputation::mint_tokens(ctx, amount, reason, now)
}

/// Takes reputation from a user, as the platform authority.
pub fn slash_reputation_tokens(ctx: &mut SlashReputationTokens, amount: u64, reason: String) -> (r: Result<
    LedgerRequest,
    SkillPassError,
>)
    ensures
        match slash_error(*old(ctx), amount) {
            Some(e) => r == Err::<LedgerRequest, SkillPassError>(e) && *final(ctx) == *old(ctx),
            None => r == Ok::<LedgerRequest, SkillPassError>(
                LedgerRequest::IntoTreasury { owner: old(ctx).user, amount },
            ) && *final(ctx) == slashed(*old(ctx), amount),
        },
{
    reputation::slash_tokens(ctx, amount, reason)
}

/// Registers a skill owned by the caller and returns its id.
pub fn create_skill(
    ctx: &mut CreateSkill,
    category: String,
    name: String,
    description: String,
    metadata_uri: String,
    now: i64,
) -> (r: Result<u64, SkillPassError>)
    ensures
        match create_skill_error(*old(ctx), category@, name@, description@, metadata_uri@) {
            Some(e) => r == Err::<u64, SkillPassError>(e) && *final(ctx) == *old(ctx),
            None => r == Ok::<u64, SkillPassError>(next_skill_id(*old(ctx)))
                && *final(ctx) == skill_created(*old(ctx), category, name, description, metadata_uri, now),
        },
{
    skill::create_skill(ctx, category, name, description, metadata_uri, now)
}

/// Sets a skill's stake total and endorsement count, as the platform authority.
pub fn update_skill_metrics(ctx: &mut UpdateSkillMetrics, total_staked: u64, endorsement_count: u64) -> (r:
    Result<(), SkillPassError>)
    ensures
        match update_metrics_error(*old(ctx)) {
            Some(e) => r == Err::<(), SkillPassError>(e) && *final(ctx) == *old(ctx),
            None => r is Ok && *final(ctx) == metrics_updated(*old(ctx), total_staked, endorsement_count),
        },
{
    skill::update_metrics(ctx, total_staked, endorsement_count)
}

/// Puts units into a skill's pool.
pub fn invest_in_skill(ctx: &mut InvestInSkill, skill_id: u64, amount: u64, now: i64) -> (r: Result<
    LedgerRequest,
    SkillPassError,
>)
    ensures
        match invest_error(*old(ctx), skill_id, amount, now) {
            Some(e) => r == Err::<LedgerRequest, SkillPassError>(e) && *final(ctx) == *old(ctx),
            None => r == Ok::<LedgerRequest, SkillPassError>(
                LedgerRequest::IntoTreasury { owner: old(ctx).investor, amount },
            ) && *final(ctx) == invested(*old(ctx), skill_id, amount, now),
        },
{
    investment::invest_in_skill(ctx, skill_id, amount, now)
}

/// Records the revenue of a completed job, as the platform authority.
pub fn record_job_completion(ctx: &mut RecordJobCompletion, skill_id: u64, job_revenue: u64, job_title: String) -> (r:
    Result<(), SkillPassError>)
    ensures
        match record_job_error(*old(ctx), skill_id, job_revenue, job_title@) {
            Some(e) => r == Err::<(), SkillPassError>(e) && *final(ctx) == *old(ctx),
            None => r is Ok && *final(ctx) == job_recorded(*old(ctx), skill_id, job_revenue),
        },
{
    investment::record_job_completion(ctx, skill_id, job_revenue, job_title)
}

/// Pays the investor's yield for every whole month since the last claim.
pub fn claim_yield(ctx: &mut ClaimYield, skill_id: u64, now: i64) -> (r: Result<LedgerRequest, SkillPassError>)
    requires
        old(ctx).position_within_pool(),
    ensures
        match claim_yield_error(*old(ctx), skill_id, now) {
            Some(e) => r == Err::<LedgerRequest, SkillPassError>(e) && *final(ctx) == *old(ctx),
            None => r == Ok::<LedgerRequest, SkillPassError>(
                LedgerRequest::OutOfTreasury { owner: old(ctx).investor, amount: yield_due(*old(ctx), now) as u64 },
            ) && *final(ctx) == yield_claimed(*old(ctx), now),
        },
{
    investment::claim_yield(ctx, skill_id, now)
}

/// Stakes units on a skill of someone else.
pub fn endorse_skill(ctx: &mut EndorseSkill, skill_id: u64, stake_amount: u64, evidence: String, now: i64) -> (r:
    Result<LedgerRequest, SkillPassError>)
    ensures
        match endorse_error(*old(ctx), skill_id, stake_amount, evidence@) {
            Some(e) => r == Err::<LedgerRequest, SkillPassError>(e) && *final(ctx) == *old(ctx),
            None => r == Ok::<LedgerRequest, SkillPassError>(
                LedgerRequest::IntoTreasury { owner: old(ctx).endorser, amount: stake_amount },
            ) && *final(ctx) == endorsed(*old(ctx), skill_id, stake_amount, evidence, now),
        },
{
    staking::endorse_skill(ctx, skill_id, stake_amount, evidence, now)
}

/// Disputes a skill that has stake on it.
pub fn challenge_skill(ctx: &mut ChallengeSkill, skill_id: u64, now: i64) -> (r: Result<(), SkillPassError>)
    ensures
        match challenge_error(*old(ctx), now) {
            Some(e) => r == Err::<(), SkillPassError>(e) && *final(ctx) == *old(ctx),
            None => r is Ok && *final(ctx) == challenge_opened(*old(ctx), now),
        },
{
    staking::challenge_skill(ctx, skill_id, now)
}

/// Ends a challenge once its period is over, as the platform authority.
pub fn resolve_challenge(ctx: &mut ResolveChallenge, skill_id: u64, skill_is_valid: bool, now: i64) -> (r: Result<
    (),
    SkillPassError,
>)
    ensures
        match resolve_error(*old(ctx), skill_is_valid, now) {
            Some(e) => r == Err::<(), SkillPassError>(e) && *final(ctx) == *old(ctx),
            None => r is Ok && *final(ctx) == resolved(*old(ctx), skill_is_valid),
        },
{
    staking::resolve_challenge(ctx, skill_id, skill_is_valid, now)
}

/// Settles one endorsement after a resolution, as the platform authority.
pub fn credit_staking_reward(ctx: &mut CreditStakingReward, skill_was_valid: bool) -> (r: Result<
    (),
    SkillPassError,
>)
    ensures
        match credit_error(*old(ctx), skill_was_valid) {
            Some(e) => r == Err::<(), SkillPassError>(e) && *final(ctx) == *old(ctx),
            None => r is Ok && *final(ctx) == reward_credited(*old(ctx), skill_was_valid),
        },
{
    staking::credit_staking_reward(ctx, skill_was_valid)
}

/// Pays out everything owed to the staker.
pub fn claim_staking_rewards(ctx: &mut ClaimStakingRewards, now: i64) -> (r: Result<LedgerRequest, SkillPassError>)
    ensures
        match claim_rewards_error(*old(ctx)) {
            Some(e) => r == Err::<LedgerRequest, SkillPassError>(e) && *final(ctx) == *old(ctx),
            None => r == Ok::<LedgerRequest, SkillPassError>(
                LedgerRequest::OutOfTreasury { owner: old(ctx).staker, amount: old(ctx).staker_rewards.total_rewards },
            ) && *final(ctx) == rewards_claimed(*old(ctx), now),
        },
{
    staking::claim_rewards(ctx, now)
}

} // verus!
