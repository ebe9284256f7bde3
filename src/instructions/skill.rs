use vstd::prelude::*;
use crate::errors::SkillPassError;
use crate::state::{
    fresh_pool, fresh_stake_info, meets_verification, new_pool, new_stake_info, is_verified_by,
    InvestmentPool, ProgramState, Pubkey, RevenueBreakdown, Skill, StakeInfo,
};

verus! {

/// The records that registering a skill writes.
#[derive(Clone, Debug, PartialEq, Eq)]
pub struct CreateSkill {
    pub program_state: ProgramState,
    /// The token mint that represents the new skill.
    pub skill_mint: Pubkey,
    pub skill: Skill,
    pub investment_pool: InvestmentPool,
    pub revenue_breakdown: RevenueBreakdown,
    pub stake_info: StakeInfo,
    /// The caller, who becomes the skill's owner.
    pub creator: Pubkey,
}

/// The records that a metrics update reads and writes.
#[derive(Clone, Debug, PartialEq, Eq)]
pub struct UpdateSkillMetrics {
    pub program_state: ProgramState,
    pub skill: Skill,
    pub stake_info: StakeInfo,
    /// The caller.
    pub authority: Pubkey,
}

/// Why registering a skill is refused, if it is.
pub open spec fn create_skill_error(
    c: CreateSkill,
    category: Seq<char>,
    name: Seq<char>,
    description: Seq<char>,
    metadata_uri: Seq<char>,
) -> Option<SkillPassError> {
    if category.len() == 0 || name.len() == 0 || description.len() == 0 || metadata_uri.len() == 0 {
        Some(SkillPassError::InvalidAmount)
    } else if c.program_state.total_skills + 1 > u64::MAX {
        Some(SkillPassError::ArithmeticOverflow)
    } else {
        None
    }
}

/// The id that the next registered skill receives.
pub open spec fn next_skill_id(c: CreateSkill) -> u64 {
    (c.program_state.total_skills + 1) as u64
}

/// The records after registering a skill: the skill gets the next id, and its
/// pool, revenue breakdown and stake information start empty.
pub open spec fn skill_created(
    c: CreateSkill,
    category: String,
    name: String,
    description: String,
    metadata_uri: String,
    now: i64,
) -> CreateSkill {
    let id = next_skill_id(c);
    CreateSkill {
        program_state: ProgramState { total_skills: id, ..c.program_state },
        skill: Skill {
            mint: c.skill_mint,
            creator: c.creator,
            category,
            name,
            description,
            metadata_uri,
            created_at: now,
            total_staked: 0,
            endorsement_count: 0,
            verified: false,
            skill_id: id,
        },
        investment_pool: fresh_pool(id, now),
        revenue_breakdown: RevenueBreakdown {
            skill_id: id,
            job_completions: 0,
            platform_fees: 0,
            subscription_fees: 0,
            verification_fees: 0,
        },
        stake_info: fresh_stake_info(id),
        ..c
    }
}

/// Registers a skill owned by the caller and returns its id. The caller's
/// application mints the one token that represents the skill.
pub fn create_skill(
    ctx: &mut CreateSkill,
    category: String,
    name: String,
    description: String,
    metadata_uri: String,
    now: i64,
) -> (r: Result<u64, SkillPassError>)
    ensures
        match create_skill_error(*old(ctx), category@, name@, description@, metadata_uri@) {
            Some(e) => r == Err::<u64, SkillPassError>(e) && *final(ctx) == *old(ctx),
            None => r == Ok::<u64, SkillPassError>(next_skill_id(*old(ctx)))
                && *final(ctx) == skill_created(*old(ctx), category, name, description, metadata_uri, now),
        },
{
    if category.as_str().is_empty() || name.as_str().is_empty() || description.as_str().is_empty()
        || metadata_uri.as_str().is_empty() {
        return Err(SkillPassError::InvalidAmount);
    }
    let skill_id = match ctx.program_state.total_skills.checked_add(1) {
        Some(v) => v,
        None => return Err(SkillPassError::ArithmeticOverflow),
    };
    ctx.skill = Skill {
        mint: ctx.skill_mint,
        creator: ctx.creator,
        category,
        name,
        description,
        metadata_uri,
        created_at: now,
        total_staked: 0,
        endorsement_count: 0,
        verified: false,
        skill_id,
    };
    ctx.investment_pool = new_pool(skill_id, now);
    ctx.revenue_breakdown = RevenueBreakdown {
        skill_id,
        job_completions: 0,
        platform_fees: 0,
        subscription_fees: 0,
        verification_fees: 0,
    };
    ctx.stake_info = new_stake_info(skill_id);
    ctx.program_state.total_skills = skill_id;
    Ok(skill_id)
}

/// Why a metrics update is refused, if it is.
pub open spec fn update_metrics_error(c: UpdateSkillMetrics) -> Option<SkillPassError> {
    if c.authority != c.program_state.authority {
        Some(SkillPassError::Unauthorized)
    } else {
        None
    }
}

/// The records after a metrics update: both metric copies take the given
/// values, the average is recomputed when there are endorsements, and the skill
/// becomes verified when the thresholds are met (it never stops being verified).
pub open spec fn metrics_updated(
    c: UpdateSkillMetrics,
    total_staked: u64,
    endorsement_count: u64,
) -> UpdateSkillMetrics {
    UpdateSkillMetrics {
        skill: Skill {
            total_staked,
            endorsement_count,
            verified: c.skill.verified || meets_verification(total_staked, endorsement_count),
            ..c.skill
        },
        stake_info: StakeInfo {
            total_staked,
            endorsement_count,
            average_stake: if endorsement_count > 0 {
                (total_staked / endorsement_count) as u64
            } else {
                c.stake_info.average_stake
            },
            ..c.stake_info
        },
        ..c
    }
}

/// Sets a skill's stake total and endorsement count, as the platform authority.
pub fn update_metrics(ctx: &mut UpdateSkillMetrics, total_staked: u64, endorsement_count: u64) -> (r:
    Result<(), SkillPassError>)
    ensures
        match update_metrics_error(*old(ctx)) {
            Some(e) => r == Err::<(), SkillPassError>(e) && *final(ctx) == *old(ctx),
            None => r is Ok && *final(ctx) == metrics_updated(*old(ctx), total_staked, endorsement_count),
        },
        old(ctx).skill.verified ==> final(ctx).skill.verified,
{
    if ctx.authority != ctx.program_state.authority {
        return Err(SkillPassError::Unauthorized);
    }
    ctx.skill.total_staked = total_staked;
    ctx.skill.endorsement_count = endorsement_count;
    ctx.stake_info.total_staked = total_staked;
    ctx.stake_info.endorsement_count = endorsement_count;
    if endorsement_count > 0 {
        ctx.stake_info.average_stake = total_staked / endorsement_count;
    }
    if is_verified_by(total_staked, endorsement_count) {
        ctx.skill.verified = true;
    }
    Ok(())
}

} // verus!
