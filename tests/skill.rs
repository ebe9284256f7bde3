use skillpass::errors::SkillPassError;
use skillpass::instructions::skill::{create_skill, update_metrics, CreateSkill, UpdateSkillMetrics};
use skillpass::state::{
    InvestmentPool, ProgramState, Pubkey, RevenueBreakdown, Skill, StakeInfo, VERIFICATION_MIN_STAKE,
};

fn key(n: u8) -> Pubkey {
    Pubkey { bytes: [n; 32] }
}

fn program_state(total_skills: u64) -> ProgramState {
    ProgramState {
        authority: key(1),
        total_skills,
        total_investments: 0,
        total_revenue: 0,
        reputation_mint: key(2),
        skill_collection_mint: key(3),
        treasury: key(4),
    }
}

fn blank_skill() -> Skill {
    Skill {
        mint: key(0),
        creator: key(0),
        category: String::new(),
        name: String::new(),
        description: String::new(),
        metadata_uri: String::new(),
        created_at: 0,
        total_staked: 0,
        endorsement_count: 0,
        verified: false,
        skill_id: 0,
    }
}

fn blank_stake_info() -> StakeInfo {
    StakeInfo { skill_id: 0, total_staked: 0, endorsement_count: 0, average_stake: 0, challenged: false, challenge_end_time: 0 }
}

fn create_ctx(total_skills: u64) -> CreateSkill {
    CreateSkill {
        program_state: program_state(total_skills),
        skill_mint: key(20),
        skill: blank_skill(),
        investment_pool: InvestmentPool {
            skill_id: 0,
            total_invested: 0,
            monthly_revenue: 0,
            total_revenue_earned: 0,
            last_distribution: 0,
            investor_count: 0,
            skill_owner_earnings: 0,
            current_apy: 0,
        },
        revenue_breakdown: RevenueBreakdown {
            skill_id: 0,
            job_completions: 0,
            platform_fees: 0,
            subscription_fees: 0,
            verification_fees: 0,
        },
        stake_info: blank_stake_info(),
        creator: key(7),
    }
}

fn metrics_ctx() -> UpdateSkillMetrics {
    UpdateSkillMetrics {
        program_state: program_state(1),
        skill: Skill { skill_id: 1, ..blank_skill() },
        stake_info: StakeInfo { skill_id: 1, average_stake: 9, ..blank_stake_info() },
        authority: key(1),
    }
}

fn s(x: &str) -> String {
    x.to_string()
}

#[test]
fn create_skill_assigns_next_id_and_sets_up_records() {
    let mut c = create_ctx(4);
    let r = create_skill(&mut c, s("dev"), s("rust"), s("systems work"), s("ipfs://x"), 1_700);
    assert_eq!(r, Ok(5));
    assert_eq!(c.program_state.total_skills, 5);
    assert_eq!(c.skill.skill_id, 5);
    assert_eq!(c.skill.creator, key(7));
    assert_eq!(c.skill.mint, key(20));
    assert_eq!(c.skill.name, "rust");
    assert_eq!(c.skill.category, "dev");
    assert_eq!(c.skill.description, "systems work");
    assert_eq!(c.skill.metadata_uri, "ipfs://x");
    assert_eq!(c.skill.created_at, 1_700);
    assert!(!c.skill.verified);
    assert_eq!(c.investment_pool.skill_id, 5);
    assert_eq!(c.investment_pool.last_distribution, 1_700);
    assert_eq!(c.investment_pool.total_invested, 0);
    assert_eq!(c.revenue_breakdown.skill_id, 5);
    assert_eq!(c.stake_info, StakeInfo { skill_id: 5, ..blank_stake_info() });
}

#[test]
fn create_skill_ids_are_sequential() {
    let mut state = program_state(0);
    for expected in 1..=3u64 {
        let mut c = create_ctx(0);
        c.program_state = state;
        assert_eq!(create_skill(&mut c, s("a"), s("b"), s("c"), s("d"), 0), Ok(expected));
        state = c.program_state;
    }
    assert_eq!(state.total_skills, 3);
}

#[test]
fn create_skill_rejects_empty_text() {
    let mut c = create_ctx(0);
    let before = c.clone();
    assert_eq!(create_skill(&mut c, s(""), s("b"), s("c"), s("d"), 0), Err(SkillPassError::InvalidAmount));
    assert_eq!(create_skill(&mut c, s("a"), s(""), s("c"), s("d"), 0), Err(SkillPassError::InvalidAmount));
    assert_eq!(create_skill(&mut c, s("a"), s("b"), s(""), s("d"), 0), Err(SkillPassError::InvalidAmount));
    assert_eq!(create_skill(&mut c, s("a"), s("b"), s("c"), s(""), 0), Err(SkillPassError::InvalidAmount));
    assert_eq!(c, before);
}

#[test]
fn create_skill_id_overflow_fails() {
    let mut c = create_ctx(u64::MAX);
    assert_eq!(create_skill(&mut c, s("a"), s("b"), s("c"), s("d"), 0), Err(SkillPassError::ArithmeticOverflow));
}

#[test]
fn update_metrics_sets_both_copies_and_verifies() {
    let mut c = metrics_ctx();
    assert_eq!(update_metrics(&mut c, VERIFICATION_MIN_STAKE, 5), Ok(()));
    assert_eq!(c.skill.total_staked, VERIFICATION_MIN_STAKE);
    assert_eq!(c.skill.endorsement_count, 5);
    assert_eq!(c.stake_info.total_staked, VERIFICATION_MIN_STAKE);
    assert_eq!(c.stake_info.endorsement_count, 5);
    assert_eq!(c.stake_info.average_stake, VERIFICATION_MIN_STAKE / 5);
    assert!(c.skill.verified);
    // verification is never withdrawn
    assert_eq!(update_metrics(&mut c, 0, 0), Ok(()));
    assert!(c.skill.verified);
    assert_eq!(c.stake_info.average_stake, VERIFICATION_MIN_STAKE / 5);
}

#[test]
fn update_metrics_below_thresholds_does_not_verify() {
    let mut c = metrics_ctx();
    assert_eq!(update_metrics(&mut c, VERIFICATION_MIN_STAKE, 4), Ok(()));
    assert!(!c.skill.verified);
    let mut c = metrics_ctx();
    assert_eq!(update_metrics(&mut c, VERIFICATION_MIN_STAKE - 1, 50), Ok(()));
    assert!(!c.skill.verified);
}

#[test]
fn update_metrics_by_stranger_fails() {
    let mut c = metrics_ctx();
    c.authority = key(8);
    let before = c.clone();
    assert_eq!(update_metrics(&mut c, 1, 1), Err(SkillPassError::Unauthorized));
    assert_eq!(c, before);
}

#[test]
fn error_messages() {
    assert_eq!(SkillPassError::NoYieldToClaim.message(), "No yield to claim");
    assert_eq!(SkillPassError::CannotInvestInOwnSkill.message(), "Cannot invest in own skill");
}
