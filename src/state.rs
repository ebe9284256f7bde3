use vstd::prelude::*;

verus! {

/// Largest total number of reputation base units that may ever exist.
pub const MAX_REPUTATION_SUPPLY: u64 = 100_000_000_000_000;
/// Smallest accepted investment, in reputation base units.
pub const MIN_INVESTMENT: u64 = 50_000_000_000;
/// Smallest accepted endorsement stake, in reputation base units.
pub const MIN_STAKE: u64 = 10_000_000_000;
/// Length of a challenge window, in seconds (seven days).
pub const CHALLENGE_PERIOD: i64 = 7 * 24 * 60 * 60;
/// Length of one yield period, in seconds (thirty days).
pub const YIELD_PERIOD: i64 = 30 * 24 * 60 * 60;
/// Reputation score a challenger needs.
pub const CHALLENGE_MIN_REPUTATION: u64 = 1_000_000_000_000;
/// Total stake at which a skill becomes verified (together with the endorsement count).
pub const VERIFICATION_MIN_STAKE: u64 = 1_000_000_000_000;
/// Number of endorsements at which a skill becomes verified (together with the stake).
pub const VERIFICATION_MIN_ENDORSEMENTS: u64 = 5;
/// One whole, in basis points.
pub const BASIS_POINTS: u64 = 10000;
/// Investors' part of the fee on a job, in basis points.
pub const INVESTOR_SHARE: u64 = 7000;
/// Skill owner's part of the fee on a job, in basis points.
pub const SKILL_OWNER_SHARE: u64 = 2000;
/// Platform's part of the fee on a job, in basis points.
pub const PLATFORM_SHARE: u64 = 1000;
/// Part of a job's revenue taken as the fee that is split, in basis points.
pub const JOB_COMPLETION_FEE: u64 = 1000;
/// Percent of the stake moved to fees when a challenged skill is found invalid.
pub const SLASH_PERCENTAGE: u64 = 50;
/// Percent of the stake reserved as reward when a challenged skill is found valid.
pub const REWARD_PERCENTAGE: u64 = 10;

/// The 32-byte identity of an account or a user.
#[derive(Clone, Copy, Debug, Eq)]
pub struct Pubkey {
    pub bytes: [u8; 32],
}

impl PartialEq for Pubkey {
    fn eq(&self, other: &Pubkey) -> (r: bool)
        ensures
            r == (*self == *other),
    {
        let mut i: usize = 0;
        while i < 32
            invariant
                0 <= i <= 32,
                forall|j: int| 0 <= j < i ==> self.bytes@[j] == other.bytes@[j],
            decreases 32 - i,
        {
            if self.bytes[i] != other.bytes[i] {
                return false;
            }
            i = i + 1;
        }
        proof {
            broadcast use vstd::array::axiom_array_ext_equal, vstd::array::lemma_array_index;

            assert(self.bytes =~= other.bytes);
        }
        true
    }
}

impl vstd::std_specs::cmp::PartialEqSpecImpl for Pubkey {
    open spec fn obeys_eq_spec() -> bool {
        true
    }

    open spec fn eq_spec(&self, other: &Pubkey) -> bool {
        *self == *other
    }
}

/// Global counters and the identities the program was set up with.
#[derive(Clone, Copy, Debug, PartialEq, Eq)]
pub struct ProgramState {
    pub authority: Pubkey,
    pub total_skills: u64,
    pub total_investments: u64,
    pub total_revenue: u64,
    pub reputation_mint: Pubkey,
    pub skill_collection_mint: Pubkey,
    pub treasury: Pubkey,
}

/// A user's reputation history.
#[derive(Clone, Copy, Debug, PartialEq, Eq)]
pub struct ReputationState {
    pub user: Pubkey,
    pub reputation_score: u64,
    pub last_activity: i64,
    pub total_earned: u64,
    pub total_slashed: u64,
}

/// A registered skill: its identity and its metrics.
#[derive(Clone, Debug, PartialEq, Eq)]
pub struct Skill {
    pub mint: Pubkey,
    pub creator: Pubkey,
    pub category: String,
    pub name: String,
    pub description: String,
    pub metadata_uri: String,
    pub created_at: i64,
    pub total_staked: u64,
    pub endorsement_count: u64,
    pub verified: bool,
    pub skill_id: u64,
}

/// The revenue pool of one skill. A pool whose `skill_id` is zero was never set up.
#[derive(Clone, Copy, Debug, PartialEq, Eq)]
pub struct InvestmentPool {
    pub skill_id: u64,
    pub total_invested: u64,
    pub monthly_revenue: u64,
    pub total_revenue_earned: u64,
    pub last_distribution: i64,
    pub investor_count: u64,
    pub skill_owner_earnings: u64,
    pub current_apy: u64,
}

/// One investor's position in one skill's pool.
#[derive(Clone, Copy, Debug, PartialEq, Eq)]
pub struct Investment {
    pub investor: Pubkey,
    pub skill_id: u64,
    pub amount: u64,
    pub last_claim_time: i64,
    pub total_claimed: u64,
}

/// Cumulative revenue of one skill, by source.
#[derive(Clone, Copy, Debug, PartialEq, Eq)]
pub struct RevenueBreakdown {
    pub skill_id: u64,
    pub job_completions: u64,
    pub platform_fees: u64,
    pub subscription_fees: u64,
    pub verification_fees: u64,
}

/// One endorser's stake on one skill.
#[derive(Clone, Debug, PartialEq, Eq)]
pub struct Endorsement {
    pub endorser: Pubkey,
    pub staked_amount: u64,
    pub timestamp: i64,
    pub active: bool,
    pub evidence: String,
}

/// The stakes on one skill and its challenge state. A record whose `skill_id`
/// is zero was never set up.
#[derive(Clone, Copy, Debug, PartialEq, Eq)]
pub struct StakeInfo {
    pub skill_id: u64,
    pub total_staked: u64,
    pub endorsement_count: u64,
    pub average_stake: u64,
    pub challenged: bool,
    pub challenge_end_time: i64,
}

/// Rewards owed to one staker.
#[derive(Clone, Copy, Debug, PartialEq, Eq)]
pub struct StakerRewards {
    pub user: Pubkey,
    pub total_rewards: u64,
    pub last_claim_time: i64,
}

/// Platform fee and payout counters.
#[derive(Clone, Copy, Debug, PartialEq, Eq)]
pub struct Treasury {
    pub authority: Pubkey,
    pub treasury_token_account: Pubkey,
    pub total_fees: u64,
    pub total_distributed: u64,
}

/// A pool set up for `skill_id` at time `now`, with nothing in it.
pub open spec fn fresh_pool(skill_id: u64, now: i64) -> InvestmentPool {
    InvestmentPool {
        skill_id,
        total_invested: 0,
        monthly_revenue: 0,
        total_revenue_earned: 0,
        last_distribution: now,
        investor_count: 0,
        skill_owner_earnings: 0,
        current_apy: 0,
    }
}

/// Stake information set up for `skill_id`, with no stake and no challenge.
pub open spec fn fresh_stake_info(skill_id: u64) -> StakeInfo {
    StakeInfo {
        skill_id,
        total_staked: 0,
        endorsement_count: 0,
        average_stake: 0,
        challenged: false,
        challenge_end_time: 0,
    }
}

/// Whether a skill with this much stake and this many endorsements is verified.
pub open spec fn meets_verification(total_staked: u64, endorsement_count: u64) -> bool {
    total_staked >= VERIFICATION_MIN_STAKE && endorsement_count >= VERIFICATION_MIN_ENDORSEMENTS
}

pub fn new_pool(skill_id: u64, now: i64) -> (r: InvestmentPool)
    ensures
        r == fresh_pool(skill_id, now),
{
    InvestmentPool {
        skill_id,
        total_invested: 0,
        monthly_revenue: 0,
        total_revenue_earned: 0,
        last_distribution: now,
        investor_count: 0,
        skill_owner_earnings: 0,
        current_apy: 0,
    }
}

pub fn new_stake_info(skill_id: u64) -> (r: StakeInfo)
    ensures
        r == fresh_stake_info(skill_id),
{
    StakeInfo {
        skill_id,
        total_staked: 0,
        endorsement_count: 0,
        average_stake: 0,
        challenged: false,
        challenge_end_time: 0,
    }
}

pub fn is_verified_by(total_staked: u64, endorsement_count: u64) -> (r: bool)
    ensures
        r == meets_verification(total_staked, endorsement_count),
{
    total_staked >= VERIFICATION_MIN_STAKE && endorsement_count >= VERIFICATION_MIN_ENDORSEMENTS
}

} // verus!
