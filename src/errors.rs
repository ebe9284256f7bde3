use vstd::prelude::*;

verus! {

/// Every way an operation can be refused. A refused operation changes no record
/// and asks the token ledger for nothing.
#[derive(Clone, Copy, Debug, PartialEq, Eq, Structural)]
pub enum SkillPassError {
    InsufficientReputationTokens,
    MaxReputationSupplyExceeded,
    BelowMinimumInvestment,
    BelowMinimumStake,
    CannotInvestInOwnSkill,
    CannotEndorseOwnSkill,
    AlreadyEndorsed,
    NoEndorsementsToChallenge,
    AlreadyChallenged,
    InsufficientReputationToChallenge,
    SkillNotChallenged,
    ChallengePeriodNotEnded,
    NoRewardsToClaim,
    NoInvestmentInSkill,
    NoYieldToClaim,
    SkillDoesNotExist,
    InvalidSkillId,
    Unauthorized,
    InvalidAmount,
    InvalidTimestamp,
    /// A counter or a computed amount does not fit in its integer type.
    ArithmeticOverflow,
}

impl SkillPassError {
    /// The text shown to a caller for this error.
    pub fn message(&self) -> &'static str {
        match self {
            SkillPassError::InsufficientReputationTokens => "Insufficient reputation tokens",
            SkillPassError::MaxReputationSupplyExceeded => "Maximum reputation supply exceeded",
            SkillPassError::BelowMinimumInvestment => "Below minimum investment amount",
            SkillPassError::BelowMinimumStake => "Below minimum stake amount",
            SkillPassError::CannotInvestInOwnSkill => "Cannot invest in own skill",
            SkillPassError::CannotEndorseOwnSkill => "Cannot endorse own skill",
            SkillPassError::AlreadyEndorsed => "Already endorsed this skill",
            SkillPassError::NoEndorsementsToChallenge => "No endorsements to challenge",
            SkillPassError::AlreadyChallenged => "Already challenged",
            SkillPassError::InsufficientReputationToChallenge => "Insufficient reputation to challenge",
            SkillPassError::SkillNotChallenged => "Skill not challenged",
            SkillPassError::ChallengePeriodNotEnded => "Challenge period not ended",
            SkillPassError::NoRewardsToClaim => "No rewards to claim",
            SkillPassError::NoInvestmentInSkill => "No investment in this skill",
            SkillPassError::NoYieldToClaim => "No yield to claim",
            SkillPassError::SkillDoesNotExist => "Skill doesn't exist",
            SkillPassError::InvalidSkillId => "Invalid skill ID",
            SkillPassError::Unauthorized => "Unauthorized operation",
            SkillPassError::InvalidAmount => "Invalid amount",
            SkillPassError::InvalidTimestamp => "Invalid timestamp",
            SkillPassError::ArithmeticOverflow => "Arithmetic overflow",
        }
    }
}

} // verus!
