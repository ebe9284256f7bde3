use skillpass::errors::SkillPassError;
use skillpass::instructions::initialize::{handler, Initialize};
use skillpass::instructions::reputation::{mint_tokens, slash_tokens, MintReputationTokens, SlashReputationTokens};
use skillpass::ledger::LedgerRequest;
use skillpass::state::{ProgramState, Pubkey, ReputationState, Treasury, MAX_REPUTATION_SUPPLY};

fn key(n: u8) -> Pubkey {
    Pubkey { bytes: [n; 32] }
}

fn program_state() -> ProgramState {
    ProgramState {
        authority: key(1),
        total_skills: 0,
        total_investments: 0,
        total_revenue: 0,
        reputation_mint: key(2),
        skill_collection_mint: key(3),
        treasury: key(4),
    }
}

fn record(user: Pubkey, score: u64) -> ReputationState {
    ReputationState { user, reputation_score: score, last_activity: 0, total_earned: score, total_slashed: 0 }
}

fn mint_ctx(supply: u64) -> MintReputationTokens {
    MintReputationTokens {
        program_state: program_state(),
        mint_supply: supply,
        reputation_state: record(key(0), 0),
        user: key(8),
        authority: key(1),
    }
}

fn slash_ctx(score: u64, balance: u64) -> SlashReputationTokens {
    SlashReputationTokens {
        program_state: program_state(),
        user_token_balance: balance,
        reputation_state: record(key(8), score),
        treasury: Treasury { authority: key(1), treasury_token_account: key(5), total_fees: 0, total_distributed: 0 },
        user: key(8),
        authority: key(1),
    }
}

#[test]
fn initialize_sets_up_zero_counters() {
    let zero = key(0);
    let mut c = Initialize {
        program_state: ProgramState { total_skills: 5, ..program_state() },
        treasury: Treasury { authority: zero, treasury_token_account: zero, total_fees: 9, total_distributed: 9 },
        authority: key(11),
        reputation_mint: key(12),
        skill_collection_mint: key(13),
        treasury_address: key(14),
        treasury_token_account: key(15),
    };
    assert_eq!(handler(&mut c), Ok(()));
    assert_eq!(
        c.program_state,
        ProgramState {
            authority: key(11),
            total_skills: 0,
            total_investments: 0,
            total_revenue: 0,
            reputation_mint: key(12),
            skill_collection_mint: key(13),
            treasury: key(14),
        }
    );
    assert_eq!(
        c.treasury,
        Treasury { authority: key(11), treasury_token_account: key(15), total_fees: 0, total_distributed: 0 }
    );
}

#[test]
fn mint_credits_score_and_earnings() {
    let mut c = mint_ctx(0);
    let r = mint_tokens(&mut c, 5_000, "onboarding".to_string(), 123);
    assert_eq!(r, Ok(LedgerRequest::Mint { owner: key(8), amount: 5_000 }));
    assert_eq!(c.reputation_state, ReputationState { user: key(8), reputation_score: 5_000, last_activity: 123, total_earned: 5_000, total_slashed: 0 });
}

#[test]
fn mint_up_to_cap_and_beyond() {
    let mut c = mint_ctx(MAX_REPUTATION_SUPPLY - 10);
    assert!(mint_tokens(&mut c, 10, "r".to_string(), 0).is_ok());
    let mut c = mint_ctx(MAX_REPUTATION_SUPPLY - 10);
    let before = c;
    assert_eq!(mint_tokens(&mut c, 11, "r".to_string(), 0), Err(SkillPassError::MaxReputationSupplyExceeded));
    assert_eq!(c, before);
    let mut c = mint_ctx(u64::MAX);
    assert_eq!(mint_tokens(&mut c, 1, "r".to_string(), 0), Err(SkillPassError::MaxReputationSupplyExceeded));
}

#[test]
fn mint_errors() {
    let mut c = mint_ctx(0);
    assert_eq!(mint_tokens(&mut c, 0, "r".to_string(), 0), Err(SkillPassError::InvalidAmount));
    c.authority = key(9);
    assert_eq!(mint_tokens(&mut c, 1, "r".to_string(), 0), Err(SkillPassError::Unauthorized));
    let mut c = mint_ctx(0);
    c.reputation_state.total_earned = u64::MAX;
    assert_eq!(mint_tokens(&mut c, 1, "r".to_string(), 0), Err(SkillPassError::ArithmeticOverflow));
}

#[test]
fn slash_reduces_score() {
    let mut c = slash_ctx(1_000, 5_000);
    let r = slash_tokens(&mut c, 300, "spam".to_string());
    assert_eq!(r, Ok(LedgerRequest::IntoTreasury { owner: key(8), amount: 300 }));
    assert_eq!(c.reputation_state.reputation_score, 700);
    assert_eq!(c.reputation_state.total_slashed, 300);
}

#[test]
fn slash_floors_score_at_zero() {
    let mut c = slash_ctx(100, 5_000);
    assert!(slash_tokens(&mut c, 300, "spam".to_string()).is_ok());
    assert_eq!(c.reputation_state.reputation_score, 0);
    assert_eq!(c.reputation_state.total_slashed, 300);
}

#[test]
fn slash_errors() {
    let mut c = slash_ctx(1_000, 299);
    let before = c;
    assert_eq!(slash_tokens(&mut c, 300, "r".to_string()), Err(SkillPassError::InsufficientReputationTokens));
    assert_eq!(slash_tokens(&mut c, 0, "r".to_string()), Err(SkillPassError::InvalidAmount));
    assert_eq!(c, before);
    c.authority = key(8);
    assert_eq!(slash_tokens(&mut c, 1, "r".to_string()), Err(SkillPassError::Unauthorized));
    let mut c = slash_ctx(1_000, 5_000);
    c.reputation_state.total_slashed = u64::MAX;
    assert_eq!(slash_tokens(&mut c, 1, "r".to_string()), Err(SkillPassError::ArithmeticOverflow));
}
