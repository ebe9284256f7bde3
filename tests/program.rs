use skillpass::errors::SkillPassError;
use skillpass::instructions::staking::ClaimStakingRewards;
use skillpass::ledger::LedgerRequest;
use skillpass::skillpass::{claim_staking_rewards, initialize};
use skillpass::instructions::initialize::Initialize;
use skillpass::state::{ProgramState, Pubkey, StakerRewards, Treasury};

fn key(n: u8) -> Pubkey {
    Pubkey { bytes: [n; 32] }
}

#[test]
fn entry_points_forward_to_handlers() {
    let zero = key(0);
    let state = ProgramState {
        authority: zero,
        total_skills: 0,
        total_investments: 0,
        total_revenue: 0,
        reputation_mint: zero,
        skill_collection_mint: zero,
        treasury: zero,
    };
    let treasury = Treasury { authority: zero, treasury_token_account: zero, total_fees: 0, total_distributed: 0 };
    let mut init = Initialize {
        program_state: state,
        treasury,
        authority: key(1),
        reputation_mint: key(2),
        skill_collection_mint: key(3),
        treasury_address: key(4),
        treasury_token_account: key(5),
    };
    assert_eq!(initialize(&mut init), Ok(()));
    assert_eq!(init.program_state.authority, key(1));

    let mut c = ClaimStakingRewards {
        program_state: init.program_state,
        staker_rewards: StakerRewards { user: key(8), total_rewards: 40, last_claim_time: 0 },
        treasury: init.treasury,
        staker: key(8),
        treasury_token_balance: 40,
    };
    assert_eq!(claim_staking_rewards(&mut c, 3), Ok(LedgerRequest::OutOfTreasury { owner: key(8), amount: 40 }));
    assert_eq!(claim_staking_rewards(&mut c, 4), Err(SkillPassError::NoRewardsToClaim));
    assert_eq!(c.treasury.total_distributed, 40);
}

#[test]
fn keys_compare_by_bytes() {
    let mut a = key(3);
    assert_eq!(a, key(3));
    a.bytes[31] = 4;
    assert_ne!(a, key(3));
}
