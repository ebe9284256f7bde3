use vstd::prelude::*;
use crate::errors::SkillPassError;
use crate::state::{ProgramState, Pubkey, Treasury};

verus! {

/// The records that setting up the program writes, and the identities it
/// records.
#[derive(Clone, Copy, Debug, PartialEq, Eq)]
pub struct Initialize {
    pub program_state: ProgramState,
    pub treasury: Treasury,
    /// The caller, who becomes the platform authority.
    pub authority: Pubkey,
    pub reputation_mint: Pubkey,
    pub skill_collection_mint: Pubkey,
    /// The address of the treasury record.
    pub treasury_address: Pubkey,
    pub treasury_token_account: Pubkey,
}

/// The records after setup: every counter is zero and the caller is the
/// authority of the program and of the treasury.
pub open spec fn initialized(c: Initialize) -> Initialize {
    Initialize {
        program_state: ProgramState {
            authority: c.authority,
            total_skills: 0,
            total_investments: 0,
            total_revenue: 0,
            reputation_mint: c.reputation_mint,
            skill_collection_mint: c.skill_collection_mint,
            treasury: c.treasury_address,
        },
        treasury: Treasury {
            authority: c.authority,
            treasury_token_account: c.treasury_token_account,
            total_fees: 0,
            total_distributed: 0,
        },
        ..c
    }
}

/// Sets up the program state and the treasury. It always succeeds.
pub fn handler(ctx: &mut Initialize) -> (r: Result<(), SkillPassError>)
    ensures
        r is Ok,
        *final(ctx) == initialized(*old(ctx)),
{
    ctx.program_state = ProgramState {
        authority: ctx.authority,
        total_skills: 0,
        total_investments: 0,
        total_revenue: 0,
        reputation_mint: ctx.reputation_mint,
        skill_collection_mint: ctx.skill_collection_mint,
        treasury: ctx.treasury_address,
    };
    ctx.treasury = Treasury {
        authority: ctx.authority,
        treasury_token_account: ctx.treasury_token_account,
        total_fees: 0,
        total_distributed: 0,
    };
    Ok(())
}

} // verus!
