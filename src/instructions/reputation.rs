use vstd::prelude::*;
use crate::errors::SkillPassError;
use crate::ledger::LedgerRequest;
use crate::state::{ProgramState, Pubkey, ReputationState, Treasury, MAX_REPUTATION_SUPPLY};

verus! {

/// The records that minting reputation reads and writes.
#[derive(Clone, Copy, Debug, PartialEq, Eq)]
pub struct MintReputationTokens {
    pub program_state: ProgramState,
    /// How many reputation units exist now.
    pub mint_supply: u64,
    /// The receiving user's reputation record.
    pub reputation_state: ReputationState,
    /// The user who receives the units.
    pub user: Pubkey,
    /// The caller.
    pub authority: Pubkey,
}

/// The records that slashing reputation reads and writes.
#[derive(Clone, Copy, Debug, PartialEq, Eq)]
pub struct SlashReputationTokens {
    pub program_state: ProgramState,
    /// What the user's token account holds.
    pub user_token_balance: u64,
    /// The slashed user's reputation record.
    pub reputation_state: ReputationState,
    pub treasury: Treasury,
    /// The user who is slashed.
    pub user: Pubkey,
    /// The caller.
    pub authority: Pubkey,
}

/// Why minting is refused, if it is.
pub open spec fn mint_error(c: MintReputationTokens, amount: u64) -> Option<SkillPassError> {
    if c.authority != c.program_state.authority {
        Some(SkillPassError::Unauthorized)
    } else if amount == 0 {
        Some(SkillPassError::InvalidAmount)
    } else if c.mint_supply + amount > MAX_REPUTATION_SUPPLY {
        Some(SkillPassError::MaxReputationSupplyExceeded)
    } else if c.reputation_state.reputation_score + amount > u64::MAX || c.reputation_state.total_earned
        + amount > u64::MAX {
        Some(SkillPassError::ArithmeticOverflow)
    } else {
        None
    }
}

/// The records after minting: the user's score and earnings grow by the amount.
pub open spec fn minted(c: MintReputationTokens, amount: u64, now: i64) -> MintReputationTokens {
    MintReputationTokens {
        reputation_state: ReputationState {
            user: c.user,
            reputation_score: (c.reputation_state.reputation_score + amount) as u64,
            last_activity: now,
            total_earned: (c.reputation_state.total_earned + amount) as u64,
            ..c.reputation_state
        },
        ..c
    }
}

/// Credits `amount` of reputation to a user, as the platform authority. On
/// success the amount is to be created in the user's token account.
pub fn mint_tokens(ctx: &mut MintReputationTokens, amount: u64, _reason: String, now: i64) -> (r: Result<
    LedgerRequest,
    SkillPassError,
>)
    ensures
        match mint_error(*old(ctx), amount) {
            Some(e) => r == Err::<LedgerRequest, SkillPassError>(e) && *final(ctx) == *old(ctx),
            None => r == Ok::<LedgerRequest, SkillPassError>(
                LedgerRequest::Mint { owner: old(ctx).user, amount },
            ) && *final(ctx) == minted(*old(ctx), amount, now),
        },
{
    if ctx.authority != ctx.program_state.authority {
        return Err(SkillPassError::Unauthorized);
    }
    if amount == 0 {
        return Err(SkillPassError::InvalidAmount);
    }
    if ctx.mint_supply > MAX_REPUTATION_SUPPLY || amount > MAX_REPUTATION_SUPPLY - ctx.mint_supply {
        return Err(SkillPassError::MaxReputationSupplyExceeded);
    }
    let score = match ctx.reputation_state.reputation_score.checked_add(amount) {
        Some(v) => v,
        None => return Err(SkillPassError::ArithmeticOverflow),
    };
    let earned = match ctx.reputation_state.total_earned.checked_add(amount) {
        Some(v) => v,
        None => return Err(SkillPassError::ArithmeticOverflow),
    };
    ctx.reputation_state.user = ctx.user;
    ctx.reputation_state.reputation_score = score;
    ctx.reputation_state.last_activity = now;
    ctx.reputation_state.total_earned = earned;
    Ok(LedgerRequest::Mint { owner: ctx.user, amount })
}

/// Why slashing is refused, if it is.
pub open spec fn slash_error(c: SlashReputationTokens, amount: u64) -> Option<SkillPassError> {
    if c.authority != c.program_state.authority {
        Some(SkillPassError::Unauthorized)
    } else if amount == 0 {
        Some(SkillPassError::InvalidAmount)
    } else if c.user_token_balance < amount {
        Some(SkillPassError::InsufficientReputationTokens)
    } else if c.reputation_state.total_slashed + amount > u64::MAX {
        Some(SkillPassError::ArithmeticOverflow)
    } else {
        None
    }
}

/// The records after slashing: the score drops by the amount but not below
/// zero, and the slashed total grows by the whole amount.
pub open spec fn slashed(c: SlashReputationTokens, amount: u64) -> SlashReputationTokens {
    SlashReputationTokens {
        reputation_state: ReputationState {
            reputation_score: if c.reputation_state.reputation_score >= amount {
                (c.reputation_state.reputation_score - amount) as u64
            } else {
                0
            },
            total_slashed: (c.reputation_state.total_slashed + amount) as u64,
            ..c.reputation_state
        },
        ..c
    }
}

/// Takes `amount` of reputation from a user, as the platform authority. On
/// success the amount is to move from the user into the treasury.
pub fn slash_tokens(ctx: &mut SlashReputationTokens, amount: u64, _reason: String) -> (r: Result<
    LedgerRequest,
    SkillPassError,
>)
    ensures
        match slash_error(*old(ctx), amount) {
            Some(e) => r == Err::<LedgerRequest, SkillPassError>(e) && *final(ctx) == *old(ctx),
            None => r == Ok::<LedgerRequest, SkillPassError>(
                LedgerRequest::IntoTreasury { owner: old(ctx).user, amount },
            ) && *final(ctx) == slashed(*old(ctx), amount),
        },
{
    if ctx.authority != ctx.program_state.authority {
        return Err(SkillPassError::Unauthorized);
    }
    if amount == 0 {
        return Err(SkillPassError::InvalidAmount);
    }
    if ctx.user_token_balance < amount {
        return Err(SkillPassError::InsufficientReputationTokens);
    }
    let total_slashed = match ctx.reputation_state.total_slashed.checked_add(amount) {
        Some(v) => v,
        None => return Err(SkillPassError::ArithmeticOverflow),
    };
    if ctx.reputation_state.reputation_score >= amount {
        ctx.reputation_state.reputation_score = ctx.reputation_state.reputation_score - amount;
    } else {
        ctx.reputation_state.reputation_score = 0;
    }
    ctx.reputation_state.total_slashed = total_slashed;
    Ok(LedgerRequest::IntoTreasury { owner: ctx.user, amount })
}

} // verus!
