use vstd::prelude::*;
use crate::state::Pubkey;

verus! {

/// A movement of reputation units that an accepted operation asks the token
/// ledger to perform. The operation and the movement commit together or not at all.
#[derive(Clone, Copy, Debug, PartialEq, Eq)]
pub enum LedgerRequest {
    /// Move `amount` from `owner`'s token account into the treasury's token account.
    IntoTreasury { owner: Pubkey, amount: u64 },
    /// Move `amount` from the treasury's token account to `owner`'s token account.
    OutOfTreasury { owner: Pubkey, amount: u64 },
    /// Create `amount` new units in `owner`'s token account.
    Mint { owner: Pubkey, amount: u64 },
}

} // verus!
