use vstd::prelude::*;
use crate::errors::ErrorCode;
use crate::events::TreasuryInitialized;
use crate::pubkey::Pubkey;
use crate::states::TreasuryPool;

verus! {

/// What setting up the ledger reads and changes.
#[derive(Clone, Copy, Debug, PartialEq, Eq)]
pub struct Initialize {
    /// The ledger to set up.
    pub treasury_pool: TreasuryPool,
    /// Who sets it up, and administers it from then on.
    pub admin: Pubkey,
}

/// Sets up the ledger: nothing deposited, nothing earned, the two fixed fee
/// rates, not paused, administered by whoever asks. The rate that is passed
/// in plays no part.
pub fn initialize(ctx: &mut Initialize, _initial_apy: u64, dev_wallet: Pubkey) -> (r: Result<
    TreasuryInitialized,
    ErrorCode,
>)
    ensures
        r == Ok::<TreasuryInitialized, ErrorCode>(
            TreasuryInitialized {
                admin: old(ctx).admin,
                treasury_wallet: dev_wallet,
                initial_apy: 0,
            },
        ),
        *final(ctx) == (Initialize {
            treasury_pool: TreasuryPool::fresh(old(ctx).admin, dev_wallet),
            admin: old(ctx).admin,
        }),
{
    ctx.treasury_pool = TreasuryPool::new(ctx.admin, dev_wallet);
    Ok(TreasuryInitialized { admin: ctx.admin, treasury_wallet: dev_wallet, initial_apy: 0 })
}

} // verus!
