use vstd::prelude::*;
use crate::errors::ErrorCode;
use crate::pubkey::Pubkey;
use crate::states::TreasuryPool;

verus! {

/// What giving up the ledger's record reads.
#[derive(Clone, Copy, Debug, PartialEq, Eq)]
pub struct ResetTreasuryPool {
    /// The ledger.
    pub treasury_pool: TreasuryPool,
    /// Who asks.
    pub admin: Pubkey,
}

/// Decides whether the ledger's record may be given up so that it can be set
/// up anew: only its administrator may ask. The caller then releases the
/// record.
pub fn reset_treasury_pool(ctx: &ResetTreasuryPool, _dev_wallet: Pubkey) -> (r: Result<
    (),
    ErrorCode,
>)
    ensures
        ctx.admin == ctx.treasury_pool.admin ==> r is Ok,
        ctx.admin != ctx.treasury_pool.admin ==> r == Err::<(), ErrorCode>(
            ErrorCode::Unauthorized,
        ),
{
    if ctx.admin != ctx.treasury_pool.admin {
        return Err(ErrorCode::Unauthorized);
    }
    Ok(())
}

} // verus!
