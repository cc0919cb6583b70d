use vstd::prelude::*;
use crate::errors::ErrorCode;
use crate::events::TreasuryInitialized;
use crate::pubkey::Pubkey;
use crate::states::TreasuryPool;

verus! {

/// What setting up the ledger anew reads and changes.
#[derive(Clone, Copy, Debug, PartialEq, Eq)]
pub struct ReinitializeTreasuryPool {
    /// The ledger, whatever it held.
    pub treasury_pool: TreasuryPool,
    /// Who sets it up, and administers it from then on.
    pub admin: Pubkey,
}

/// Sets the ledger up anew, whatever it held: every balance and the
/// accumulator start from zero again. This is the one operation after which
/// the accumulator may be lower than before.
pub fn reinitialize_treasury_pool(
    ctx: &mut ReinitializeTreasuryPool,
    _initial_apy: u64,
    dev_wallet: Pubkey,
) -> (r: Result<TreasuryInitialized, ErrorCode>)
    ensures
        r == Ok::<TreasuryInitialized, ErrorCode>(
            TreasuryInitialized {
                admin: old(ctx).admin,
                treasury_wallet: dev_wallet,
                initial_apy: 0,
            },
        ),
        *final(ctx) == (ReinitializeTreasuryPool {
            treasury_pool: TreasuryPool::fresh(old(ctx).admin, dev_wallet),
            admin: old(ctx).admin,
        }),
{
    ctx.treasury_pool = TreasuryPool::new(ctx.admin, dev_wallet);
    Ok(TreasuryInitialized { admin: ctx.admin, treasury_wallet: dev_wallet, initial_apy: 0 })
}

} // verus!
