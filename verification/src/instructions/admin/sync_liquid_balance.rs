use vstd::prelude::*;
use crate::errors::ErrorCode;
use crate::pubkey::Pubkey;
use crate::states::{CustodyAccount, TreasuryPool};

verus! {

/// What reconciling the liquid balance reads and changes.
#[derive(Clone, Copy, Debug, PartialEq, Eq)]
pub struct SyncLiquidBalance {
    /// The ledger.
    pub treasury_pool: TreasuryPool,
    /// The principal custody account, as observed.
    pub treasury_pda: CustodyAccount,
    /// Who asks.
    pub admin: Pubkey,
}

impl SyncLiquidBalance {
    /// The error with which a reconciliation is refused, if it is.
    pub open spec fn sync_rejection(self, rent_exemption: u64) -> Option<ErrorCode> {
        if self.admin != self.treasury_pool.admin {
            Some(ErrorCode::Unauthorized)
        } else if self.treasury_pool.emergency_pause {
            Some(ErrorCode::ProgramPaused)
        } else if self.treasury_pda.lamports < rent_exemption {
            Some(ErrorCode::CalculationOverflow)
        } else {
            None
        }
    }
}

/// Sets the liquid balance to what the principal custody account holds
/// beyond `rent_exemption`, the reserve that it must keep. Whatever the
/// ledger tracked before is overwritten, so the liquid balance never exceeds
/// what the account holds.
pub fn sync_liquid_balance(ctx: &mut SyncLiquidBalance, rent_exemption: u64) -> (r: Result<
    (),
    ErrorCode,
>)
    ensures
        match r {
            Ok(_) => {
                &&& old(ctx).sync_rejection(rent_exemption) is None
                &&& *final(ctx) == (SyncLiquidBalance {
                    treasury_pool: TreasuryPool {
                        liquid_balance: (old(ctx).treasury_pda.lamports - rent_exemption) as u64,
                        ..old(ctx).treasury_pool
                    },
                    ..*old(ctx)
                })
                &&& final(ctx).treasury_pool.liquid_balance <= final(ctx).treasury_pda.lamports
            },
            Err(e) => old(ctx).sync_rejection(rent_exemption) == Some(e) && *final(ctx) == *old(ctx),
        },
{
    if ctx.admin != ctx.treasury_pool.admin {
        return Err(ErrorCode::Unauthorized);
    }
    if ctx.treasury_pool.emergency_pause {
        return Err(ErrorCode::ProgramPaused);
    }
    let available = match ctx.treasury_pda.lamports.checked_sub(rent_exemption) {
        Some(v) => v,
        None => { return Err(ErrorCode::CalculationOverflow); },
    };
    ctx.treasury_pool.liquid_balance = available;
    Ok(())
}

} // verus!
