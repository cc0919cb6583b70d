use vstd::prelude::*;
use crate::errors::ErrorCode;
use crate::events::ApyUpdated;
use crate::pubkey::Pubkey;
use crate::states::TreasuryPool;

verus! {

/// What a rate update reads.
#[derive(Clone, Copy, Debug, PartialEq, Eq)]
pub struct UpdateApy {
    /// The ledger.
    pub treasury_pool: TreasuryPool,
    /// Who asks.
    pub admin: Pubkey,
}

impl UpdateApy {
    /// The error with which a rate update is refused, if it is.
    pub open spec fn update_rejection(self) -> Option<ErrorCode> {
        if self.treasury_pool.emergency_pause {
            Some(ErrorCode::ProgramPaused)
        } else if self.admin != self.treasury_pool.admin {
            Some(ErrorCode::Unauthorized)
        } else {
            None
        }
    }
}

/// Accepts a rate update from the administrator. Rates are fixed, so the
/// ledger stays as it was and the event reports a rate of zero before and
/// after.
pub fn update_apy(ctx: &mut UpdateApy, _new_apy: u64, now: i64) -> (r: Result<
    ApyUpdated,
    ErrorCode,
>)
    ensures
        *final(ctx) == *old(ctx),
        match r {
            Ok(updated) => old(ctx).update_rejection() is None && updated == (ApyUpdated {
                old_apy: 0,
                new_apy: 0,
                updated_at: now,
            }),
            Err(e) => old(ctx).update_rejection() == Some(e),
        },
{
    if ctx.treasury_pool.emergency_pause {
        return Err(ErrorCode::ProgramPaused);
    }
    if ctx.admin != ctx.treasury_pool.admin {
        return Err(ErrorCode::Unauthorized);
    }
    match ctx.treasury_pool.update_apy(0) {
        Ok(_) => {},
        Err(e) => { return Err(e); },
    }
    Ok(ApyUpdated { old_apy: 0, new_apy: 0, updated_at: now })
}

} // verus!
