use vstd::prelude::*;
use crate::errors::ErrorCode;
use crate::events::EmergencyPauseToggled;
use crate::pubkey::Pubkey;
use crate::states::TreasuryPool;

verus! {

/// What setting the pause flag reads and changes.
#[derive(Clone, Copy, Debug, PartialEq, Eq)]
pub struct EmergencyPause {
    /// The ledger.
    pub treasury_pool: TreasuryPool,
    /// Who asks.
    pub admin: Pubkey,
}

/// Sets or clears the pause flag. Only the ledger's administrator may; the
/// flag is the only thing that changes.
pub fn emergency_pause(ctx: &mut EmergencyPause, pause: bool, now: i64) -> (r: Result<
    EmergencyPauseToggled,
    ErrorCode,
>)
    ensures
        match r {
            Ok(toggled) => {
                &&& old(ctx).admin == old(ctx).treasury_pool.admin
                &&& *final(ctx) == (EmergencyPause {
                    treasury_pool: TreasuryPool {
                        emergency_pause: pause,
                        ..old(ctx).treasury_pool
                    },
                    admin: old(ctx).admin,
                })
                &&& toggled == (EmergencyPauseToggled { paused: pause, toggled_at: now })
            },
            Err(e) => e == ErrorCode::Unauthorized && old(ctx).admin != old(ctx).treasury_pool.admin && *final(ctx) == *old(ctx),
        },
{
    if ctx.admin != ctx.treasury_pool.admin {
        return Err(ErrorCode::Unauthorized);
    }
    ctx.treasury_pool.emergency_pause = pause;
    Ok(EmergencyPauseToggled { paused: pause, toggled_at: now })
}

} // verus!
