use vstd::prelude::*;
use crate::errors::ErrorCode;
use crate::events::ProgramsSuspended;
use crate::pubkey::Pubkey;
use crate::states::TreasuryPool;

verus! {

/// What a sweep for expired sessions reads.
#[derive(Clone, Copy, Debug, PartialEq, Eq)]
pub struct SuspendExpiredPrograms {
    /// The ledger.
    pub treasury_pool: TreasuryPool,
    /// Who asks.
    pub admin: Pubkey,
}

impl SuspendExpiredPrograms {
    /// The error with which a sweep is refused, if it is.
    pub open spec fn sweep_rejection(self) -> Option<ErrorCode> {
        if self.treasury_pool.emergency_pause {
            Some(ErrorCode::ProgramPaused)
        } else if self.admin != self.treasury_pool.admin {
            Some(ErrorCode::Unauthorized)
        } else {
            None
        }
    }
}

/// Accepts a sweep for expired sessions from the administrator. The sweep
/// is handed no session, so it suspends none and reports a count of zero.
pub fn suspend_expired_programs(ctx: &SuspendExpiredPrograms, now: i64) -> (r: Result<
    ProgramsSuspended,
    ErrorCode,
>)
    ensures
        match r {
            Ok(suspended) => ctx.sweep_rejection() is None && suspended == (ProgramsSuspended {
                suspended_count: 0,
                suspended_at: now,
            }),
            Err(e) => ctx.sweep_rejection() == Some(e),
        },
{
    if ctx.treasury_pool.emergency_pause {
        return Err(ErrorCode::ProgramPaused);
    }
    if ctx.admin != ctx.treasury_pool.admin {
        return Err(ErrorCode::Unauthorized);
    }
    Ok(ProgramsSuspended { suspended_count: 0, suspended_at: now })
}

} // verus!
