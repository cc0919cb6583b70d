use vstd::prelude::*;
use crate::errors::ErrorCode;
use crate::events::AdminWithdrew;
use crate::pubkey::Pubkey;
use crate::states::{CustodyAccount, TreasuryPool};

verus! {

/// What a withdrawal from the platform pool reads and changes.
#[derive(Clone, Copy, Debug, PartialEq, Eq)]
pub struct AdminWithdraw {
    /// The ledger.
    pub treasury_pool: TreasuryPool,
    /// The platform custody account, which pays.
    pub admin_pool: CustodyAccount,
    /// Who asks.
    pub admin: Pubkey,
    /// The account that receives.
    pub destination: CustodyAccount,
}

impl AdminWithdraw {
    /// The error with which the withdrawal is refused, if it is.
    pub open spec fn withdraw_rejection(self, amount: u64) -> Option<ErrorCode> {
        if self.admin != self.treasury_pool.admin {
            Some(ErrorCode::Unauthorized)
        } else if self.treasury_pool.emergency_pause {
            Some(ErrorCode::ProgramPaused)
        } else if amount == 0 {
            Some(ErrorCode::InvalidAmount)
        } else if self.treasury_pool.platform_pool_balance < amount || self.admin_pool.lamports
            < amount {
            Some(ErrorCode::InsufficientTreasuryFunds)
        } else if self.destination.lamports + amount > u64::MAX {
            Some(ErrorCode::CalculationOverflow)
        } else {
            None
        }
    }

    /// The ledger and the accounts after an accepted withdrawal: `amount`
    /// has left the platform pool, as booked by the ledger and as held by
    /// the custody account, for the destination.
    pub open spec fn after_withdraw(self, amount: u64) -> AdminWithdraw {
        AdminWithdraw {
            treasury_pool: TreasuryPool {
                platform_pool_balance: (self.treasury_pool.platform_pool_balance - amount) as u64,
                ..self.treasury_pool
            },
            admin_pool: CustodyAccount {
                lamports: (self.admin_pool.lamports - amount) as u64,
                ..self.admin_pool
            },
            admin: self.admin,
            destination: CustodyAccount {
                lamports: (self.destination.lamports + amount) as u64,
                ..self.destination
            },
        }
    }
}

/// Withdraws `amount` from the platform pool to `destination`, for the
/// reason given. Only the ledger's administrator may, and only what the
/// ledger books for the platform pool and the custody account holds.
pub fn admin_withdraw(ctx: &mut AdminWithdraw, amount: u64, reason: String, now: i64) -> (r: Result<
    AdminWithdrew,
    ErrorCode,
>)
    ensures
        match r {
            Ok(withdrew) => {
                &&& old(ctx).withdraw_rejection(amount) is None
                &&& *final(ctx) == old(ctx).after_withdraw(amount)
                &&& old(ctx).treasury_pool.platform_pool_balance <= old(ctx).admin_pool.lamports
                    ==> final(ctx).treasury_pool.platform_pool_balance <= final(ctx).admin_pool.lamports
                &&& final(ctx).admin_pool.lamports + final(ctx).destination.lamports == old(ctx).admin_pool.lamports + old(ctx).destination.lamports
                &&& withdrew == (AdminWithdrew {
                    admin: old(ctx).admin,
                    amount,
                    destination: old(ctx).destination.key,
                    reason,
                    withdrawn_at: now,
                })
            },
            Err(e) => old(ctx).withdraw_rejection(amount) == Some(e) && *final(ctx) == *old(ctx),
        },
{
    if ctx.admin != ctx.treasury_pool.admin {
        return Err(ErrorCode::Unauthorized);
    }
    if ctx.treasury_pool.emergency_pause {
        return Err(ErrorCode::ProgramPaused);
    }
    if amount == 0 {
        return Err(ErrorCode::InvalidAmount);
    }
    if ctx.treasury_pool.platform_pool_balance < amount {
        return Err(ErrorCode::InsufficientTreasuryFunds);
    }
    if ctx.admin_pool.lamports < amount {
        return Err(ErrorCode::InsufficientTreasuryFunds);
    }
    let received = match ctx.destination.lamports.checked_add(amount) {
        Some(v) => v,
        None => { return Err(ErrorCode::CalculationOverflow); },
    };
    ctx.admin_pool.lamports = ctx.admin_pool.lamports - amount;
    ctx.destination.lamports = received;
    ctx.treasury_pool.platform_pool_balance = ctx.treasury_pool.platform_pool_balance - amount;
    Ok(
        AdminWithdrew {
            admin: ctx.admin,
            amount,
            destination: ctx.destination.key,
            reason,
            withdrawn_at: now,
        },
    )
}

} // verus!
