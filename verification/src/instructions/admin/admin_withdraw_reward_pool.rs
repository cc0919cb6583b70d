use vstd::prelude::*;
use crate::errors::ErrorCode;
use crate::events::AdminWithdrew;
use crate::pubkey::{bytes_equal, Pubkey};
use crate::states::{CustodyAccount, TreasuryPool};

verus! {

/// The one identity that may withdraw surplus from the reward pool. It is
/// fixed here, apart from the ledger's administrator.
pub const AUTHORIZED_REWARD_ADMIN: [u8; 32] = [
    133, 226, 111, 196, 140, 140, 118, 104, 193, 98, 208, 81, 170, 3, 69, 124,
    138, 230, 86, 134, 144, 141, 144, 13, 183, 126, 131, 21, 19, 175, 100, 38,
];

/// What a withdrawal of surplus from the reward pool reads and changes.
#[derive(Clone, Copy, Debug, PartialEq, Eq)]
pub struct AdminWithdrawRewardPool {
    /// The ledger.
    pub treasury_pool: TreasuryPool,
    /// The reward custody account, as observed.
    pub reward_pool: CustodyAccount,
    /// Who asks.
    pub admin: Pubkey,
    /// The identity that receives.
    pub destination: Pubkey,
}

impl AdminWithdrawRewardPool {
    /// The error with which the withdrawal is refused, if it is.
    pub open spec fn withdraw_rejection(self, amount: u64) -> Option<ErrorCode> {
        if self.admin.bytes != AUTHORIZED_REWARD_ADMIN {
            Some(ErrorCode::Unauthorized)
        } else if self.treasury_pool.emergency_pause {
            Some(ErrorCode::ProgramPaused)
        } else if amount == 0 {
            Some(ErrorCode::InvalidAmount)
        } else if self.treasury_pool.reward_pool_balance < amount || self.reward_pool.lamports
            < amount {
            Some(ErrorCode::InsufficientTreasuryFunds)
        } else {
            None
        }
    }
}

/// Withdraws `amount` of surplus from the reward pool, for the reason given.
///
/// Only the authorized identity may. The amount must be covered by what the
/// ledger books for the reward pool and by what the custody account holds;
/// that it is surplus, beyond all that backers may still claim, is for the
/// caller to have worked out.
///
/// The caller then moves `amount` from the reward custody account to the
/// destination.
pub fn admin_withdraw_reward_pool(
    ctx: &mut AdminWithdrawRewardPool,
    amount: u64,
    reason: String,
    now: i64,
) -> (r: Result<AdminWithdrew, ErrorCode>)
    ensures
        match r {
            Ok(withdrew) => {
                &&& old(ctx).withdraw_rejection(amount) is None
                &&& *final(ctx) == (AdminWithdrawRewardPool {
                    treasury_pool: TreasuryPool {
                        reward_pool_balance: (old(ctx).treasury_pool.reward_pool_balance
                            - amount) as u64,
                        ..old(ctx).treasury_pool
                    },
                    ..*old(ctx)
                })
                &&& withdrew == (AdminWithdrew {
                    admin: old(ctx).admin,
                    amount,
                    destination: old(ctx).destination,
                    reason,
                    withdrawn_at: now,
                })
            },
            Err(e) => old(ctx).withdraw_rejection(amount) == Some(e) && *final(ctx) == *old(ctx),
        },
{
    if !bytes_equal(&ctx.admin.bytes, &AUTHORIZED_REWARD_ADMIN) {
        return Err(ErrorCode::Unauthorized);
    }
    if ctx.treasury_pool.emergency_pause {
        return Err(ErrorCode::ProgramPaused);
    }
    if amount == 0 {
        return Err(ErrorCode::InvalidAmount);
    }
    if ctx.treasury_pool.reward_pool_balance < amount {
        return Err(ErrorCode::InsufficientTreasuryFunds);
    }
    if ctx.reward_pool.lamports < amount {
        return Err(ErrorCode::InsufficientTreasuryFunds);
    }
    ctx.treasury_pool.reward_pool_balance = ctx.treasury_pool.reward_pool_balance - amount;
    Ok(
        AdminWithdrew {
            admin: ctx.admin,
            amount,
            destination: ctx.destination,
            reason,
            withdrawn_at: now,
        },
    )
}

} // verus!
