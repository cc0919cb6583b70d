use vstd::prelude::*;
use crate::errors::ErrorCode;
use crate::events::RewardCredited;
use crate::states::{CustodyAccount, TreasuryPool};

verus! {

/// What a credit of fees by the administrator reads and changes.
#[derive(Clone, Copy, Debug, PartialEq, Eq)]
pub struct CreditFeeToPool {
    /// The ledger.
    pub treasury_pool: TreasuryPool,
    /// Who asks, with the balance that the fees are paid from.
    pub admin: CustodyAccount,
}

impl CreditFeeToPool {
    /// The error with which the credit is refused, if it is.
    pub open spec fn credit_rejection(self, fee_reward: u64, fee_platform: u64) -> Option<
        ErrorCode,
    > {
        if self.admin.key != self.treasury_pool.admin {
            Some(ErrorCode::Unauthorized)
        } else if self.treasury_pool.emergency_pause {
            Some(ErrorCode::ProgramPaused)
        } else if fee_reward == 0 && fee_platform == 0 {
            Some(ErrorCode::InvalidAmount)
        } else if fee_reward + fee_platform > u64::MAX {
            Some(ErrorCode::CalculationOverflow)
        } else if self.admin.lamports < fee_reward + fee_platform {
            Some(ErrorCode::InsufficientDeposit)
        } else {
            self.treasury_pool.credit_fee_rejection(fee_reward, fee_platform)
        }
    }
}

/// Credits fees that the administrator pays in: `fee_reward` to the reward
/// pool, raising the accumulator by the fee per deposited unit, and
/// `fee_platform` to the platform pool. At least one of the two must be
/// positive and the administrator must hold their sum.
///
/// The caller then moves `fee_reward` from the administrator to the reward
/// custody account and `fee_platform` to the platform custody account.
pub fn credit_fee_to_pool(ctx: &mut CreditFeeToPool, fee_reward: u64, fee_platform: u64, now: i64) -> (r:
    Result<RewardCredited, ErrorCode>)
    ensures
        final(ctx).treasury_pool.reward_per_share >= old(ctx).treasury_pool.reward_per_share,
        match r {
            Ok(credited) => {
                &&& old(ctx).credit_rejection(fee_reward, fee_platform) is None
                &&& *final(ctx) == (CreditFeeToPool {
                    treasury_pool: old(ctx).treasury_pool.after_credit_fee(
                        fee_reward,
                        fee_platform,
                    ),
                    admin: old(ctx).admin,
                })
                &&& credited == (RewardCredited {
                    fee_reward,
                    fee_platform,
                    reward_per_share: final(ctx).treasury_pool.reward_per_share,
                    total_deposited: final(ctx).treasury_pool.total_deposited,
                    credited_at: now,
                })
            },
            Err(e) => old(ctx).credit_rejection(fee_reward, fee_platform) == Some(e) && *final(ctx)
                == *old(ctx),
        },
{
    if ctx.admin.key != ctx.treasury_pool.admin {
        return Err(ErrorCode::Unauthorized);
    }
    if ctx.treasury_pool.emergency_pause {
        return Err(ErrorCode::ProgramPaused);
    }
    if fee_reward == 0 && fee_platform == 0 {
        return Err(ErrorCode::InvalidAmount);
    }
    let total_fees = match fee_reward.checked_add(fee_platform) {
        Some(v) => v,
        None => { return Err(ErrorCode::CalculationOverflow); },
    };
    if ctx.admin.lamports < total_fees {
        return Err(ErrorCode::InsufficientDeposit);
    }
    let mut pool = ctx.treasury_pool;
    match pool.credit_fee_to_pool(fee_reward, fee_platform) {
        Ok(_) => {},
        Err(e) => { return Err(e); },
    }
    ctx.treasury_pool = pool;
    Ok(
        RewardCredited {
            fee_reward,
            fee_platform,
            reward_per_share: pool.reward_per_share,
            total_deposited: pool.total_deposited,
            credited_at: now,
        },
    )
}

} // verus!
