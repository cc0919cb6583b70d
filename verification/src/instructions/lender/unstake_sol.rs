use vstd::prelude::*;
use crate::errors::ErrorCode;
use crate::events::SolUnstaked;
use crate::states::{BackerDeposit, CustodyAccount, TreasuryPool};

verus! {

/// What a withdrawal reads and changes.
#[derive(Clone, Copy, Debug, PartialEq, Eq)]
pub struct UnstakeSol {
    /// The ledger.
    pub treasury_pool: TreasuryPool,
    /// The principal custody account, as observed.
    pub treasury_pda: CustodyAccount,
    /// The backer's position.
    pub lender_stake: BackerDeposit,
}

impl UnstakeSol {
    /// The principal that stays in the position.
    pub open spec fn remaining(self, amount: u64) -> int {
        self.lender_stake.deposited_amount - amount
    }

    /// The error with which a withdrawal is refused, if it is.
    pub open spec fn unstake_rejection(self, amount: u64) -> Option<ErrorCode> {
        if self.treasury_pool.emergency_pause {
            Some(ErrorCode::ProgramPaused)
        } else if !self.lender_stake.is_active {
            Some(ErrorCode::InactiveStake)
        } else if amount == 0 {
            Some(ErrorCode::InvalidAmount)
        } else if amount > self.lender_stake.deposited_amount {
            Some(ErrorCode::InsufficientStake)
        } else if self.treasury_pool.liquid_balance < amount {
            Some(ErrorCode::InsufficientLiquidBalance)
        } else if self.treasury_pda.lamports < amount {
            Some(ErrorCode::InsufficientTreasuryFunds)
        } else if self.remaining(amount) * self.treasury_pool.reward_per_share > u128::MAX
            || self.treasury_pool.total_deposited < amount {
            Some(ErrorCode::CalculationOverflow)
        } else {
            None
        }
    }

    /// The ledger and the position after an accepted withdrawal. A position
    /// that is left empty is inactive and owes nothing; one that keeps a
    /// deposit is settled at the current accumulator.
    pub open spec fn after_unstake(self, amount: u64) -> UnstakeSol {
        let remaining = self.remaining(amount) as u64;
        UnstakeSol {
            treasury_pool: TreasuryPool {
                total_deposited: (self.treasury_pool.total_deposited - amount) as u64,
                liquid_balance: (self.treasury_pool.liquid_balance - amount) as u64,
                ..self.treasury_pool
            },
            lender_stake: BackerDeposit {
                deposited_amount: remaining,
                reward_debt: TreasuryPool::accrued(
                    remaining,
                    self.treasury_pool.reward_per_share,
                ) as u128,
                is_active: remaining != 0,
                ..self.lender_stake
            },
            treasury_pda: self.treasury_pda,
        }
    }
}

/// Withdraws `amount` of the backer's principal.
///
/// The pool's total and liquid balance fall by `amount`. Only principal
/// leaves: no reward is paid. A withdrawal that the liquid balance or the
/// custody account cannot cover is refused, not queued.
///
/// The caller then moves `amount` from the principal custody account to the
/// backer.
pub fn unstake_sol(ctx: &mut UnstakeSol, amount: u64) -> (r: Result<SolUnstaked, ErrorCode>)
    ensures
        match r {
            Ok(unstaked) => {
                &&& old(ctx).unstake_rejection(amount) is None
                &&& *final(ctx) == old(ctx).after_unstake(amount)
                &&& final(ctx).lender_stake == final(ctx).lender_stake.settled(
                    final(ctx).treasury_pool.reward_per_share,
                )
                &&& unstaked == (SolUnstaked {
                    lender: old(ctx).lender_stake.backer,
                    amount,
                    remaining_staked: final(ctx).lender_stake.deposited_amount,
                })
            },
            Err(e) => old(ctx).unstake_rejection(amount) == Some(e) && *final(ctx) == *old(ctx),
        },
{
    if ctx.treasury_pool.emergency_pause {
        return Err(ErrorCode::ProgramPaused);
    }
    if !ctx.lender_stake.is_active {
        return Err(ErrorCode::InactiveStake);
    }
    if amount == 0 {
        return Err(ErrorCode::InvalidAmount);
    }
    if amount > ctx.lender_stake.deposited_amount {
        return Err(ErrorCode::InsufficientStake);
    }
    if ctx.treasury_pool.liquid_balance < amount {
        return Err(ErrorCode::InsufficientLiquidBalance);
    }
    if ctx.treasury_pda.lamports < amount {
        return Err(ErrorCode::InsufficientTreasuryFunds);
    }
    let mut stake = ctx.lender_stake;
    let mut pool = ctx.treasury_pool;
    stake.deposited_amount = stake.deposited_amount - amount;
    if stake.deposited_amount == 0 {
        stake.is_active = false;
        stake.reward_debt = 0;
        assert(TreasuryPool::accrued(0, pool.reward_per_share) == 0);
    } else {
        match stake.update_reward_debt(pool.reward_per_share) {
            Ok(_) => {},
            Err(e) => { return Err(e); },
        }
    }
    pool.total_deposited = match pool.total_deposited.checked_sub(amount) {
        Some(v) => v,
        None => { return Err(ErrorCode::CalculationOverflow); },
    };
    pool.liquid_balance = pool.liquid_balance - amount;
    ctx.lender_stake = stake;
    ctx.treasury_pool = pool;
    Ok(SolUnstaked { lender: stake.backer, amount, remaining_staked: stake.deposited_amount })
}

} // verus!
