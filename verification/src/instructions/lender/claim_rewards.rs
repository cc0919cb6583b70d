use vstd::prelude::*;
use crate::errors::ErrorCode;
use crate::events::{Claimed, RewardsClaimed};
use crate::states::{BackerDeposit, CustodyAccount, LenderStake, TreasuryPool};

verus! {

/// What a claim reads and changes.
#[derive(Clone, Copy, Debug, PartialEq, Eq)]
pub struct ClaimRewards {
    /// The ledger.
    pub treasury_pool: TreasuryPool,
    /// The reward custody account, which pays the claim.
    pub reward_pool: CustodyAccount,
    /// The backer's position.
    pub lender_stake: LenderStake,
    /// The backer, who receives the claim.
    pub lender: CustodyAccount,
}

impl ClaimRewards {
    /// What the position may claim at the current accumulator.
    pub open spec fn claimable(self) -> int {
        TreasuryPool::claimable(
            self.lender_stake.deposited_amount,
            self.treasury_pool.reward_per_share,
            self.lender_stake.reward_debt,
        )
    }

    /// The error with which a claim is refused, if it is.
    pub open spec fn claim_rejection(self) -> Option<ErrorCode> {
        if self.treasury_pool.emergency_pause {
            Some(ErrorCode::ProgramPaused)
        } else if !self.lender_stake.is_active {
            Some(ErrorCode::InactiveStake)
        } else if TreasuryPool::claimable_overflows(
            self.lender_stake.deposited_amount,
            self.treasury_pool.reward_per_share,
            self.lender_stake.reward_debt,
        ) {
            Some(ErrorCode::CalculationOverflow)
        } else if self.claimable() == 0 {
            Some(ErrorCode::NoRewardsToClaim)
        } else if (self.treasury_pool.reward_pool_balance as int) < self.claimable() || (
        self.reward_pool.lamports as int) < self.claimable() {
            Some(ErrorCode::InsufficientTreasuryFunds)
        } else if self.lender_stake.claimed_total + self.claimable() > u64::MAX {
            Some(ErrorCode::CalculationOverflow)
        } else if self.claimable() > TreasuryPool::MAX_AMOUNT as int {
            Some(ErrorCode::FeeAmountTooLarge)
        } else if self.lender.lamports + self.claimable() > u64::MAX {
            Some(ErrorCode::CalculationOverflow)
        } else {
            None
        }
    }

    /// The ledger, the position and the two accounts after an accepted
    /// claim: the claimable amount has left the reward pool, tracked and
    /// held, for the backer, and the position is settled.
    pub open spec fn after_claim(self) -> ClaimRewards {
        let amount = self.claimable();
        ClaimRewards {
            treasury_pool: TreasuryPool {
                reward_pool_balance: (self.treasury_pool.reward_pool_balance - amount) as u64,
                ..self.treasury_pool
            },
            reward_pool: CustodyAccount {
                lamports: (self.reward_pool.lamports - amount) as u64,
                ..self.reward_pool
            },
            lender_stake: BackerDeposit {
                claimed_total: (self.lender_stake.claimed_total + amount) as u64,
                reward_debt: TreasuryPool::accrued(
                    self.lender_stake.deposited_amount,
                    self.treasury_pool.reward_per_share,
                ) as u128,
                ..self.lender_stake
            },
            lender: CustodyAccount {
                lamports: (self.lender.lamports + amount) as u64,
                ..self.lender
            },
        }
    }
}

/// Pays the backer what the position may claim:
/// `(deposited_amount * reward_per_share - reward_debt) / PRECISION`.
///
/// The amount leaves the reward pool, both as tracked by the ledger and as
/// held by the reward custody account, and arrives in the backer's account.
/// The position is then settled, so that a second claim finds nothing until
/// fees are credited again.
pub fn claim_rewards(ctx: &mut ClaimRewards, now: i64) -> (r: Result<
    (RewardsClaimed, Claimed),
    ErrorCode,
>)
    ensures
        match r {
            Ok((paid, claimed)) => {
                &&& old(ctx).claim_rejection() is None
                &&& *final(ctx) == old(ctx).after_claim()
                &&& final(ctx).claimable() == 0
                &&& final(ctx).lender_stake == final(ctx).lender_stake.settled(
                    final(ctx).treasury_pool.reward_per_share,
                )
                &&& old(ctx).treasury_pool.reward_pool_balance <= old(ctx).reward_pool.lamports
                    ==> final(ctx).treasury_pool.reward_pool_balance <= final(ctx).reward_pool.lamports
                &&& final(ctx).reward_pool.lamports + final(ctx).lender.lamports == old(ctx).reward_pool.lamports + old(ctx).lender.lamports
                &&& paid == (RewardsClaimed {
                    lender: old(ctx).lender_stake.backer,
                    amount: old(ctx).claimable() as u64,
                    total_claimed: final(ctx).lender_stake.claimed_total,
                })
                &&& claimed == (Claimed {
                    backer: old(ctx).lender_stake.backer,
                    amount: old(ctx).claimable() as u64,
                    claimed_total: final(ctx).lender_stake.claimed_total,
                    reward_per_share: old(ctx).treasury_pool.reward_per_share,
                    claimed_at: now,
                })
            },
            Err(e) => old(ctx).claim_rejection() == Some(e) && *final(ctx) == *old(ctx),
        },
{
    if ctx.treasury_pool.emergency_pause {
        return Err(ErrorCode::ProgramPaused);
    }
    if !ctx.lender_stake.is_active {
        return Err(ErrorCode::InactiveStake);
    }
    let amount = match ctx.lender_stake.calculate_claimable_rewards(
        ctx.treasury_pool.reward_per_share,
    ) {
        Ok(v) => v,
        Err(e) => { return Err(e); },
    };
    if amount == 0 {
        return Err(ErrorCode::NoRewardsToClaim);
    }
    if ctx.treasury_pool.reward_pool_balance < amount {
        return Err(ErrorCode::InsufficientTreasuryFunds);
    }
    if ctx.reward_pool.lamports < amount {
        return Err(ErrorCode::InsufficientTreasuryFunds);
    }
    let mut stake = ctx.lender_stake;
    let mut pool = ctx.treasury_pool;
    stake.claimed_total = match stake.claimed_total.checked_add(amount) {
        Some(v) => v,
        None => { return Err(ErrorCode::CalculationOverflow); },
    };
    match stake.update_reward_debt(pool.reward_per_share) {
        Ok(_) => {},
        Err(e) => { return Err(e); },
    }
    match pool.debit_reward_pool(amount) {
        Ok(_) => {},
        Err(e) => { return Err(e); },
    }
    let received = match ctx.lender.lamports.checked_add(amount) {
        Some(v) => v,
        None => { return Err(ErrorCode::CalculationOverflow); },
    };
    ctx.reward_pool.lamports = ctx.reward_pool.lamports - amount;
    ctx.lender.lamports = received;
    ctx.lender_stake = stake;
    ctx.treasury_pool = pool;
    let paid = RewardsClaimed {
        lender: stake.backer,
        amount,
        total_claimed: stake.claimed_total,
    };
    let claimed = Claimed {
        backer: stake.backer,
        amount,
        claimed_total: stake.claimed_total,
        reward_per_share: pool.reward_per_share,
        claimed_at: now,
    };
    Ok((paid, claimed))
}

} // verus!
