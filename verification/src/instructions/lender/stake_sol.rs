use vstd::prelude::*;
use crate::errors::ErrorCode;
use crate::events::{DepositMade, SolStaked};
use crate::pubkey::Pubkey;
use crate::states::{BackerDeposit, CustodyAccount, TreasuryPool};

verus! {

/// What a deposit reads and changes.
#[derive(Clone, Copy, Debug, PartialEq, Eq)]
pub struct StakeSol {
    /// The ledger.
    pub treasury_pool: TreasuryPool,
    /// The backer's position; blank on a first deposit.
    pub lender_stake: BackerDeposit,
    /// The backer, with the balance that the deposit is paid from.
    pub lender: CustodyAccount,
}

/// What a backer must hold beyond the deposit to pay for the transaction.
pub const TRANSACTION_FEE_ESTIMATE: u64 = 10_000;

impl StakeSol {
    /// What the backer must hold for a deposit of `deposit_amount`: the
    /// deposit, the cost of storing a new position where the position is
    /// unassigned, and the transaction fee estimate.
    pub open spec fn required_balance(self, deposit_amount: u64, rent_exemption: u64) -> int {
        deposit_amount + (if self.lender_stake.backer.is_unassigned() {
            rent_exemption as int
        } else {
            0
        }) + TRANSACTION_FEE_ESTIMATE
    }

    /// The principal that the position holds before the deposit; an
    /// unassigned position holds none.
    pub open spec fn principal_before(self) -> u64 {
        if self.lender_stake.backer.is_unassigned() {
            0
        } else {
            self.lender_stake.deposited_amount
        }
    }

    /// What the deposit adds to the accumulator: when it is the first
    /// deposit into an empty pool that holds rewards, those rewards per
    /// deposited unit, scaled and rounded down; else nothing.
    pub open spec fn orphan_delta(self, deposit_amount: u64) -> int {
        if self.treasury_pool.total_deposited == 0 && self.treasury_pool.reward_pool_balance > 0 {
            (self.treasury_pool.reward_pool_balance as int * TreasuryPool::PRECISION as int) / (
            deposit_amount as int)
        } else {
            0
        }
    }

    /// The accumulator after the deposit.
    pub open spec fn accumulator_after(self, deposit_amount: u64) -> int {
        self.treasury_pool.reward_per_share + self.orphan_delta(deposit_amount)
    }

    /// Whether some amount that the deposit computes does not fit its field.
    pub open spec fn stake_overflows(self, deposit_amount: u64) -> bool {
        ||| self.accumulator_after(deposit_amount) > u128::MAX
        ||| self.principal_before() + deposit_amount > u64::MAX
        ||| self.treasury_pool.total_deposited + deposit_amount > u64::MAX
        ||| self.treasury_pool.liquid_balance + deposit_amount > u64::MAX
        ||| (self.principal_before() + deposit_amount) * self.accumulator_after(deposit_amount)
            > u128::MAX
    }

    /// The error with which a deposit is refused, if it is.
    pub open spec fn stake_rejection(self, deposit_amount: u64, rent_exemption: u64) -> Option<
        ErrorCode,
    > {
        if self.treasury_pool.emergency_pause {
            Some(ErrorCode::ProgramPaused)
        } else if deposit_amount == 0 {
            Some(ErrorCode::InvalidAmount)
        } else if self.required_balance(deposit_amount, rent_exemption) > u64::MAX {
            Some(ErrorCode::CalculationOverflow)
        } else if (self.lender.lamports as int) < self.required_balance(
            deposit_amount,
            rent_exemption,
        ) {
            Some(ErrorCode::InsufficientDeposit)
        } else if !self.lender_stake.backer.is_unassigned() && !self.lender_stake.is_active
            && self.lender_stake.deposited_amount > 0 {
            Some(ErrorCode::InactiveStake)
        } else if self.stake_overflows(deposit_amount) {
            Some(ErrorCode::CalculationOverflow)
        } else {
            None
        }
    }

    /// The ledger and the position after an accepted deposit. The position is
    /// active, holds the deposit on top of what it held, and is settled at
    /// the accumulator as the deposit leaves it. An unassigned position is
    /// taken over by the backer; an inactive one is active again.
    pub open spec fn after_stake(self, deposit_amount: u64) -> StakeSol {
        let per_share = self.accumulator_after(deposit_amount) as u128;
        let principal = (self.principal_before() + deposit_amount) as u64;
        StakeSol {
            treasury_pool: TreasuryPool {
                reward_per_share: per_share,
                total_deposited: (self.treasury_pool.total_deposited + deposit_amount) as u64,
                liquid_balance: (self.treasury_pool.liquid_balance + deposit_amount) as u64,
                ..self.treasury_pool
            },
            lender_stake: BackerDeposit {
                backer: if self.lender_stake.backer.is_unassigned() {
                    self.lender.key
                } else {
                    self.lender_stake.backer
                },
                deposited_amount: principal,
                reward_debt: TreasuryPool::accrued(principal, per_share) as u128,
                claimed_total: if self.lender_stake.backer.is_unassigned() {
                    0
                } else {
                    self.lender_stake.claimed_total
                },
                is_active: true,
            },
            lender: self.lender,
        }
    }
}

proof fn lemma_product_monotone(a: int, b: int, c: int, d: int)
    by (nonlinear_arith)
    requires
        0 <= a <= c,
        0 <= b <= d,
    ensures
        a * b <= c * d,
{
}

proof fn lemma_quotient_nonnegative(x: int, d: int)
    by (nonlinear_arith)
    requires
        0 <= x,
        0 < d,
    ensures
        0 <= x / d,
{
}

/// Deposits `deposit_amount` of principal for the backer.
///
/// Nothing is taken from the deposit: all of it becomes principal, and the
/// pool's total and liquid balance grow by it. A position that held a deposit
/// is settled before the principal changes, so the new capital earns nothing
/// for fees credited earlier. When the pool was empty and holds rewards that
/// were credited while nobody held a deposit, the accumulator first rises by
/// those rewards per deposited unit.
///
/// The caller then moves `deposit_amount` from the backer to the principal
/// custody account. `rent_exemption` is what storing a new position costs and
/// `now` the current time.
pub fn stake_sol(
    ctx: &mut StakeSol,
    deposit_amount: u64,
    _lock_period: i64,
    rent_exemption: u64,
    now: i64,
) -> (r: Result<(SolStaked, DepositMade), ErrorCode>)
    ensures
        match r {
            Ok((staked, deposit)) => {
                &&& old(ctx).stake_rejection(deposit_amount, rent_exemption) is None
                &&& *final(ctx) == old(ctx).after_stake(deposit_amount)
                &&& final(ctx).lender_stake == final(ctx).lender_stake.settled(
                    final(ctx).treasury_pool.reward_per_share,
                )
                &&& final(ctx).treasury_pool.reward_per_share >= old(ctx).treasury_pool.reward_per_share
                &&& staked == (SolStaked {
                    lender: final(ctx).lender_stake.backer,
                    amount: deposit_amount,
                    total_staked: final(ctx).lender_stake.deposited_amount,
                    lock_period: 0,
                })
                &&& deposit == (DepositMade {
                    backer: final(ctx).lender_stake.backer,
                    deposit_amount,
                    net_deposit: deposit_amount,
                    reward_fee: 0,
                    platform_fee: 0,
                    total_deposited: final(ctx).treasury_pool.total_deposited,
                    liquid_balance: final(ctx).treasury_pool.liquid_balance,
                    deposited_at: now,
                })
            },
            Err(e) => old(ctx).stake_rejection(deposit_amount, rent_exemption) == Some(e)
                && *final(ctx) == *old(ctx),
        },
{
    if ctx.treasury_pool.emergency_pause {
        return Err(ErrorCode::ProgramPaused);
    }
    if deposit_amount == 0 {
        return Err(ErrorCode::InvalidAmount);
    }
    let is_new = ctx.lender_stake.backer.is_default();
    let rent_needed: u64 = if is_new { rent_exemption } else { 0 };
    let total_required: u128 = deposit_amount as u128 + rent_needed as u128
        + TRANSACTION_FEE_ESTIMATE as u128;
    if total_required > u64::MAX as u128 {
        return Err(ErrorCode::CalculationOverflow);
    }
    if (ctx.lender.lamports as u128) < total_required {
        return Err(ErrorCode::InsufficientDeposit);
    }
    let mut stake = ctx.lender_stake;
    let mut pool = ctx.treasury_pool;
    proof {
        lemma_quotient_nonnegative(
            pool.reward_pool_balance as int * TreasuryPool::PRECISION as int,
            deposit_amount as int,
        );
    }
    if is_new {
        stake.backer = ctx.lender.key;
        stake.deposited_amount = 0;
        stake.reward_debt = 0;
        stake.claimed_total = 0;
        stake.is_active = true;
    } else {
        if !stake.is_active {
            if stake.deposited_amount > 0 {
                return Err(ErrorCode::InactiveStake);
            }
            stake.is_active = true;
        }
        // Settle at the accumulator as it stands, before the principal changes.
        match stake.update_reward_debt(pool.reward_per_share) {
            Ok(_) => {},
            Err(e) => {
                proof {
                    if ctx.principal_before() + deposit_amount <= u64::MAX {
                        lemma_product_monotone(
                            ctx.principal_before() as int,
                            pool.reward_per_share as int,
                            ctx.principal_before() + deposit_amount,
                            ctx.accumulator_after(deposit_amount),
                        );
                    }
                }
                return Err(e);
            },
        }
    }
    if pool.total_deposited == 0 && pool.reward_pool_balance > 0 {
        let excess: u128 = (pool.reward_pool_balance as u128) * TreasuryPool::PRECISION / (
        deposit_amount as u128);
        pool.reward_per_share = match pool.reward_per_share.checked_add(excess) {
            Some(v) => v,
            None => { return Err(ErrorCode::CalculationOverflow); },
        };
    }
    stake.deposited_amount = match stake.deposited_amount.checked_add(deposit_amount) {
        Some(v) => v,
        None => { return Err(ErrorCode::CalculationOverflow); },
    };
    pool.total_deposited = match pool.total_deposited.checked_add(deposit_amount) {
        Some(v) => v,
        None => { return Err(ErrorCode::CalculationOverflow); },
    };
    pool.liquid_balance = match pool.liquid_balance.checked_add(deposit_amount) {
        Some(v) => v,
        None => { return Err(ErrorCode::CalculationOverflow); },
    };
    // Settle again, at the accumulator and the principal as the deposit leaves them.
    match stake.update_reward_debt(pool.reward_per_share) {
        Ok(_) => {},
        Err(e) => { return Err(e); },
    }
    ctx.lender_stake = stake;
    ctx.treasury_pool = pool;
    let staked = SolStaked {
        lender: stake.backer,
        amount: deposit_amount,
        total_staked: stake.deposited_amount,
        lock_period: 0,
    };
    let deposit = DepositMade {
        backer: stake.backer,
        deposit_amount,
        net_deposit: deposit_amount,
        reward_fee: 0,
        platform_fee: 0,
        total_deposited: pool.total_deposited,
        liquid_balance: pool.liquid_balance,
        deposited_at: now,
    };
    Ok((staked, deposit))
}

} // verus!
