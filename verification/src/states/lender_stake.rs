use vstd::prelude::*;
use crate::errors::ErrorCode;
use crate::pubkey::Pubkey;
use crate::states::treasury_pool::{claimable_rewards, TreasuryPool};

verus! {

/// One backer's position in the pool.
///
/// `reward_debt` is what the position had earned, scaled by
/// [`TreasuryPool::PRECISION`], when it was last settled: only what the
/// accumulator has gained since then can be claimed.
#[derive(Clone, Copy, Debug, PartialEq, Eq)]
pub struct BackerDeposit {
    /// The backer who owns the position; all zero while it is unassigned.
    pub backer: Pubkey,
    /// Principal that the backer has in the pool.
    pub deposited_amount: u64,
    /// `deposited_amount * reward_per_share` at the last settlement.
    pub reward_debt: u128,
    /// Rewards paid out to the backer so far.
    pub claimed_total: u64,
    /// Whether the position holds a deposit.
    pub is_active: bool,
}

/// The older name of a backer's position.
pub type LenderStake = BackerDeposit;

impl BackerDeposit {
    /// A position is well formed when an unassigned one is inactive and an
    /// inactive one holds neither deposit nor debt.
    pub open spec fn well_formed(self) -> bool {
        &&& self.backer.is_unassigned() ==> !self.is_active
        &&& !self.is_active ==> self.deposited_amount == 0 && self.reward_debt == 0
    }

    /// The position settled at `reward_per_share`: its debt is all that it
    /// has earned up to now.
    pub open spec fn settled(self, reward_per_share: u128) -> BackerDeposit {
        BackerDeposit {
            reward_debt: TreasuryPool::accrued(self.deposited_amount, reward_per_share) as u128,
            ..self
        }
    }

    /// What the position may claim at `reward_per_share`:
    /// `(deposited_amount * reward_per_share - reward_debt) / PRECISION`.
    pub fn calculate_claimable_rewards(&self, reward_per_share: u128) -> (r: Result<
        u64,
        ErrorCode,
    >)
        ensures
            match r {
                Ok(amount) => !TreasuryPool::claimable_overflows(
                    self.deposited_amount,
                    reward_per_share,
                    self.reward_debt,
                ) && amount == TreasuryPool::claimable(
                    self.deposited_amount,
                    reward_per_share,
                    self.reward_debt,
                ),
                Err(e) => e == ErrorCode::CalculationOverflow && TreasuryPool::claimable_overflows(
                    self.deposited_amount,
                    reward_per_share,
                    self.reward_debt,
                ),
            },
    {
        claimable_rewards(self.deposited_amount, reward_per_share, self.reward_debt)
    }

    /// Settles the position at `reward_per_share`: sets the debt to
    /// `deposited_amount * reward_per_share`, so that nothing is claimable
    /// until the accumulator moves again. Refused, with the position
    /// unchanged, when the product does not fit in 128 bits.
    pub fn update_reward_debt(&mut self, reward_per_share: u128) -> (r: Result<(), ErrorCode>)
        ensures
            match r {
                Ok(_) => TreasuryPool::accrued(old(self).deposited_amount, reward_per_share)
                    <= u128::MAX && *final(self) == old(self).settled(reward_per_share),
                Err(e) => e == ErrorCode::CalculationOverflow && TreasuryPool::accrued(
                    old(self).deposited_amount,
                    reward_per_share,
                ) > u128::MAX && *final(self) == *old(self),
            },
    {
        match (self.deposited_amount as u128).checked_mul(reward_per_share) {
            Some(debt) => {
                self.reward_debt = debt;
                Ok(())
            },
            None => Err(ErrorCode::CalculationOverflow),
        }
    }
}

} // verus!
