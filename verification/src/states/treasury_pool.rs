use vstd::prelude::*;
use crate::errors::ErrorCode;
use crate::pubkey::Pubkey;

verus! {

/// The pool-wide ledger.
///
/// Fees are shared out through `reward_per_share`, an accumulator scaled by
/// [`TreasuryPool::PRECISION`]: a position that holds `d` units has earned
/// `d * reward_per_share / PRECISION` since the accumulator was zero, and what
/// it may still claim is that amount less its recorded debt.
#[derive(Clone, Copy, Debug, PartialEq, Eq)]
pub struct TreasuryPool {
    /// Rewards earned per deposited unit, scaled by `PRECISION`.
    pub reward_per_share: u128,
    /// Sum of the deposits of all active positions.
    pub total_deposited: u64,
    /// Principal that can be withdrawn or lent out right now.
    pub liquid_balance: u64,
    /// Tracked balance of the reward pool.
    pub reward_pool_balance: u64,
    /// Tracked balance of the platform-fee pool.
    pub platform_pool_balance: u64,
    /// Reward fee rate in basis points.
    pub reward_fee_bps: u64,
    /// Platform fee rate in basis points.
    pub platform_fee_bps: u64,
    /// Who may run the administrative operations.
    pub admin: Pubkey,
    /// The wallet that deployments are paid from.
    pub dev_wallet: Pubkey,
    /// While set, every operation that moves funds or credits fees refuses.
    pub emergency_pause: bool,
}

impl TreasuryPool {
    /// The seed that the address of the ledger's account is derived from:
    /// the bytes of `treasury_pool`.
    pub const PREFIX_SEED: [u8; 13] = [
        0x74, 0x72, 0x65, 0x61, 0x73, 0x75, 0x72, 0x79, 0x5f, 0x70, 0x6f, 0x6f, 0x6c,
    ];

    /// Reward fee: 1%.
    pub const REWARD_FEE_BPS: u64 = 100;

    /// Platform fee: 0.1%.
    pub const PLATFORM_FEE_BPS: u64 = 10;

    /// Scale of `reward_per_share`.
    pub const PRECISION: u128 = 1_000_000_000_000;

    /// Largest amount that a single credit or debit accepts.
    pub const MAX_AMOUNT: u128 = 1_000_000_000 * 1_000_000_000;

    /// Ceiling on a refund of fees.
    pub const MAX_FEE_AMOUNT: u128 = 1_000_000_000 * 1_000_000_000;

    /// The ledger as it is set up: nothing deposited, nothing earned, the two
    /// fixed fee rates, not paused.
    pub open spec fn fresh(admin: Pubkey, dev_wallet: Pubkey) -> TreasuryPool {
        TreasuryPool {
            reward_per_share: 0,
            total_deposited: 0,
            liquid_balance: 0,
            reward_pool_balance: 0,
            platform_pool_balance: 0,
            reward_fee_bps: Self::REWARD_FEE_BPS,
            platform_fee_bps: Self::PLATFORM_FEE_BPS,
            admin,
            dev_wallet,
            emergency_pause: false,
        }
    }

    /// A ledger as it is set up, administered by `admin`.
    pub fn new(admin: Pubkey, dev_wallet: Pubkey) -> (pool: TreasuryPool)
        ensures
            pool == Self::fresh(admin, dev_wallet),
    {
        TreasuryPool {
            reward_per_share: 0,
            total_deposited: 0,
            liquid_balance: 0,
            reward_pool_balance: 0,
            platform_pool_balance: 0,
            reward_fee_bps: Self::REWARD_FEE_BPS,
            platform_fee_bps: Self::PLATFORM_FEE_BPS,
            admin,
            dev_wallet,
            emergency_pause: false,
        }
    }

    /// What a credit of `fee_reward` adds to the accumulator while
    /// `total_deposited` units are deposited: nothing when nobody holds a
    /// deposit, else the fee per unit, scaled and rounded down.
    pub open spec fn accumulator_delta(fee_reward: u64, total_deposited: u64) -> int {
        if total_deposited > 0 {
            (fee_reward as int * Self::PRECISION as int) / (total_deposited as int)
        } else {
            0
        }
    }

    /// What a position of `deposited_amount` units has earned in all, scaled
    /// by `PRECISION`.
    pub open spec fn accrued(deposited_amount: u64, reward_per_share: u128) -> int {
        deposited_amount as int * reward_per_share as int
    }

    /// What a position may claim: what it has earned beyond its debt, rounded
    /// down to whole units.
    pub open spec fn claimable(
        deposited_amount: u64,
        reward_per_share: u128,
        reward_debt: u128,
    ) -> int {
        (Self::accrued(deposited_amount, reward_per_share) - reward_debt as int)
            / (Self::PRECISION as int)
    }

    /// Why a claimable amount cannot be computed, if it cannot: what was
    /// earned does not fit in 128 bits, the debt exceeds it, or the amount
    /// does not fit in 64 bits.
    pub open spec fn claimable_overflows(
        deposited_amount: u64,
        reward_per_share: u128,
        reward_debt: u128,
    ) -> bool {
        ||| Self::accrued(deposited_amount, reward_per_share) > u128::MAX
        ||| reward_debt as int > Self::accrued(deposited_amount, reward_per_share)
        ||| Self::claimable(deposited_amount, reward_per_share, reward_debt) > u64::MAX
    }

    /// The error with which a credit of fees is refused, if it is.
    pub open spec fn credit_fee_rejection(self, fee_reward: u64, fee_platform: u64) -> Option<
        ErrorCode,
    > {
        if fee_reward as int > Self::MAX_AMOUNT as int || fee_platform as int
            > Self::MAX_AMOUNT as int {
            Some(ErrorCode::FeeAmountTooLarge)
        } else if self.platform_pool_balance + fee_platform > u64::MAX
            || self.reward_pool_balance + fee_reward > u64::MAX
            || self.reward_per_share + Self::accumulator_delta(fee_reward, self.total_deposited)
            > u128::MAX {
            Some(ErrorCode::CalculationOverflow)
        } else {
            None
        }
    }

    /// The ledger after an accepted credit of fees.
    pub open spec fn after_credit_fee(self, fee_reward: u64, fee_platform: u64) -> TreasuryPool {
        TreasuryPool {
            reward_per_share: (self.reward_per_share + Self::accumulator_delta(
                fee_reward,
                self.total_deposited,
            )) as u128,
            reward_pool_balance: (self.reward_pool_balance + fee_reward) as u64,
            platform_pool_balance: (self.platform_pool_balance + fee_platform) as u64,
            ..self
        }
    }

    /// The ledger after a credit of fees is asked for: credited where the
    /// credit is accepted, unchanged where it is refused.
    pub open spec fn credited(self, fee_reward: u64, fee_platform: u64) -> TreasuryPool {
        if self.credit_fee_rejection(fee_reward, fee_platform) is None {
            self.after_credit_fee(fee_reward, fee_platform)
        } else {
            self
        }
    }

    /// The reward fee on a deposit: 1% of it, rounded down.
    pub fn calculate_reward_fee(deposit_amount: u64) -> (r: Result<u64, ErrorCode>)
        ensures
            r == Ok::<u64, ErrorCode>((deposit_amount as int * 100 / 10000) as u64),
            deposit_amount as int * 100 / 10000 <= u64::MAX,
    {
        let bps: u128 = Self::REWARD_FEE_BPS as u128;
        assert(bps == 100);
        let scaled: u128 = (deposit_amount as u128) * bps;
        let fee: u128 = scaled / 10000;
        Ok(fee as u64)
    }

    /// The platform fee on a deposit: 0.1% of it, rounded down.
    pub fn calculate_platform_fee(deposit_amount: u64) -> (r: Result<u64, ErrorCode>)
        ensures
            r == Ok::<u64, ErrorCode>((deposit_amount as int * 10 / 10000) as u64),
            deposit_amount as int * 10 / 10000 <= u64::MAX,
    {
        let bps: u128 = Self::PLATFORM_FEE_BPS as u128;
        assert(bps == 10);
        let scaled: u128 = (deposit_amount as u128) * bps;
        let fee: u128 = scaled / 10000;
        Ok(fee as u64)
    }

    /// Credits fees to the two pools and raises the accumulator by the reward
    /// fee per deposited unit. While nothing is deposited the reward fee stays
    /// in the pool and the accumulator does not move.
    ///
    /// The credit applies in full or not at all. The accumulator never falls.
    pub fn credit_fee_to_pool(&mut self, fee_reward: u64, fee_platform: u64) -> (r: Result<
        (),
        ErrorCode,
    >)
        ensures
            match r {
                Ok(_) => old(self).credit_fee_rejection(fee_reward, fee_platform) is None
                    && *final(self) == old(self).after_credit_fee(fee_reward, fee_platform),
                Err(e) => old(self).credit_fee_rejection(fee_reward, fee_platform) == Some(e)
                    && *final(self) == *old(self),
            },
            final(self).reward_per_share >= old(self).reward_per_share,
    {
        if fee_reward as u128 > Self::MAX_AMOUNT || fee_platform as u128 > Self::MAX_AMOUNT {
            return Err(ErrorCode::FeeAmountTooLarge);
        }
        let platform = match self.platform_pool_balance.checked_add(fee_platform) {
            Some(v) => v,
            None => { return Err(ErrorCode::CalculationOverflow); },
        };
        let reward = match self.reward_pool_balance.checked_add(fee_reward) {
            Some(v) => v,
            None => { return Err(ErrorCode::CalculationOverflow); },
        };
        let mut per_share: u128 = self.reward_per_share;
        if self.total_deposited > 0 {
            let delta: u128 = (fee_reward as u128) * Self::PRECISION / (self.total_deposited as u128);
            per_share = match self.reward_per_share.checked_add(delta) {
                Some(v) => v,
                None => { return Err(ErrorCode::CalculationOverflow); },
            };
        }
        self.platform_pool_balance = platform;
        self.reward_pool_balance = reward;
        self.reward_per_share = per_share;
        Ok(())
    }

    /// What a position with the given deposit and debt may claim at the
    /// current accumulator.
    pub fn calculate_claimable_rewards(&self, deposited_amount: u64, reward_debt: u128) -> (r:
        Result<u64, ErrorCode>)
        ensures
            match r {
                Ok(amount) => !Self::claimable_overflows(
                    deposited_amount,
                    self.reward_per_share,
                    reward_debt,
                ) && amount == Self::claimable(deposited_amount, self.reward_per_share, reward_debt),
                Err(e) => e == ErrorCode::CalculationOverflow && Self::claimable_overflows(
                    deposited_amount,
                    self.reward_per_share,
                    reward_debt,
                ),
            },
    {
        claimable_rewards(deposited_amount, self.reward_per_share, reward_debt)
    }

    /// Adds `amount` to the tracked reward pool balance. Refused when the
    /// amount or the new balance would exceed `MAX_AMOUNT`.
    pub fn credit_reward_pool(&mut self, amount: u128) -> (r: Result<(), ErrorCode>)
        ensures
            match r {
                Ok(_) => amount <= Self::MAX_AMOUNT && old(self).reward_pool_balance + amount
                    <= Self::MAX_AMOUNT && *final(self) == (TreasuryPool {
                    reward_pool_balance: (old(self).reward_pool_balance + amount) as u64,
                    ..*old(self)
                }),
                Err(e) => *final(self) == *old(self) && if amount > Self::MAX_AMOUNT {
                    e == ErrorCode::FeeAmountTooLarge
                } else {
                    e == ErrorCode::CalculationOverflow && old(self).reward_pool_balance + amount
                        > Self::MAX_AMOUNT
                },
            },
    {
        if amount > Self::MAX_AMOUNT {
            return Err(ErrorCode::FeeAmountTooLarge);
        }
        let balance: u128 = self.reward_pool_balance as u128 + amount;
        if balance > Self::MAX_AMOUNT {
            return Err(ErrorCode::CalculationOverflow);
        }
        self.reward_pool_balance = balance as u64;
        Ok(())
    }

    /// Takes `amount` from the tracked reward pool balance. Refused when the
    /// amount exceeds `MAX_AMOUNT` or the balance.
    pub fn debit_reward_pool(&mut self, amount: u64) -> (r: Result<(), ErrorCode>)
        ensures
            match r {
                Ok(_) => amount <= Self::MAX_AMOUNT && amount <= old(self).reward_pool_balance
                    && *final(self) == (TreasuryPool {
                    reward_pool_balance: (old(self).reward_pool_balance - amount) as u64,
                    ..*old(self)
                }),
                Err(e) => *final(self) == *old(self) && if amount > Self::MAX_AMOUNT {
                    e == ErrorCode::FeeAmountTooLarge
                } else {
                    e == ErrorCode::CalculationOverflow && amount > old(self).reward_pool_balance
                },
            },
    {
        if amount as u128 > Self::MAX_AMOUNT {
            return Err(ErrorCode::FeeAmountTooLarge);
        }
        if amount > self.reward_pool_balance {
            return Err(ErrorCode::CalculationOverflow);
        }
        self.reward_pool_balance = self.reward_pool_balance - amount;
        Ok(())
    }

    /// Adds `amount` to the tracked platform pool balance. Refused when the
    /// amount or the new balance would exceed `MAX_AMOUNT`.
    pub fn credit_platform_pool(&mut self, amount: u128) -> (r: Result<(), ErrorCode>)
        ensures
            match r {
                Ok(_) => amount <= Self::MAX_AMOUNT && old(self).platform_pool_balance + amount
                    <= Self::MAX_AMOUNT && *final(self) == (TreasuryPool {
                    platform_pool_balance: (old(self).platform_pool_balance + amount) as u64,
                    ..*old(self)
                }),
                Err(e) => *final(self) == *old(self) && if amount > Self::MAX_AMOUNT {
                    e == ErrorCode::FeeAmountTooLarge
                } else {
                    e == ErrorCode::CalculationOverflow && old(self).platform_pool_balance
                        + amount > Self::MAX_AMOUNT
                },
            },
    {
        if amount > Self::MAX_AMOUNT {
            return Err(ErrorCode::FeeAmountTooLarge);
        }
        let balance: u128 = self.platform_pool_balance as u128 + amount;
        if balance > Self::MAX_AMOUNT {
            return Err(ErrorCode::CalculationOverflow);
        }
        self.platform_pool_balance = balance as u64;
        Ok(())
    }

    /// The rewards on hand: the tracked reward pool balance.
    pub fn calculate_available_rewards(&self) -> (available: u128)
        ensures
            available == self.reward_pool_balance,
    {
        self.reward_pool_balance as u128
    }

    /// Rates are fixed: an update changes nothing.
    pub fn update_apy(&mut self, _new_apy: u64) -> (r: Result<(), ErrorCode>)
        ensures
            r is Ok,
            *final(self) == *old(self),
    {
        Ok(())
    }

    /// Credits `fees` to the reward pool without touching the accumulator.
    pub fn distribute_fees(&mut self, fees: u64) -> (r: Result<(), ErrorCode>)
        ensures
            match r {
                Ok(_) => old(self).reward_pool_balance + fees <= Self::MAX_AMOUNT && *final(self)
                    == (TreasuryPool {
                    reward_pool_balance: (old(self).reward_pool_balance + fees) as u64,
                    ..*old(self)
                }),
                Err(e) => *final(self) == *old(self) && if fees > Self::MAX_AMOUNT {
                    e == ErrorCode::FeeAmountTooLarge
                } else {
                    e == ErrorCode::CalculationOverflow && old(self).reward_pool_balance + fees
                        > Self::MAX_AMOUNT
                },
            },
    {
        self.credit_reward_pool(fees as u128)
    }
}

/// What a position with the given deposit and debt may claim at the given
/// accumulator value.
pub fn claimable_rewards(deposited_amount: u64, reward_per_share: u128, reward_debt: u128) -> (r:
    Result<u64, ErrorCode>)
    ensures
        match r {
            Ok(amount) => !TreasuryPool::claimable_overflows(
                deposited_amount,
                reward_per_share,
                reward_debt,
            ) && amount == TreasuryPool::claimable(deposited_amount, reward_per_share, reward_debt),
            Err(e) => e == ErrorCode::CalculationOverflow && TreasuryPool::claimable_overflows(
                deposited_amount,
                reward_per_share,
                reward_debt,
            ),
        },
{
    let accumulated = match (deposited_amount as u128).checked_mul(reward_per_share) {
        Some(v) => v,
        None => { return Err(ErrorCode::CalculationOverflow); },
    };
    if reward_debt > accumulated {
        return Err(ErrorCode::CalculationOverflow);
    }
    let amount: u128 = (accumulated - reward_debt) / TreasuryPool::PRECISION;
    if amount > u64::MAX as u128 {
        return Err(ErrorCode::CalculationOverflow);
    }
    Ok(amount as u64)
}

} // verus!
