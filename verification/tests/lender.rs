use d2d_program_sol::errors::ErrorCode;
use d2d_program_sol::events::{Claimed, DepositMade, RewardsClaimed, SolStaked, SolUnstaked};
use d2d_program_sol::instructions::lender::TRANSACTION_FEE_ESTIMATE;
use d2d_program_sol::instructions::{
    claim_rewards, stake_sol, unstake_sol, ClaimRewards, StakeSol, UnstakeSol,
};
use d2d_program_sol::pubkey::Pubkey;
use d2d_program_sol::states::{BackerDeposit, CustodyAccount, TreasuryPool};

const RENT: u64 = 1_400_000;
const NOW: i64 = 1_700_000_000;

fn backer_key(tag: u8) -> Pubkey {
    Pubkey::new_from_array([tag; 32])
}

fn account(tag: u8, lamports: u64) -> CustodyAccount {
    CustodyAccount { key: backer_key(tag), lamports }
}

fn fresh_pool() -> TreasuryPool {
    TreasuryPool::new(backer_key(1), backer_key(2))
}

fn blank_position() -> BackerDeposit {
    BackerDeposit {
        backer: Pubkey::default(),
        deposited_amount: 0,
        reward_debt: 0,
        claimed_total: 0,
        is_active: false,
    }
}

fn deposit(pool: &mut TreasuryPool, stake: &mut BackerDeposit, who: u8, amount: u64) {
    let mut ctx = StakeSol {
        treasury_pool: *pool,
        lender_stake: *stake,
        lender: account(who, amount + RENT + TRANSACTION_FEE_ESTIMATE),
    };
    stake_sol(&mut ctx, amount, 0, RENT, NOW).unwrap();
    *pool = ctx.treasury_pool;
    *stake = ctx.lender_stake;
}

fn withdraw(
    pool: &mut TreasuryPool,
    stake: &mut BackerDeposit,
    amount: u64,
) -> Result<SolUnstaked, ErrorCode> {
    let mut ctx = UnstakeSol {
        treasury_pool: *pool,
        treasury_pda: account(9, pool.liquid_balance),
        lender_stake: *stake,
    };
    let r = unstake_sol(&mut ctx, amount);
    *pool = ctx.treasury_pool;
    *stake = ctx.lender_stake;
    r
}

#[test]
fn first_deposit_opens_the_position() {
    let mut ctx = StakeSol {
        treasury_pool: fresh_pool(),
        lender_stake: blank_position(),
        lender: account(10, 2_000_000_000),
    };
    let (staked, made) = stake_sol(&mut ctx, 1_000_000_000, 30, RENT, NOW).unwrap();
    assert_eq!(
        ctx.lender_stake,
        BackerDeposit {
            backer: backer_key(10),
            deposited_amount: 1_000_000_000,
            reward_debt: 0,
            claimed_total: 0,
            is_active: true,
        }
    );
    assert_eq!(ctx.treasury_pool.total_deposited, 1_000_000_000);
    assert_eq!(ctx.treasury_pool.liquid_balance, 1_000_000_000);
    assert_eq!(ctx.treasury_pool.reward_per_share, 0);
    assert_eq!(ctx.treasury_pool.reward_pool_balance, 0);
    assert_eq!(ctx.treasury_pool.platform_pool_balance, 0);
    assert_eq!(ctx.lender, account(10, 2_000_000_000));
    assert_eq!(
        staked,
        SolStaked {
            lender: backer_key(10),
            amount: 1_000_000_000,
            total_staked: 1_000_000_000,
            lock_period: 0,
        }
    );
    assert_eq!(
        made,
        DepositMade {
            backer: backer_key(10),
            deposit_amount: 1_000_000_000,
            net_deposit: 1_000_000_000,
            reward_fee: 0,
            platform_fee: 0,
            total_deposited: 1_000_000_000,
            liquid_balance: 1_000_000_000,
            deposited_at: NOW,
        }
    );
}

#[test]
fn deposit_credit_claimable_then_full_withdrawal_deactivates() {
    let mut pool = fresh_pool();
    let mut a = blank_position();
    deposit(&mut pool, &mut a, 10, 1_000_000_000);
    assert_eq!(pool.credit_fee_to_pool(10_000_000, 1_000_000), Ok(()));
    assert_eq!(a.calculate_claimable_rewards(pool.reward_per_share), Ok(10_000_000));
    assert_eq!(pool.calculate_claimable_rewards(a.deposited_amount, a.reward_debt), Ok(10_000_000));

    let unstaked = withdraw(&mut pool, &mut a, 1_000_000_000).unwrap();
    assert_eq!(
        unstaked,
        SolUnstaked { lender: backer_key(10), amount: 1_000_000_000, remaining_staked: 0 }
    );
    assert!(!a.is_active);
    assert_eq!(a.reward_debt, 0);
    assert_eq!(a.deposited_amount, 0);
    assert_eq!(pool.total_deposited, 0);
    assert_eq!(pool.liquid_balance, 0);
    assert_eq!(pool.reward_pool_balance, 10_000_000);
    assert_eq!(pool.reward_per_share, 10_000_000_000);
}

#[test]
fn first_deposit_after_orphan_rewards_raises_the_accumulator() {
    let mut pool = fresh_pool();
    assert_eq!(pool.credit_fee_to_pool(5_000_000, 0), Ok(()));
    assert_eq!(pool.reward_pool_balance, 5_000_000);
    assert_eq!(pool.reward_per_share, 0);

    let mut b = blank_position();
    deposit(&mut pool, &mut b, 11, 2_000_000_000);
    assert_eq!(pool.reward_per_share, 2_500_000_000);
    assert_eq!(pool.reward_pool_balance, 5_000_000);
    assert_eq!(pool.total_deposited, 2_000_000_000);
    assert_eq!(b.deposited_amount, 2_000_000_000);
    // The position is settled at the accumulator as the deposit leaves it.
    assert_eq!(b.reward_debt, 5_000_000_000_000_000_000);
    assert_eq!(b.calculate_claimable_rewards(pool.reward_per_share), Ok(0));
}

#[test]
fn orphan_rewards_are_absorbed_only_by_the_first_deposit() {
    let mut pool = fresh_pool();
    assert_eq!(pool.credit_fee_to_pool(5_000_000, 0), Ok(()));
    let mut b = blank_position();
    deposit(&mut pool, &mut b, 11, 2_000_000_000);
    let mut c = blank_position();
    deposit(&mut pool, &mut c, 12, 1_000_000_000);
    assert_eq!(pool.reward_per_share, 2_500_000_000);
    assert_eq!(c.reward_debt, 2_500_000_000_000_000_000);
    assert_eq!(pool.total_deposited, 3_000_000_000);
}

#[test]
fn second_deposit_settles_before_the_principal_changes() {
    let mut pool = fresh_pool();
    let mut a = blank_position();
    deposit(&mut pool, &mut a, 10, 1_000_000_000);
    assert_eq!(pool.credit_fee_to_pool(10_000_000, 0), Ok(()));
    a.claimed_total = 77;
    deposit(&mut pool, &mut a, 10, 500_000_000);
    assert_eq!(a.deposited_amount, 1_500_000_000);
    assert_eq!(a.reward_debt, 1_500_000_000u128 * 10_000_000_000u128);
    assert_eq!(a.claimed_total, 77);
    assert_eq!(a.backer, backer_key(10));
    assert_eq!(a.calculate_claimable_rewards(pool.reward_per_share), Ok(0));
    assert_eq!(pool.total_deposited, 1_500_000_000);
    assert_eq!(pool.liquid_balance, 1_500_000_000);
    assert_eq!(pool.reward_per_share, 10_000_000_000);
}

#[test]
fn emptied_position_is_active_again_after_a_deposit() {
    let mut pool = fresh_pool();
    let mut a = blank_position();
    deposit(&mut pool, &mut a, 10, 400);
    a.claimed_total = 5;
    withdraw(&mut pool, &mut a, 400).unwrap();
    assert!(!a.is_active);
    deposit(&mut pool, &mut a, 10, 250);
    assert!(a.is_active);
    assert_eq!(a.deposited_amount, 250);
    assert_eq!(a.backer, backer_key(10));
    assert_eq!(a.claimed_total, 5);
    assert_eq!(pool.total_deposited, 250);
}

#[test]
fn deposit_is_refused_while_paused() {
    let mut pool = fresh_pool();
    pool.emergency_pause = true;
    let mut ctx = StakeSol {
        treasury_pool: pool,
        lender_stake: blank_position(),
        lender: account(10, u64::MAX),
    };
    let before = ctx;
    assert_eq!(stake_sol(&mut ctx, 0, 0, RENT, NOW), Err(ErrorCode::ProgramPaused));
    assert_eq!(ctx, before);
}

#[test]
fn deposit_of_nothing_is_refused() {
    let mut ctx = StakeSol {
        treasury_pool: fresh_pool(),
        lender_stake: blank_position(),
        lender: account(10, u64::MAX),
    };
    let before = ctx;
    assert_eq!(stake_sol(&mut ctx, 0, 0, RENT, NOW), Err(ErrorCode::InvalidAmount));
    assert_eq!(ctx, before);
}

#[test]
fn deposit_needs_rent_and_fee_on_top_for_a_new_position() {
    let mut ctx = StakeSol {
        treasury_pool: fresh_pool(),
        lender_stake: blank_position(),
        lender: account(10, 1_000 + RENT + TRANSACTION_FEE_ESTIMATE - 1),
    };
    let before = ctx;
    assert_eq!(stake_sol(&mut ctx, 1_000, 0, RENT, NOW), Err(ErrorCode::InsufficientDeposit));
    assert_eq!(ctx, before);
    ctx.lender.lamports += 1;
    assert!(stake_sol(&mut ctx, 1_000, 0, RENT, NOW).is_ok());
    assert_eq!(TRANSACTION_FEE_ESTIMATE, 10_000);
}

#[test]
fn deposit_into_an_existing_position_needs_no_rent() {
    let mut pool = fresh_pool();
    let mut a = blank_position();
    deposit(&mut pool, &mut a, 10, 1_000);
    let mut ctx = StakeSol {
        treasury_pool: pool,
        lender_stake: a,
        lender: account(10, 500 + TRANSACTION_FEE_ESTIMATE - 1),
    };
    assert_eq!(stake_sol(&mut ctx, 500, 0, RENT, NOW), Err(ErrorCode::InsufficientDeposit));
    ctx.lender.lamports += 1;
    assert!(stake_sol(&mut ctx, 500, 0, RENT, NOW).is_ok());
    assert_eq!(ctx.lender_stake.deposited_amount, 1_500);
}

#[test]
fn deposit_whose_required_balance_overflows_is_refused() {
    let mut ctx = StakeSol {
        treasury_pool: fresh_pool(),
        lender_stake: blank_position(),
        lender: account(10, u64::MAX),
    };
    assert_eq!(
        stake_sol(&mut ctx, u64::MAX - RENT, 0, RENT, NOW),
        Err(ErrorCode::CalculationOverflow)
    );
}

#[test]
fn deposit_into_a_stopped_position_that_holds_principal_is_refused() {
    let mut ctx = StakeSol {
        treasury_pool: fresh_pool(),
        lender_stake: BackerDeposit {
            backer: backer_key(10),
            deposited_amount: 5,
            reward_debt: 0,
            claimed_total: 0,
            is_active: false,
        },
        lender: account(10, 1_000_000_000),
    };
    let before = ctx;
    assert_eq!(stake_sol(&mut ctx, 1_000, 0, RENT, NOW), Err(ErrorCode::InactiveStake));
    assert_eq!(ctx, before);
}

#[test]
fn deposit_that_overflows_the_total_changes_nothing() {
    let mut pool = fresh_pool();
    pool.total_deposited = u64::MAX - 10;
    let mut ctx = StakeSol {
        treasury_pool: pool,
        lender_stake: blank_position(),
        lender: account(10, 1_000_000_000),
    };
    let before = ctx;
    assert_eq!(stake_sol(&mut ctx, 11, 0, RENT, NOW), Err(ErrorCode::CalculationOverflow));
    assert_eq!(ctx, before);
    assert!(stake_sol(&mut ctx, 10, 0, RENT, NOW).is_ok());
}

#[test]
fn deposit_that_overflows_the_accumulator_changes_nothing() {
    let mut pool = fresh_pool();
    pool.reward_pool_balance = 5;
    pool.reward_per_share = u128::MAX - 4_999_999_999_999;
    let mut ctx = StakeSol {
        treasury_pool: pool,
        lender_stake: blank_position(),
        lender: account(10, 1_000_000_000),
    };
    let before = ctx;
    assert_eq!(stake_sol(&mut ctx, 1, 0, RENT, NOW), Err(ErrorCode::CalculationOverflow));
    assert_eq!(ctx, before);
}

#[test]
fn partial_withdrawal_settles_what_stays() {
    let mut pool = fresh_pool();
    let mut a = blank_position();
    deposit(&mut pool, &mut a, 10, 1_000_000_000);
    assert_eq!(pool.credit_fee_to_pool(10_000_000, 0), Ok(()));
    let unstaked = withdraw(&mut pool, &mut a, 400_000_000).unwrap();
    assert_eq!(
        unstaked,
        SolUnstaked { lender: backer_key(10), amount: 400_000_000, remaining_staked: 600_000_000 }
    );
    assert!(a.is_active);
    assert_eq!(a.deposited_amount, 600_000_000);
    assert_eq!(a.reward_debt, 600_000_000u128 * 10_000_000_000u128);
    assert_eq!(pool.total_deposited, 600_000_000);
    assert_eq!(pool.liquid_balance, 600_000_000);
    assert_eq!(pool.reward_pool_balance, 10_000_000);
}

#[test]
fn withdrawal_refusals_in_their_order() {
    let mut pool = fresh_pool();
    let mut a = blank_position();
    deposit(&mut pool, &mut a, 10, 1_000);
    let base = UnstakeSol { treasury_pool: pool, treasury_pda: account(9, 1_000), lender_stake: a };

    let mut ctx = base;
    ctx.treasury_pool.emergency_pause = true;
    ctx.lender_stake.is_active = false;
    assert_eq!(unstake_sol(&mut ctx, 0), Err(ErrorCode::ProgramPaused));

    let mut ctx = base;
    ctx.lender_stake.is_active = false;
    let before = ctx;
    assert_eq!(unstake_sol(&mut ctx, 0), Err(ErrorCode::InactiveStake));
    assert_eq!(ctx, before);

    let mut ctx = base;
    assert_eq!(unstake_sol(&mut ctx, 0), Err(ErrorCode::InvalidAmount));
    assert_eq!(unstake_sol(&mut ctx, 1_001), Err(ErrorCode::InsufficientStake));

    let mut ctx = base;
    ctx.treasury_pool.liquid_balance = 999;
    ctx.treasury_pda.lamports = 0;
    assert_eq!(unstake_sol(&mut ctx, 1_000), Err(ErrorCode::InsufficientLiquidBalance));

    let mut ctx = base;
    ctx.treasury_pda.lamports = 999;
    let before = ctx;
    assert_eq!(unstake_sol(&mut ctx, 1_000), Err(ErrorCode::InsufficientTreasuryFunds));
    assert_eq!(ctx, before);

    let mut ctx = base;
    ctx.treasury_pool.total_deposited = 999;
    let before = ctx;
    assert_eq!(unstake_sol(&mut ctx, 1_000), Err(ErrorCode::CalculationOverflow));
    assert_eq!(ctx, before);

    let mut ctx = base;
    ctx.treasury_pool.reward_per_share = u128::MAX;
    let before = ctx;
    assert_eq!(unstake_sol(&mut ctx, 1), Err(ErrorCode::CalculationOverflow));
    assert_eq!(ctx, before);
    assert!(unstake_sol(&mut ctx, 1_000).is_ok());
}

#[test]
fn total_equals_the_sum_of_active_deposits_over_a_run() {
    let mut pool = fresh_pool();
    let mut positions = [blank_position(), blank_position(), blank_position()];
    let steps: [(usize, bool, u64); 9] = [
        (0, true, 700),
        (1, true, 300),
        (0, false, 200),
        (2, true, 50),
        (1, false, 300),
        (1, false, 1),
        (0, false, 501),
        (1, true, 40),
        (0, false, 500),
    ];
    for (who, is_deposit, amount) in steps {
        if is_deposit {
            deposit(&mut pool, &mut positions[who], 10 + who as u8, amount);
        } else {
            let _ = withdraw(&mut pool, &mut positions[who], amount);
        }
        let mut sum: u64 = 0;
        for p in positions.iter() {
            if p.is_active {
                sum += p.deposited_amount;
            }
        }
        assert_eq!(pool.total_deposited, sum);
        assert_eq!(pool.liquid_balance, sum);
    }
    assert_eq!(pool.total_deposited, 90);
    assert!(!positions[0].is_active);
}

fn claim_context() -> ClaimRewards {
    let mut pool = fresh_pool();
    let mut a = blank_position();
    deposit(&mut pool, &mut a, 10, 1_000_000_000);
    pool.credit_fee_to_pool(10_000_000, 1_000_000).unwrap();
    ClaimRewards {
        treasury_pool: pool,
        reward_pool: account(3, 10_000_000),
        lender_stake: a,
        lender: account(10, 5),
    }
}

#[test]
fn claim_pays_what_is_claimable_and_settles() {
    let mut ctx = claim_context();
    let (paid, claimed) = claim_rewards(&mut ctx, NOW).unwrap();
    assert_eq!(
        paid,
        RewardsClaimed { lender: backer_key(10), amount: 10_000_000, total_claimed: 10_000_000 }
    );
    assert_eq!(
        claimed,
        Claimed {
            backer: backer_key(10),
            amount: 10_000_000,
            claimed_total: 10_000_000,
            reward_per_share: 10_000_000_000,
            claimed_at: NOW,
        }
    );
    assert_eq!(ctx.treasury_pool.reward_pool_balance, 0);
    assert_eq!(ctx.treasury_pool.platform_pool_balance, 1_000_000);
    assert_eq!(ctx.treasury_pool.total_deposited, 1_000_000_000);
    assert_eq!(ctx.reward_pool.lamports, 0);
    assert_eq!(ctx.lender.lamports, 10_000_005);
    assert_eq!(ctx.lender_stake.claimed_total, 10_000_000);
    assert_eq!(ctx.lender_stake.reward_debt, 10_000_000_000_000_000_000);
    assert_eq!(ctx.lender_stake.deposited_amount, 1_000_000_000);
}

#[test]
fn second_claim_finds_nothing() {
    let mut ctx = claim_context();
    ctx.reward_pool.lamports = 50_000_000;
    ctx.treasury_pool.reward_pool_balance = 50_000_000;
    assert!(claim_rewards(&mut ctx, NOW).is_ok());
    let before = ctx;
    assert_eq!(claim_rewards(&mut ctx, NOW + 1), Err(ErrorCode::NoRewardsToClaim));
    assert_eq!(ctx, before);
}

#[test]
fn claim_after_another_credit_pays_only_the_new_share() {
    let mut ctx = claim_context();
    ctx.reward_pool.lamports = 50_000_000;
    assert!(claim_rewards(&mut ctx, NOW).is_ok());
    ctx.treasury_pool.credit_fee_to_pool(3_000_000, 0).unwrap();
    let (paid, _) = claim_rewards(&mut ctx, NOW + 5).unwrap();
    assert_eq!(paid.amount, 3_000_000);
    assert_eq!(paid.total_claimed, 13_000_000);
    assert_eq!(ctx.lender.lamports, 13_000_005);
    assert_eq!(ctx.reward_pool.lamports, 37_000_000);
}

#[test]
fn claim_refusals_in_their_order() {
    let base = claim_context();

    let mut ctx = base;
    ctx.treasury_pool.emergency_pause = true;
    ctx.lender_stake.is_active = false;
    assert_eq!(claim_rewards(&mut ctx, NOW), Err(ErrorCode::ProgramPaused));

    let mut ctx = base;
    ctx.lender_stake.is_active = false;
    let before = ctx;
    assert_eq!(claim_rewards(&mut ctx, NOW), Err(ErrorCode::InactiveStake));
    assert_eq!(ctx, before);

    let mut ctx = base;
    ctx.lender_stake.reward_debt = u128::MAX;
    assert_eq!(claim_rewards(&mut ctx, NOW), Err(ErrorCode::CalculationOverflow));

    let mut ctx = base;
    ctx.lender_stake.reward_debt = 10_000_000_000_000_000_000 - 999_999_999_999;
    assert_eq!(claim_rewards(&mut ctx, NOW), Err(ErrorCode::NoRewardsToClaim));

    let mut ctx = base;
    ctx.treasury_pool.reward_pool_balance = 9_999_999;
    let before = ctx;
    assert_eq!(claim_rewards(&mut ctx, NOW), Err(ErrorCode::InsufficientTreasuryFunds));
    assert_eq!(ctx, before);

    let mut ctx = base;
    ctx.reward_pool.lamports = 9_999_999;
    let before = ctx;
    assert_eq!(claim_rewards(&mut ctx, NOW), Err(ErrorCode::InsufficientTreasuryFunds));
    assert_eq!(ctx, before);

    let mut ctx = base;
    ctx.lender_stake.claimed_total = u64::MAX - 9_999_999;
    let before = ctx;
    assert_eq!(claim_rewards(&mut ctx, NOW), Err(ErrorCode::CalculationOverflow));
    assert_eq!(ctx, before);

    let mut ctx = base;
    ctx.lender.lamports = u64::MAX - 9_999_999;
    let before = ctx;
    assert_eq!(claim_rewards(&mut ctx, NOW), Err(ErrorCode::CalculationOverflow));
    assert_eq!(ctx, before);
}

#[test]
fn claim_above_the_maximum_amount_is_refused() {
    let mut ctx = ClaimRewards {
        treasury_pool: fresh_pool(),
        reward_pool: account(3, u64::MAX),
        lender_stake: BackerDeposit {
            backer: backer_key(10),
            deposited_amount: 2_000_000_000_000_000_000,
            reward_debt: 0,
            claimed_total: 0,
            is_active: true,
        },
        lender: account(10, 0),
    };
    ctx.treasury_pool.reward_per_share = 1_000_000_000_000;
    ctx.treasury_pool.reward_pool_balance = u64::MAX;
    let before = ctx;
    assert_eq!(claim_rewards(&mut ctx, NOW), Err(ErrorCode::FeeAmountTooLarge));
    assert_eq!(ctx, before);
}
