//! What holds of the ledger over whole runs of operations.

use vstd::prelude::*;
use crate::errors::ErrorCode;
use crate::instructions::admin::{ConfirmDeployment, CreateDeployRequest, CreditFeeToPool};
use crate::instructions::developer::PaySubscription;
use crate::instructions::lender::{ClaimRewards, StakeSol, UnstakeSol};
use crate::states::{BackerDeposit, CustodyAccount, TreasuryPool};

verus! {

/// The ledger together with every position that it accounts for.
pub struct Book {
    /// The ledger.
    pub pool: TreasuryPool,
    /// The positions, blank ones included.
    pub positions: Seq<BackerDeposit>,
}

/// A deposit or a withdrawal, with what the caller observed when asking.
pub enum PrincipalOperation {
    /// The backer of position `position` deposits `amount`.
    Deposit { position: int, lender: CustodyAccount, amount: u64, rent_exemption: u64 },
    /// The backer of position `position` withdraws `amount`.
    Withdraw { position: int, treasury_pda: CustodyAccount, amount: u64 },
}

/// What a position adds to the pool's total: its deposit while it is active.
pub open spec fn active_deposit(position: BackerDeposit) -> int {
    if position.is_active {
        position.deposited_amount as int
    } else {
        0
    }
}

/// The sum of the deposits of the active positions.
pub open spec fn active_principal(positions: Seq<BackerDeposit>) -> int
    decreases positions.len(),
{
    if positions.len() == 0 {
        0
    } else {
        active_principal(positions.drop_last()) + active_deposit(positions.last())
    }
}

impl Book {
    /// Every position is well formed.
    pub open spec fn well_formed(self) -> bool {
        forall|i: int| 0 <= i < self.positions.len() ==> (#[trigger] self.positions[i]).well_formed()
    }

    /// The ledger's total is the sum of the deposits of the active positions.
    pub open spec fn conserved(self) -> bool {
        self.pool.total_deposited == active_principal(self.positions)
    }

    /// The book after `operation` is asked for: changed as the operation says
    /// where it is accepted, unchanged where it is refused or names no
    /// position.
    pub open spec fn apply(self, operation: PrincipalOperation) -> Book {
        match operation {
            PrincipalOperation::Deposit { position, lender, amount, rent_exemption } => {
                if 0 <= position < self.positions.len() {
                    let ctx = StakeSol {
                        treasury_pool: self.pool,
                        lender_stake: self.positions[position],
                        lender,
                    };
                    if ctx.stake_rejection(amount, rent_exemption) is None {
                        Book {
                            pool: ctx.after_stake(amount).treasury_pool,
                            positions: self.positions.update(
                                position,
                                ctx.after_stake(amount).lender_stake,
                            ),
                        }
                    } else {
                        self
                    }
                } else {
                    self
                }
            },
            PrincipalOperation::Withdraw { position, treasury_pda, amount } => {
                if 0 <= position < self.positions.len() {
                    let ctx = UnstakeSol {
                        treasury_pool: self.pool,
                        treasury_pda,
                        lender_stake: self.positions[position],
                    };
                    if ctx.unstake_rejection(amount) is None {
                        Book {
                            pool: ctx.after_unstake(amount).treasury_pool,
                            positions: self.positions.update(
                                position,
                                ctx.after_unstake(amount).lender_stake,
                            ),
                        }
                    } else {
                        self
                    }
                } else {
                    self
                }
            },
        }
    }

    /// The book after each of `operations` in turn.
    pub open spec fn apply_all(self, operations: Seq<PrincipalOperation>) -> Book
        decreases operations.len(),
    {
        if operations.len() == 0 {
            self
        } else {
            self.apply_all(operations.drop_last()).apply(operations.last())
        }
    }
}

/// Whether the operation is asked for by somebody: a deposit comes from a
/// backer whose identity is not the all-zero one.
pub open spec fn has_depositor(operation: PrincipalOperation) -> bool {
    operation matches PrincipalOperation::Deposit { lender, .. } ==> !lender.key.is_unassigned()
}

/// Replacing one position changes the sum by the difference of what the two
/// add to it.
pub proof fn lemma_active_principal_update(
    positions: Seq<BackerDeposit>,
    i: int,
    position: BackerDeposit,
)
    requires
        0 <= i < positions.len(),
    ensures
        active_principal(positions.update(i, position)) == active_principal(positions)
            - active_deposit(positions[i]) + active_deposit(position),
    decreases positions.len(),
{
    let updated = positions.update(i, position);
    if i == positions.len() - 1 {
        assert(updated.drop_last() =~= positions.drop_last());
    } else {
        assert(updated.drop_last() =~= positions.drop_last().update(i, position));
        lemma_active_principal_update(positions.drop_last(), i, position);
    }
}

/// One deposit or withdrawal keeps the ledger's total equal to the sum of the
/// deposits of the active positions, and keeps the positions well formed.
pub proof fn lemma_operation_conserves(book: Book, operation: PrincipalOperation)
    requires
        book.well_formed(),
        book.conserved(),
        has_depositor(operation),
    ensures
        book.apply(operation).well_formed(),
        book.apply(operation).conserved(),
{
    let after = book.apply(operation);
    match operation {
        PrincipalOperation::Deposit { position, lender, amount, rent_exemption } => {
            if 0 <= position < book.positions.len() {
                let ctx = StakeSol {
                    treasury_pool: book.pool,
                    lender_stake: book.positions[position],
                    lender,
                };
                if ctx.stake_rejection(amount, rent_exemption) is None {
                    assert(book.positions[position].well_formed());
                    lemma_active_principal_update(
                        book.positions,
                        position,
                        ctx.after_stake(amount).lender_stake,
                    );
                    assert(ctx.after_stake(amount).lender_stake.well_formed());
                }
            }
        },
        PrincipalOperation::Withdraw { position, treasury_pda, amount } => {
            if 0 <= position < book.positions.len() {
                let ctx = UnstakeSol {
                    treasury_pool: book.pool,
                    treasury_pda,
                    lender_stake: book.positions[position],
                };
                if ctx.unstake_rejection(amount) is None {
                    assert(book.positions[position].well_formed());
                    lemma_active_principal_update(
                        book.positions,
                        position,
                        ctx.after_unstake(amount).lender_stake,
                    );
                    assert(TreasuryPool::accrued(0, book.pool.reward_per_share) == 0);
                    assert(ctx.after_unstake(amount).lender_stake.well_formed());
                }
            }
        },
    }
}

/// Conservation: over any run of deposits and withdrawals, with no fee
/// credited in between, the ledger's total stays equal to the sum of the
/// deposits of the active positions.
pub proof fn lemma_conservation(book: Book, operations: Seq<PrincipalOperation>)
    requires
        book.well_formed(),
        book.conserved(),
        forall|i: int| 0 <= i < operations.len() ==> has_depositor(#[trigger] operations[i]),
    ensures
        book.apply_all(operations).well_formed(),
        book.apply_all(operations).conserved(),
    decreases operations.len(),
{
    if operations.len() > 0 {
        let earlier = operations.drop_last();
        assert forall|i: int| 0 <= i < earlier.len() implies has_depositor(
            #[trigger] earlier[i],
        ) by {
            assert(earlier[i] == operations[i]);
        }
        lemma_conservation(book, earlier);
        lemma_operation_conserves(book.apply_all(earlier), operations.last());
    }
}

/// The ledger after each credit of `fees` (reward fee, platform fee) is
/// asked for in turn.
pub open spec fn after_credits(pool: TreasuryPool, fees: Seq<(u64, u64)>) -> TreasuryPool
    decreases fees.len(),
{
    if fees.len() == 0 {
        pool
    } else {
        after_credits(pool, fees.drop_last()).credited(fees.last().0, fees.last().1)
    }
}

/// Whether each credit of `fees` is accepted when asked for in turn.
pub open spec fn credits_accepted(pool: TreasuryPool, fees: Seq<(u64, u64)>) -> bool
    decreases fees.len(),
{
    if fees.len() == 0 {
        true
    } else {
        &&& credits_accepted(pool, fees.drop_last())
        &&& after_credits(pool, fees.drop_last()).credit_fee_rejection(
            fees.last().0,
            fees.last().1,
        ) is None
    }
}

/// The sum of the reward fees of `fees`.
pub open spec fn total_reward_fees(fees: Seq<(u64, u64)>) -> int
    decreases fees.len(),
{
    if fees.len() == 0 {
        0
    } else {
        total_reward_fees(fees.drop_last()) + fees.last().0
    }
}

/// Accumulator monotonicity: over any run of fee credits, accepted or
/// refused, `reward_per_share` never falls, and the pool's total stays as it
/// was.
pub proof fn lemma_accumulator_monotone(pool: TreasuryPool, fees: Seq<(u64, u64)>)
    ensures
        after_credits(pool, fees).reward_per_share >= pool.reward_per_share,
        after_credits(pool, fees).total_deposited == pool.total_deposited,
    decreases fees.len(),
{
    if fees.len() > 0 {
        lemma_accumulator_monotone(pool, fees.drop_last());
        let before = after_credits(pool, fees.drop_last());
        lemma_delta_bounds(fees.last().0, before.total_deposited);
    }
}

/// What one credit adds to the accumulator is the fee per deposited unit,
/// scaled and rounded down: it is not negative, and it falls short of the
/// exact quotient by less than one.
pub proof fn lemma_delta_bounds(fee_reward: u64, total_deposited: u64)
    ensures
        0 <= TreasuryPool::accumulator_delta(fee_reward, total_deposited),
        total_deposited > 0 ==> {
            let delta = TreasuryPool::accumulator_delta(fee_reward, total_deposited);
            &&& delta * total_deposited <= fee_reward * TreasuryPool::PRECISION
            &&& fee_reward * TreasuryPool::PRECISION <= delta * total_deposited + (total_deposited
                - 1)
        },
{
    if total_deposited > 0 {
        let x = fee_reward as int * TreasuryPool::PRECISION as int;
        let d = total_deposited as int;
        assert(0 <= x) by (nonlinear_arith)
            requires
                x == fee_reward as int * TreasuryPool::PRECISION as int,
        ;
        vstd::arithmetic::div_mod::lemma_fundamental_div_mod(x, d);
        vstd::arithmetic::div_mod::lemma_mod_bound(x, d);
        vstd::arithmetic::div_mod::lemma_div_pos_is_pos(x, d);
        assert(d * (x / d) == (x / d) * d) by (nonlinear_arith);
    }
}

/// Over a run of accepted credits the accumulator gains, per deposited unit,
/// the reward fees credited, scaled, less under one for each credit.
pub proof fn lemma_accumulator_gain(pool: TreasuryPool, fees: Seq<(u64, u64)>)
    requires
        credits_accepted(pool, fees),
    ensures
        ({
            let gain = after_credits(pool, fees).reward_per_share - pool.reward_per_share;
            let total = pool.total_deposited as int;
            let credited = total_reward_fees(fees) * TreasuryPool::PRECISION;
            &&& 0 <= gain
            &&& 0 <= total_reward_fees(fees)
            &&& total == 0 ==> gain == 0
            &&& total > 0 ==> gain * total <= credited <= gain * total + fees.len() * (total - 1)
        }),
    decreases fees.len(),
{
    if fees.len() > 0 {
        let earlier = fees.drop_last();
        lemma_accumulator_gain(pool, earlier);
        lemma_accumulator_monotone(pool, earlier);
        let before = after_credits(pool, earlier);
        let fee = fees.last().0;
        lemma_delta_bounds(fee, before.total_deposited);
        let total = pool.total_deposited as int;
        let delta = TreasuryPool::accumulator_delta(fee, before.total_deposited);
        let gain_before = before.reward_per_share - pool.reward_per_share;
        let precision = TreasuryPool::PRECISION as int;
        let sum_before = total_reward_fees(earlier);
        assert((gain_before + delta) * total == gain_before * total + delta * total)
            by (nonlinear_arith);
        assert((sum_before + fee) * precision == sum_before * precision + fee * precision)
            by (nonlinear_arith);
        assert(fees.len() * (total - 1) == earlier.len() * (total - 1) + (total - 1))
            by (nonlinear_arith)
            requires
                fees.len() == earlier.len() + 1,
        ;
    }
}

/// Claim correctness: a position of `D` units that was settled when the run
/// of accepted credits began, in a pool whose total stayed at `T >= D`, may
/// claim its share `D * F / T` of the reward fees `F` credited, rounded
/// down. It is never more than the share. It falls short of it by the
/// rounding of the claim itself, under one unit, and by the rounding of the
/// accumulator, under `D / PRECISION` for each credit.
pub proof fn lemma_claim_share(pool: TreasuryPool, fees: Seq<(u64, u64)>, position: BackerDeposit)
    requires
        position.deposited_amount <= pool.total_deposited,
        position.reward_debt == TreasuryPool::accrued(
            position.deposited_amount,
            pool.reward_per_share,
        ),
        credits_accepted(pool, fees),
    ensures
        ({
            let deposit = position.deposited_amount as int;
            let total = pool.total_deposited as int;
            let credited = total_reward_fees(fees);
            let precision = TreasuryPool::PRECISION as int;
            let claim = TreasuryPool::claimable(
                position.deposited_amount,
                after_credits(pool, fees).reward_per_share,
                position.reward_debt,
            );
            &&& 0 <= claim
            &&& claim * total <= deposit * credited
            &&& deposit * credited * precision <= (claim * precision + precision - 1) * total
                + fees.len() * deposit * (total - 1)
        }),
{
    lemma_accumulator_gain(pool, fees);
    let deposit = position.deposited_amount as int;
    let total = pool.total_deposited as int;
    let credited = total_reward_fees(fees);
    let precision = TreasuryPool::PRECISION as int;
    let before = pool.reward_per_share as int;
    let after = after_credits(pool, fees).reward_per_share as int;
    let gain = after - before;
    let count = fees.len() as int;
    let earned = deposit * gain;
    let claim = TreasuryPool::claimable(
        position.deposited_amount,
        after_credits(pool, fees).reward_per_share,
        position.reward_debt,
    );
    assert(deposit * after - deposit * before == earned) by (nonlinear_arith)
        requires
            earned == deposit * (after - before),
    ;
    assert(0 <= earned) by (nonlinear_arith)
        requires
            earned == deposit * gain,
            0 <= deposit,
            0 <= gain,
    ;
    assert(claim == earned / precision);
    assert(claim * precision <= earned <= claim * precision + precision - 1);
    if total == 0 {
        assert(deposit == 0);
        assert(earned == 0) by (nonlinear_arith)
            requires
                earned == deposit * gain,
                deposit == 0,
        ;
        assert(deposit * credited == 0) by (nonlinear_arith)
            requires
                deposit == 0,
        ;
        assert(claim * total == 0) by (nonlinear_arith)
            requires
                total == 0,
        ;
        assert(deposit * credited * precision == 0);
        assert((claim * precision + precision - 1) * total + count * deposit * (total - 1) == 0)
            by (nonlinear_arith)
            requires
                total == 0,
                deposit == 0,
        ;
    } else {
        let scaled = credited * precision;
        assert(gain * total <= scaled <= gain * total + count * (total - 1));
        assert(claim * total * precision <= deposit * credited * precision) by (nonlinear_arith)
            requires
                claim * precision <= earned,
                earned == deposit * gain,
                gain * total <= scaled,
                scaled == credited * precision,
                0 <= deposit,
                0 < total,
        ;
        assert(claim * total <= deposit * credited) by (nonlinear_arith)
            requires
                claim * total * precision <= deposit * credited * precision,
                0 < precision,
        ;
        assert(deposit * credited * precision <= (claim * precision + precision - 1) * total
            + count * deposit * (total - 1)) by (nonlinear_arith)
            requires
                earned <= claim * precision + precision - 1,
                earned == deposit * gain,
                scaled <= gain * total + count * (total - 1),
                scaled == credited * precision,
                0 <= deposit,
                0 < total,
        ;
    }
}

/// Idempotent settlement: settling a position twice at the same accumulator
/// leaves it as the first settlement did.
pub proof fn lemma_settlement_idempotent(position: BackerDeposit, reward_per_share: u128)
    ensures
        position.settled(reward_per_share).settled(reward_per_share) == position.settled(
            reward_per_share,
        ),
{
}

/// No double claim: a claim that follows an accepted claim, with no fee
/// credited in between, finds nothing to claim.
pub proof fn lemma_no_double_claim(ctx: ClaimRewards)
    requires
        ctx.claim_rejection() is None,
    ensures
        ctx.after_claim().claimable() == 0,
        ctx.after_claim().claim_rejection() == Some(ErrorCode::NoRewardsToClaim),
{
}

/// Pause, for backers: while the ledger is paused, a deposit, a withdrawal
/// and a claim are each refused as paused, whatever else holds.
pub proof fn lemma_pause_refuses_backers(
    deposit: StakeSol,
    deposit_amount: u64,
    rent_exemption: u64,
    withdrawal: UnstakeSol,
    withdrawal_amount: u64,
    claim: ClaimRewards,
)
    requires
        deposit.treasury_pool.emergency_pause,
        withdrawal.treasury_pool.emergency_pause,
        claim.treasury_pool.emergency_pause,
    ensures
        deposit.stake_rejection(deposit_amount, rent_exemption) == Some(ErrorCode::ProgramPaused),
        withdrawal.unstake_rejection(withdrawal_amount) == Some(ErrorCode::ProgramPaused),
        claim.claim_rejection() == Some(ErrorCode::ProgramPaused),
{
}

/// Pause, for sessions and fees: while the ledger is paused, opening a
/// session, confirming a deployment either way, renewing a subscription and
/// crediting fees are each refused.
pub proof fn lemma_pause_refuses_sessions(
    create: CreateDeployRequest,
    program_hash: [u8; 32],
    service_fee: u64,
    monthly_fee: u64,
    initial_months: u32,
    deployment_cost: u64,
    now: i64,
    confirm: ConfirmDeployment,
    request_id: [u8; 32],
    recovered_funds: u64,
    renewal: PaySubscription,
    months: u32,
    credit: CreditFeeToPool,
    fee_reward: u64,
    fee_platform: u64,
)
    requires
        create.treasury_pool.emergency_pause,
        confirm.treasury_pool.emergency_pause,
        renewal.treasury_pool.emergency_pause,
        credit.treasury_pool.emergency_pause,
    ensures
        create.create_rejection(
            program_hash,
            service_fee,
            monthly_fee,
            initial_months,
            deployment_cost,
            now,
        ) is Some,
        confirm.success_rejection(request_id, recovered_funds) is Some,
        confirm.failure_rejection(request_id) is Some,
        renewal.payment_rejection(request_id, months) == Some(ErrorCode::ProgramPaused),
        credit.credit_rejection(fee_reward, fee_platform) is Some,
{
}

} // verus!
