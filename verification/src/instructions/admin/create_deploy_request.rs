use vstd::prelude::*;
use crate::errors::ErrorCode;
use crate::events::DeploymentFundsRequested;
use crate::pubkey::Pubkey;
use crate::states::{CustodyAccount, DeployRequest, SessionFees, TreasuryPool, UserDeployStats};

verus! {

/// What opening a session reads and changes.
#[derive(Clone, Copy, Debug, PartialEq, Eq)]
pub struct CreateDeployRequest {
    /// The ledger.
    pub treasury_pool: TreasuryPool,
    /// The reward custody account, as observed.
    pub reward_pool: CustodyAccount,
    /// The platform custody account, as observed.
    pub platform_pool: CustodyAccount,
    /// The record kept under the program's hash; blank if there was none.
    pub deploy_request: DeployRequest,
    /// The developer's counters; unassigned on a first request.
    pub user_stats: UserDeployStats,
    /// The developer who paid.
    pub developer: Pubkey,
    /// Who asks.
    pub admin: Pubkey,
}

impl CreateDeployRequest {
    /// The error with which opening a session is refused, if it is.
    pub open spec fn create_rejection(
        self,
        program_hash: [u8; 32],
        service_fee: u64,
        monthly_fee: u64,
        initial_months: u32,
        deployment_cost: u64,
        now: i64,
    ) -> Option<ErrorCode> {
        let fees = SessionFees::of(service_fee, monthly_fee, initial_months, deployment_cost);
        let credited = self.treasury_pool.after_credit_fee(fees.reward_fee, fees.platform_fee);
        if self.admin != self.treasury_pool.admin {
            Some(ErrorCode::Unauthorized)
        } else if self.treasury_pool.emergency_pause {
            Some(ErrorCode::ProgramPaused)
        } else if service_fee == 0 || monthly_fee == 0 || initial_months == 0 || deployment_cost
            == 0 {
            Some(ErrorCode::InvalidAmount)
        } else if SessionFees::overflows(service_fee, monthly_fee, initial_months, deployment_cost) {
            Some(ErrorCode::CalculationOverflow)
        } else if self.deploy_request.conflicts_with(program_hash, self.developer) {
            Some(ErrorCode::InvalidRequestId)
        } else if now + DeployRequest::extension(initial_months) > i64::MAX
            || self.user_stats.count_overflows(self.developer, now) {
            Some(ErrorCode::CalculationOverflow)
        } else if self.treasury_pool.credit_fee_rejection(fees.reward_fee, fees.platform_fee)
            is Some {
            self.treasury_pool.credit_fee_rejection(fees.reward_fee, fees.platform_fee)
        } else if self.reward_pool.lamports < credited.reward_pool_balance
            || self.platform_pool.lamports < credited.platform_pool_balance {
            Some(ErrorCode::InsufficientTreasuryFunds)
        } else {
            None
        }
    }

    /// The ledger, the record and the counters after a session was opened:
    /// the fees are credited, the record is pending with the prices as
    /// given, and the developer's counters are one higher.
    pub open spec fn after_create(
        self,
        program_hash: [u8; 32],
        service_fee: u64,
        monthly_fee: u64,
        initial_months: u32,
        deployment_cost: u64,
        now: i64,
    ) -> CreateDeployRequest {
        let fees = SessionFees::of(service_fee, monthly_fee, initial_months, deployment_cost);
        CreateDeployRequest {
            treasury_pool: self.treasury_pool.after_credit_fee(fees.reward_fee, fees.platform_fee),
            deploy_request: self.deploy_request.opened(
                program_hash,
                self.developer,
                service_fee,
                monthly_fee,
                initial_months,
                deployment_cost,
                now,
            ),
            user_stats: self.user_stats.after_request(self.developer, now),
            ..self
        }
    }
}

/// Opens a deployment session for a developer whose payment was verified.
///
/// The developer owes `monthly_fee * initial_months + service_fee` to the
/// reward pool and a thousandth of `deployment_cost` to the platform pool.
/// Both are credited to the ledger, the reward fee raising the accumulator,
/// and each custody account must hold what the ledger then tracks for it.
///
/// The record under the program's hash is taken when it is blank, when it is
/// the developer's own, or when it belongs to another developer whose session
/// has ended or is pending with no escrow designated. A record for another
/// hash, or one of another developer that is active or already funded, is a
/// conflict.
pub fn create_deploy_request(
    ctx: &mut CreateDeployRequest,
    program_hash: [u8; 32],
    service_fee: u64,
    monthly_fee: u64,
    initial_months: u32,
    deployment_cost: u64,
    now: i64,
) -> (r: Result<DeploymentFundsRequested, ErrorCode>)
    ensures
        match r {
            Ok(requested) => {
                &&& old(ctx).create_rejection(
                    program_hash,
                    service_fee,
                    monthly_fee,
                    initial_months,
                    deployment_cost,
                    now,
                ) is None
                &&& *final(ctx) == old(ctx).after_create(
                    program_hash,
                    service_fee,
                    monthly_fee,
                    initial_months,
                    deployment_cost,
                    now,
                )
                &&& final(ctx).treasury_pool.reward_pool_balance <= final(ctx).reward_pool.lamports
                &&& final(ctx).treasury_pool.platform_pool_balance <= final(ctx).platform_pool.lamports
                &&& requested == (DeploymentFundsRequested {
                    request_id: final(ctx).deploy_request.request_id,
                    developer: old(ctx).developer,
                    program_hash,
                    service_fee,
                    monthly_fee,
                    initial_months,
                    deployment_cost,
                    total_payment: SessionFees::of(
                        service_fee,
                        monthly_fee,
                        initial_months,
                        deployment_cost,
                    ).total_payment,
                    requested_at: now,
                })
            },
            Err(e) => old(ctx).create_rejection(
                program_hash,
                service_fee,
                monthly_fee,
                initial_months,
                deployment_cost,
                now,
            ) == Some(e) && *final(ctx) == *old(ctx),
        },
{
    if ctx.admin != ctx.treasury_pool.admin {
        return Err(ErrorCode::Unauthorized);
    }
    if ctx.treasury_pool.emergency_pause {
        return Err(ErrorCode::ProgramPaused);
    }
    if service_fee == 0 || monthly_fee == 0 || initial_months == 0 || deployment_cost == 0 {
        return Err(ErrorCode::InvalidAmount);
    }
    let fees = match SessionFees::compute(service_fee, monthly_fee, initial_months, deployment_cost) {
        Ok(v) => v,
        Err(e) => { return Err(e); },
    };
    if ctx.deploy_request.conflicts(&program_hash, &ctx.developer) {
        return Err(ErrorCode::InvalidRequestId);
    }
    let mut request = ctx.deploy_request;
    let mut stats = ctx.user_stats;
    let mut pool = ctx.treasury_pool;
    match request.open(
        program_hash,
        ctx.developer,
        service_fee,
        monthly_fee,
        initial_months,
        deployment_cost,
        now,
    ) {
        Ok(_) => {},
        Err(e) => { return Err(e); },
    }
    match stats.record_request(ctx.developer, now) {
        Ok(_) => {},
        Err(e) => { return Err(e); },
    }
    match pool.credit_fee_to_pool(fees.reward_fee, fees.platform_fee) {
        Ok(_) => {},
        Err(e) => { return Err(e); },
    }
    if ctx.reward_pool.lamports < pool.reward_pool_balance || ctx.platform_pool.lamports
        < pool.platform_pool_balance {
        return Err(ErrorCode::InsufficientTreasuryFunds);
    }
    ctx.deploy_request = request;
    ctx.user_stats = stats;
    ctx.treasury_pool = pool;
    Ok(
        DeploymentFundsRequested {
            request_id: request.request_id,
            developer: request.developer,
            program_hash: request.program_hash,
            service_fee,
            monthly_fee,
            initial_months,
            deployment_cost,
            total_payment: fees.total_payment,
            requested_at: now,
        },
    )
}

} // verus!
