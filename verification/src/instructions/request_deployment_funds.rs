use vstd::prelude::*;
use crate::errors::ErrorCode;
use crate::events::DeploymentFundsRequested;
use crate::pubkey::{bytes_equal, Pubkey};
use crate::states::{DeployRequest, SessionFees, TreasuryPool, UserDeployStats};

verus! {

/// What a developer's own request for a session reads and changes.
#[derive(Clone, Copy, Debug, PartialEq, Eq)]
pub struct RequestDeploymentFunds {
    /// The ledger.
    pub treasury_pool: TreasuryPool,
    /// The record kept under the program's hash; blank if there was none.
    pub deploy_request: DeployRequest,
    /// The developer's counters; unassigned on a first request.
    pub user_stats: UserDeployStats,
    /// The developer who asks and pays.
    pub developer: Pubkey,
    /// The administrator who signs with the developer.
    pub admin: Pubkey,
}

impl RequestDeploymentFunds {
    /// Whether the record is in use for another program or another
    /// developer.
    pub open spec fn taken_by_another(self, program_hash: [u8; 32]) -> bool {
        &&& !self.deploy_request.is_blank()
        &&& (self.deploy_request.program_hash != program_hash || self.deploy_request.developer
            != self.developer)
    }

    /// The error with which the request is refused, if it is.
    pub open spec fn request_rejection(
        self,
        program_hash: [u8; 32],
        service_fee: u64,
        monthly_fee: u64,
        initial_months: u32,
        deployment_cost: u64,
        now: i64,
    ) -> Option<ErrorCode> {
        let fees = SessionFees::of(service_fee, monthly_fee, initial_months, deployment_cost);
        if self.admin != self.treasury_pool.admin {
            Some(ErrorCode::Unauthorized)
        } else if self.treasury_pool.emergency_pause {
            Some(ErrorCode::ProgramPaused)
        } else if service_fee == 0 || monthly_fee == 0 || initial_months == 0 || deployment_cost
            == 0 {
            Some(ErrorCode::InvalidAmount)
        } else if deployment_cost > self.treasury_pool.liquid_balance {
            Some(ErrorCode::InsufficientTreasuryFunds)
        } else if SessionFees::overflows(service_fee, monthly_fee, initial_months, deployment_cost) {
            Some(ErrorCode::CalculationOverflow)
        } else if self.taken_by_another(program_hash) {
            Some(ErrorCode::InvalidRequestId)
        } else if now + DeployRequest::extension(initial_months) > i64::MAX
            || self.user_stats.count_overflows(self.developer, now) {
            Some(ErrorCode::CalculationOverflow)
        } else {
            self.treasury_pool.credit_fee_rejection(fees.reward_fee, fees.platform_fee)
        }
    }

    /// The ledger, the record and the counters after an accepted request.
    pub open spec fn after_request(
        self,
        program_hash: [u8; 32],
        service_fee: u64,
        monthly_fee: u64,
        initial_months: u32,
        deployment_cost: u64,
        now: i64,
    ) -> RequestDeploymentFunds {
        let fees = SessionFees::of(service_fee, monthly_fee, initial_months, deployment_cost);
        RequestDeploymentFunds {
            treasury_pool: self.treasury_pool.after_credit_fee(fees.reward_fee, fees.platform_fee),
            deploy_request: self.deploy_request.opened(
                program_hash,
                self.developer,
                service_fee,
                monthly_fee,
                initial_months,
                deployment_cost,
                now,
            ),
            user_stats: self.user_stats.after_request(self.developer, now),
            ..self
        }
    }
}

/// Opens a deployment session that the developer asks and pays for in the
/// same step.
///
/// The pool must have the deployment cost at hand as liquid principal. The
/// record under the program's hash is taken when it is blank or is the
/// developer's own for that program. The fees are those of any session:
/// `monthly_fee * initial_months + service_fee` for the reward pool and a
/// thousandth of `deployment_cost` for the platform pool, both credited to
/// the ledger.
///
/// The caller then moves the payment, which the event names, from the
/// developer to the two fee pools.
pub fn request_deployment_funds(
    ctx: &mut RequestDeploymentFunds,
    program_hash: [u8; 32],
    service_fee: u64,
    monthly_fee: u64,
    initial_months: u32,
    deployment_cost: u64,
    now: i64,
) -> (r: Result<DeploymentFundsRequested, ErrorCode>)
    ensures
        match r {
            Ok(requested) => {
                &&& old(ctx).request_rejection(
                    program_hash,
                    service_fee,
                    monthly_fee,
                    initial_months,
                    deployment_cost,
                    now,
                ) is None
                &&& *final(ctx) == old(ctx).after_request(
                    program_hash,
                    service_fee,
                    monthly_fee,
                    initial_months,
                    deployment_cost,
                    now,
                )
                &&& requested == (DeploymentFundsRequested {
                    request_id: final(ctx).deploy_request.request_id,
                    developer: old(ctx).developer,
                    program_hash,
                    service_fee,
                    monthly_fee,
                    initial_months,
                    deployment_cost,
                    total_payment: SessionFees::of(
                        service_fee,
                        monthly_fee,
                        initial_months,
                        deployment_cost,
                    ).total_payment,
                    requested_at: now,
                })
            },
            Err(e) => old(ctx).request_rejection(
                program_hash,
                service_fee,
                monthly_fee,
                initial_months,
                deployment_cost,
                now,
            ) == Some(e) && *final(ctx) == *old(ctx),
        },
{
    if ctx.admin != ctx.treasury_pool.admin {
        return Err(ErrorCode::Unauthorized);
    }
    if ctx.treasury_pool.emergency_pause {
        return Err(ErrorCode::ProgramPaused);
    }
    if service_fee == 0 || monthly_fee == 0 || initial_months == 0 || deployment_cost == 0 {
        return Err(ErrorCode::InvalidAmount);
    }
    if deployment_cost > ctx.treasury_pool.liquid_balance {
        return Err(ErrorCode::InsufficientTreasuryFunds);
    }
    let fees = match SessionFees::compute(service_fee, monthly_fee, initial_months, deployment_cost) {
        Ok(v) => v,
        Err(e) => { return Err(e); },
    };
    if !ctx.deploy_request.blank() && !(bytes_equal(
        &ctx.deploy_request.program_hash,
        &program_hash,
    ) && ctx.deploy_request.developer == ctx.developer) {
        return Err(ErrorCode::InvalidRequestId);
    }
    let mut request = ctx.deploy_request;
    let mut stats = ctx.user_stats;
    let mut pool = ctx.treasury_pool;
    match request.open(
        program_hash,
        ctx.developer,
        service_fee,
        monthly_fee,
        initial_months,
        deployment_cost,
        now,
    ) {
        Ok(_) => {},
        Err(e) => { return Err(e); },
    }
    match stats.record_request(ctx.developer, now) {
        Ok(_) => {},
        Err(e) => { return Err(e); },
    }
    match pool.credit_fee_to_pool(fees.reward_fee, fees.platform_fee) {
        Ok(_) => {},
        Err(e) => { return Err(e); },
    }
    ctx.deploy_request = request;
    ctx.user_stats = stats;
    ctx.treasury_pool = pool;
    Ok(
        DeploymentFundsRequested {
            request_id: request.request_id,
            developer: request.developer,
            program_hash: request.program_hash,
            service_fee,
            monthly_fee,
            initial_months,
            deployment_cost,
            total_payment: fees.total_payment,
            requested_at: now,
        },
    )
}

} // verus!
