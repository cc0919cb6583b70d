use vstd::prelude::*;
use crate::errors::ErrorCode;
use crate::events::ProgramDeployed;
use crate::pubkey::Pubkey;
use crate::states::{DeployRequest, SessionFees, TreasuryPool, UserDeployStats};

verus! {

/// What opening and funding a session in one step reads and changes.
#[derive(Clone, Copy, Debug, PartialEq, Eq)]
pub struct DeployProgram {
    /// The ledger.
    pub treasury_pool: TreasuryPool,
    /// The record kept under the program's hash: it must be blank.
    pub deploy_request: DeployRequest,
    /// The developer's counters; unassigned on a first request.
    pub user_stats: UserDeployStats,
    /// The developer who asks and pays.
    pub developer: Pubkey,
    /// The administrator who signs with the developer.
    pub admin: Pubkey,
    /// The escrow identity that receives the deployment cost.
    pub ephemeral_key: Pubkey,
}

impl DeployProgram {
    /// The error with which the step is refused, if it is.
    pub open spec fn deploy_rejection(
        self,
        program_hash: [u8; 32],
        service_fee: u64,
        monthly_fee: u64,
        initial_months: u32,
        deployment_cost: u64,
        now: i64,
    ) -> Option<ErrorCode> {
        let fees = SessionFees::of(service_fee, monthly_fee, initial_months, deployment_cost);
        if self.admin != self.treasury_pool.admin {
            Some(ErrorCode::Unauthorized)
        } else if self.treasury_pool.emergency_pause {
            Some(ErrorCode::ProgramPaused)
        } else if service_fee == 0 || monthly_fee == 0 || initial_months == 0 || deployment_cost
            == 0 {
            Some(ErrorCode::InvalidAmount)
        } else if deployment_cost > self.treasury_pool.liquid_balance {
            Some(ErrorCode::InsufficientTreasuryFunds)
        } else if SessionFees::overflows(service_fee, monthly_fee, initial_months, deployment_cost) {
            Some(ErrorCode::CalculationOverflow)
        } else if !self.deploy_request.is_blank() {
            Some(ErrorCode::InvalidRequestId)
        } else if now + DeployRequest::extension(initial_months) > i64::MAX
            || self.user_stats.count_overflows(self.developer, now) {
            Some(ErrorCode::CalculationOverflow)
        } else {
            self.treasury_pool.credit_fee_rejection(fees.reward_fee, fees.platform_fee)
        }
    }

    /// The ledger, the record and the counters after the step: the session
    /// is open and pending, the escrow is designated, the deployment cost is
    /// borrowed and no longer liquid, and the fees are credited.
    pub open spec fn after_deploy(
        self,
        program_hash: [u8; 32],
        service_fee: u64,
        monthly_fee: u64,
        initial_months: u32,
        deployment_cost: u64,
        now: i64,
    ) -> DeployProgram {
        let fees = SessionFees::of(service_fee, monthly_fee, initial_months, deployment_cost);
        let credited = self.treasury_pool.after_credit_fee(fees.reward_fee, fees.platform_fee);
        DeployProgram {
            treasury_pool: TreasuryPool {
                liquid_balance: (self.treasury_pool.liquid_balance - deployment_cost) as u64,
                ..credited
            },
            deploy_request: DeployRequest {
                ephemeral_key: Some(self.ephemeral_key),
                borrowed_amount: deployment_cost,
                ..self.deploy_request.opened(
                    program_hash,
                    self.developer,
                    service_fee,
                    monthly_fee,
                    initial_months,
                    deployment_cost,
                    now,
                )
            },
            user_stats: self.user_stats.after_request(self.developer, now),
            ..self
        }
    }
}

/// Opens a deployment session and lends it the deployment cost in one step.
///
/// The record under the program's hash must be blank. The pool must have the
/// deployment cost at hand as liquid principal; it is lent to the escrow and
/// is no longer liquid. The fees are those of any session, credited to the
/// ledger.
///
/// The caller then moves the payment, which the event names, from the
/// developer to the two fee pools, and the deployment cost from the principal
/// custody account to the escrow.
pub fn deploy_program(
    ctx: &mut DeployProgram,
    program_hash: [u8; 32],
    service_fee: u64,
    monthly_fee: u64,
    initial_months: u32,
    deployment_cost: u64,
    now: i64,
) -> (r: Result<ProgramDeployed, ErrorCode>)
    ensures
        match r {
            Ok(deployed) => {
                &&& old(ctx).deploy_rejection(
                    program_hash,
                    service_fee,
                    monthly_fee,
                    initial_months,
                    deployment_cost,
                    now,
                ) is None
                &&& *final(ctx) == old(ctx).after_deploy(
                    program_hash,
                    service_fee,
                    monthly_fee,
                    initial_months,
                    deployment_cost,
                    now,
                )
                &&& deployed == (ProgramDeployed {
                    request_id: program_hash,
                    developer: old(ctx).developer,
                    program_hash,
                    service_fee,
                    monthly_fee,
                    initial_months,
                    deployment_cost,
                    ephemeral_key: old(ctx).ephemeral_key,
                    total_payment: SessionFees::of(
                        service_fee,
                        monthly_fee,
                        initial_months,
                        deployment_cost,
                    ).total_payment,
                    deployed_at: now,
                })
            },
            Err(e) => old(ctx).deploy_rejection(
                program_hash,
                service_fee,
                monthly_fee,
                initial_months,
                deployment_cost,
                now,
            ) == Some(e) && *final(ctx) == *old(ctx),
        },
{
    if ctx.admin != ctx.treasury_pool.admin {
        return Err(ErrorCode::Unauthorized);
    }
    if ctx.treasury_pool.emergency_pause {
        return Err(ErrorCode::ProgramPaused);
    }
    if service_fee == 0 || monthly_fee == 0 || initial_months == 0 || deployment_cost == 0 {
        return Err(ErrorCode::InvalidAmount);
    }
    if deployment_cost > ctx.treasury_pool.liquid_balance {
        return Err(ErrorCode::InsufficientTreasuryFunds);
    }
    let fees = match SessionFees::compute(service_fee, monthly_fee, initial_months, deployment_cost) {
        Ok(v) => v,
        Err(e) => { return Err(e); },
    };
    if !ctx.deploy_request.blank() {
        return Err(ErrorCode::InvalidRequestId);
    }
    let mut request = ctx.deploy_request;
    let mut stats = ctx.user_stats;
    let mut pool = ctx.treasury_pool;
    match request.open(
        program_hash,
        ctx.developer,
        service_fee,
        monthly_fee,
        initial_months,
        deployment_cost,
        now,
    ) {
        Ok(_) => {},
        Err(e) => { return Err(e); },
    }
    request.ephemeral_key = Some(ctx.ephemeral_key);
    request.borrowed_amount = deployment_cost;
    match stats.record_request(ctx.developer, now) {
        Ok(_) => {},
        Err(e) => { return Err(e); },
    }
    match pool.credit_fee_to_pool(fees.reward_fee, fees.platform_fee) {
        Ok(_) => {},
        Err(e) => { return Err(e); },
    }
    pool.liquid_balance = pool.liquid_balance - deployment_cost;
    ctx.deploy_request = request;
    ctx.user_stats = stats;
    ctx.treasury_pool = pool;
    Ok(
        ProgramDeployed {
            request_id: request.request_id,
            developer: request.developer,
            program_hash: request.program_hash,
            service_fee,
            monthly_fee,
            initial_months,
            deployment_cost,
            ephemeral_key: ctx.ephemeral_key,
            total_payment: fees.total_payment,
            deployed_at: now,
        },
    )
}

} // verus!
