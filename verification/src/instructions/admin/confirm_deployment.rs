use vstd::prelude::*;
use crate::errors::ErrorCode;
use crate::events::{DeploymentConfirmed, DeploymentFailed};
use crate::pubkey::{bytes_equal, Pubkey};
use crate::states::{
    CustodyAccount,
    DeployRequest,
    DeployRequestStatus,
    RequestOperation,
    SessionFees,
    TreasuryPool,
};

verus! {

/// What confirming a deployment, as succeeded or as failed, reads and
/// changes.
#[derive(Clone, Copy, Debug, PartialEq, Eq)]
pub struct ConfirmDeployment {
    /// The ledger.
    pub treasury_pool: TreasuryPool,
    /// The session.
    pub deploy_request: DeployRequest,
    /// Who asks.
    pub admin: Pubkey,
    /// The escrow account that holds what is left of the deployment cost.
    pub ephemeral_key: CustodyAccount,
    /// The developer's account, which a refund is paid to.
    pub developer_wallet: CustodyAccount,
    /// The principal custody account.
    pub treasury_pda: CustodyAccount,
    /// The reward custody account, which a refund is paid from.
    pub reward_pool: CustodyAccount,
}

impl ConfirmDeployment {
    /// What is taken back from the escrow on success: what was asked for, or
    /// all that the escrow still holds if that is less.
    pub open spec fn recovered(self, recovered_funds: u64) -> u64 {
        if recovered_funds <= self.ephemeral_key.lamports {
            recovered_funds
        } else {
            self.ephemeral_key.lamports
        }
    }

    /// The error with which a confirmation of success is refused, if it is.
    pub open spec fn success_rejection(self, request_id: [u8; 32], recovered_funds: u64) -> Option<
        ErrorCode,
    > {
        if self.admin != self.treasury_pool.admin {
            Some(ErrorCode::Unauthorized)
        } else if self.treasury_pool.emergency_pause {
            Some(ErrorCode::ProgramPaused)
        } else if self.deploy_request.request_id != request_id {
            Some(ErrorCode::InvalidRequestId)
        } else if self.deploy_request.status.next_status(RequestOperation::ConfirmSuccess)
            is None {
            Some(ErrorCode::InvalidRequestStatus)
        } else if recovered_funds > self.deploy_request.deployment_cost {
            Some(ErrorCode::InvalidRecoveredFunds)
        } else if self.deploy_request.ephemeral_key is Some
            && self.deploy_request.ephemeral_key != Some(self.ephemeral_key.key) {
            Some(ErrorCode::InvalidEphemeralKey)
        } else if self.treasury_pool.liquid_balance + self.recovered(recovered_funds) > u64::MAX {
            Some(ErrorCode::CalculationOverflow)
        } else {
            None
        }
    }

    /// The ledger and the session after an accepted confirmation of success:
    /// the session is active and knows its program, and what was recovered
    /// is liquid principal again.
    pub open spec fn after_success(
        self,
        deployed_program_id: Pubkey,
        recovered_funds: u64,
    ) -> ConfirmDeployment {
        ConfirmDeployment {
            treasury_pool: TreasuryPool {
                liquid_balance: (self.treasury_pool.liquid_balance + self.recovered(
                    recovered_funds,
                )) as u64,
                ..self.treasury_pool
            },
            deploy_request: DeployRequest {
                status: DeployRequestStatus::Active,
                deployed_program_id: Some(deployed_program_id),
                ..self.deploy_request
            },
            ..self
        }
    }

    /// What a failed session is refunded: the fees that were credited to the
    /// reward pool when it was opened, `service_fee + monthly_fee *
    /// initial_months`.
    pub open spec fn refund(self) -> int {
        SessionFees::reward_fee_of(
            self.deploy_request.service_fee,
            self.deploy_request.monthly_fee,
            self.deploy_request.initial_months,
        )
    }

    /// The error with which a confirmation of failure is refused, if it is.
    pub open spec fn failure_rejection(self, request_id: [u8; 32]) -> Option<ErrorCode> {
        if self.admin != self.treasury_pool.admin {
            Some(ErrorCode::Unauthorized)
        } else if self.treasury_pool.emergency_pause {
            Some(ErrorCode::ProgramPaused)
        } else if self.deploy_request.request_id != request_id {
            Some(ErrorCode::InvalidRequestId)
        } else if self.deploy_request.status.next_status(RequestOperation::ConfirmFailure)
            is None {
            Some(ErrorCode::InvalidRequestStatus)
        } else if self.refund() > u64::MAX {
            Some(ErrorCode::CalculationOverflow)
        } else if self.refund() > TreasuryPool::MAX_FEE_AMOUNT as int {
            Some(ErrorCode::FeeAmountTooLarge)
        } else if (self.reward_pool.lamports as int) < self.refund() {
            Some(ErrorCode::InsufficientTreasuryFunds)
        } else if self.developer_wallet.lamports + self.refund() > u64::MAX
            || self.treasury_pda.lamports + self.ephemeral_key.lamports > u64::MAX
            || self.treasury_pool.liquid_balance + self.ephemeral_key.lamports > u64::MAX || (
        self.treasury_pool.reward_pool_balance as int) < self.refund() {
            Some(ErrorCode::CalculationOverflow)
        } else {
            None
        }
    }

    /// The ledger, the session and the accounts after an accepted
    /// confirmation of failure: the session has failed, the refund has left
    /// the reward pool, tracked and held, for the developer, and all that
    /// the escrow held is liquid principal again.
    pub open spec fn after_failure(self) -> ConfirmDeployment {
        ConfirmDeployment {
            treasury_pool: TreasuryPool {
                liquid_balance: (self.treasury_pool.liquid_balance
                    + self.ephemeral_key.lamports) as u64,
                reward_pool_balance: (self.treasury_pool.reward_pool_balance
                    - self.refund()) as u64,
                ..self.treasury_pool
            },
            deploy_request: DeployRequest {
                status: DeployRequestStatus::Failed,
                ..self.deploy_request
            },
            admin: self.admin,
            ephemeral_key: CustodyAccount { lamports: 0, ..self.ephemeral_key },
            developer_wallet: CustodyAccount {
                lamports: (self.developer_wallet.lamports + self.refund()) as u64,
                ..self.developer_wallet
            },
            treasury_pda: CustodyAccount {
                lamports: (self.treasury_pda.lamports + self.ephemeral_key.lamports) as u64,
                ..self.treasury_pda
            },
            reward_pool: CustodyAccount {
                lamports: (self.reward_pool.lamports - self.refund()) as u64,
                ..self.reward_pool
            },
        }
    }
}

/// Confirms that a pending deployment succeeded.
///
/// The session becomes active and records its program. Of the deployment
/// cost, `recovered_funds` is taken back from the escrow, or all that the
/// escrow still holds if that is less, and counts as liquid principal again;
/// it is never more than the deployment cost. Where the session has an
/// escrow designated, `ephemeral_key` must be that escrow.
///
/// The caller then moves the recovered amount, which the event names, from
/// the escrow to the principal custody account.
pub fn confirm_deployment_success(
    ctx: &mut ConfirmDeployment,
    request_id: [u8; 32],
    deployed_program_id: Pubkey,
    recovered_funds: u64,
    now: i64,
) -> (r: Result<DeploymentConfirmed, ErrorCode>)
    ensures
        match r {
            Ok(confirmed) => {
                &&& old(ctx).success_rejection(request_id, recovered_funds) is None
                &&& *final(ctx) == old(ctx).after_success(deployed_program_id, recovered_funds)
                &&& confirmed == (DeploymentConfirmed {
                    request_id: old(ctx).deploy_request.request_id,
                    developer: old(ctx).deploy_request.developer,
                    deployed_program_id,
                    deployment_cost: old(ctx).deploy_request.deployment_cost,
                    recovered_funds: old(ctx).recovered(recovered_funds),
                    confirmed_at: now,
                })
            },
            Err(e) => old(ctx).success_rejection(request_id, recovered_funds) == Some(e)
                && *final(ctx) == *old(ctx),
        },
{
    if ctx.admin != ctx.treasury_pool.admin {
        return Err(ErrorCode::Unauthorized);
    }
    if ctx.treasury_pool.emergency_pause {
        return Err(ErrorCode::ProgramPaused);
    }
    if !bytes_equal(&ctx.deploy_request.request_id, &request_id) {
        return Err(ErrorCode::InvalidRequestId);
    }
    let status = match ctx.deploy_request.status.transition(RequestOperation::ConfirmSuccess) {
        Some(next) => next,
        None => { return Err(ErrorCode::InvalidRequestStatus); },
    };
    if recovered_funds > ctx.deploy_request.deployment_cost {
        return Err(ErrorCode::InvalidRecoveredFunds);
    }
    match ctx.deploy_request.ephemeral_key {
        Some(expected) => {
            if ctx.ephemeral_key.key != expected {
                return Err(ErrorCode::InvalidEphemeralKey);
            }
        },
        None => {},
    }
    let actual_recovered: u64 = if recovered_funds <= ctx.ephemeral_key.lamports {
        recovered_funds
    } else {
        ctx.ephemeral_key.lamports
    };
    let liquid = match ctx.treasury_pool.liquid_balance.checked_add(actual_recovered) {
        Some(v) => v,
        None => { return Err(ErrorCode::CalculationOverflow); },
    };
    ctx.deploy_request.status = status;
    ctx.deploy_request.deployed_program_id = Some(deployed_program_id);
    ctx.treasury_pool.liquid_balance = liquid;
    Ok(
        DeploymentConfirmed {
            request_id: ctx.deploy_request.request_id,
            developer: ctx.deploy_request.developer,
            deployed_program_id,
            deployment_cost: ctx.deploy_request.deployment_cost,
            recovered_funds: actual_recovered,
            confirmed_at: now,
        },
    )
}

/// Confirms that a pending deployment failed.
///
/// The session fails and the developer is refunded the fees that were
/// credited for it, `service_fee + monthly_fee * initial_months`: the refund
/// leaves the reward pool, both as tracked by the ledger and as held by the
/// reward custody account, so it reverses the credit and touches no
/// principal. All that the escrow still holds goes back to the principal
/// custody account and counts as liquid principal again.
pub fn confirm_deployment_failure(
    ctx: &mut ConfirmDeployment,
    request_id: [u8; 32],
    failure_reason: String,
    now: i64,
) -> (r: Result<DeploymentFailed, ErrorCode>)
    ensures
        match r {
            Ok(failed) => {
                &&& old(ctx).failure_rejection(request_id) is None
                &&& *final(ctx) == old(ctx).after_failure()
                &&& old(ctx).treasury_pool.reward_pool_balance <= old(ctx).reward_pool.lamports
                    ==> final(ctx).treasury_pool.reward_pool_balance <= final(ctx).reward_pool.lamports
                &&& old(ctx).treasury_pool.liquid_balance <= old(ctx).treasury_pda.lamports
                    ==> final(ctx).treasury_pool.liquid_balance <= final(ctx).treasury_pda.lamports
                &&& final(ctx).reward_pool.lamports + final(ctx).developer_wallet.lamports
                    + final(ctx).treasury_pda.lamports + final(ctx).ephemeral_key.lamports == old(ctx).reward_pool.lamports + old(ctx).developer_wallet.lamports + old(ctx).treasury_pda.lamports + old(ctx).ephemeral_key.lamports
                &&& failed == (DeploymentFailed {
                    request_id: old(ctx).deploy_request.request_id,
                    developer: old(ctx).deploy_request.developer,
                    failure_reason,
                    refund_amount: old(ctx).refund() as u64,
                    deployment_cost_returned: old(ctx).deploy_request.deployment_cost,
                    failed_at: now,
                })
            },
            Err(e) => old(ctx).failure_rejection(request_id) == Some(e) && *final(ctx) == *old(ctx),
        },
{
    if ctx.admin != ctx.treasury_pool.admin {
        return Err(ErrorCode::Unauthorized);
    }
    if ctx.treasury_pool.emergency_pause {
        return Err(ErrorCode::ProgramPaused);
    }
    if !bytes_equal(&ctx.deploy_request.request_id, &request_id) {
        return Err(ErrorCode::InvalidRequestId);
    }
    let status = match ctx.deploy_request.status.transition(RequestOperation::ConfirmFailure) {
        Some(next) => next,
        None => { return Err(ErrorCode::InvalidRequestStatus); },
    };
    let refund_amount = match SessionFees::reward_fee(
        ctx.deploy_request.service_fee,
        ctx.deploy_request.monthly_fee,
        ctx.deploy_request.initial_months,
    ) {
        Ok(v) => v,
        Err(e) => { return Err(e); },
    };
    if refund_amount as u128 > TreasuryPool::MAX_FEE_AMOUNT {
        return Err(ErrorCode::FeeAmountTooLarge);
    }
    if ctx.reward_pool.lamports < refund_amount {
        return Err(ErrorCode::InsufficientTreasuryFunds);
    }
    let refunded = match ctx.developer_wallet.lamports.checked_add(refund_amount) {
        Some(v) => v,
        None => { return Err(ErrorCode::CalculationOverflow); },
    };
    let remaining_funds: u64 = ctx.ephemeral_key.lamports;
    let treasury_lamports = match ctx.treasury_pda.lamports.checked_add(remaining_funds) {
        Some(v) => v,
        None => { return Err(ErrorCode::CalculationOverflow); },
    };
    let liquid = match ctx.treasury_pool.liquid_balance.checked_add(remaining_funds) {
        Some(v) => v,
        None => { return Err(ErrorCode::CalculationOverflow); },
    };
    let mut pool = ctx.treasury_pool;
    pool.liquid_balance = liquid;
    match pool.debit_reward_pool(refund_amount) {
        Ok(_) => {},
        Err(e) => { return Err(e); },
    }
    ctx.deploy_request.status = status;
    ctx.reward_pool.lamports = ctx.reward_pool.lamports - refund_amount;
    ctx.developer_wallet.lamports = refunded;
    ctx.treasury_pda.lamports = treasury_lamports;
    ctx.ephemeral_key.lamports = 0;
    ctx.treasury_pool = pool;
    Ok(
        DeploymentFailed {
            request_id: ctx.deploy_request.request_id,
            developer: ctx.deploy_request.developer,
            failure_reason,
            refund_amount,
            deployment_cost_returned: ctx.deploy_request.deployment_cost,
            failed_at: now,
        },
    )
}

} // verus!
