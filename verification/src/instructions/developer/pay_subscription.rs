use vstd::prelude::*;
use crate::errors::ErrorCode;
use crate::events::SubscriptionPaid;
use crate::pubkey::{bytes_equal, Pubkey};
use crate::states::{DeployRequest, DeployRequestStatus, RequestOperation, TreasuryPool};

verus! {

/// What renewing a subscription reads and changes.
#[derive(Clone, Copy, Debug, PartialEq, Eq)]
pub struct PaySubscription {
    /// The ledger.
    pub treasury_pool: TreasuryPool,
    /// The session.
    pub deploy_request: DeployRequest,
    /// Who pays.
    pub developer: Pubkey,
}

impl PaySubscription {
    /// What `months` months cost.
    pub open spec fn payment(self, months: u32) -> int {
        self.deploy_request.monthly_fee as int * months as int
    }

    /// The error with which a renewal is refused, if it is.
    pub open spec fn payment_rejection(self, request_id: [u8; 32], months: u32) -> Option<
        ErrorCode,
    > {
        if self.treasury_pool.emergency_pause {
            Some(ErrorCode::ProgramPaused)
        } else if self.deploy_request.request_id != request_id {
            Some(ErrorCode::InvalidRequestId)
        } else if self.deploy_request.developer != self.developer {
            Some(ErrorCode::Unauthorized)
        } else if months == 0 {
            Some(ErrorCode::InvalidAmount)
        } else if self.deploy_request.status.next_status(RequestOperation::PaySubscription)
            is None {
            Some(ErrorCode::InvalidRequestStatus)
        } else if self.payment(months) > u64::MAX || self.deploy_request.subscription_paid_until
            + DeployRequest::extension(months) > i64::MAX {
            Some(ErrorCode::CalculationOverflow)
        } else {
            self.treasury_pool.credit_fee_rejection(self.payment(months) as u64, 0)
        }
    }

    /// The ledger and the session after an accepted renewal: the session is
    /// active, its subscription ends `months` months of thirty days later,
    /// and the payment is credited to the reward pool.
    pub open spec fn after_payment(self, months: u32) -> PaySubscription {
        PaySubscription {
            treasury_pool: self.treasury_pool.after_credit_fee(self.payment(months) as u64, 0),
            deploy_request: DeployRequest {
                subscription_paid_until: (self.deploy_request.subscription_paid_until
                    + DeployRequest::extension(months)) as i64,
                status: DeployRequestStatus::Active,
                ..self.deploy_request
            },
            developer: self.developer,
        }
    }
}

/// Renews the subscription of an active or expired session for `months`
/// months.
///
/// The session is active afterwards and its subscription ends `months` times
/// thirty days later. The payment, `monthly_fee * months`, is credited to the
/// reward pool and raises the accumulator like any other fee.
///
/// The caller then moves the payment, which the event names, from the
/// developer to the reward custody account.
pub fn pay_subscription(ctx: &mut PaySubscription, request_id: [u8; 32], months: u32) -> (r:
    Result<SubscriptionPaid, ErrorCode>)
    ensures
        match r {
            Ok(paid) => {
                &&& old(ctx).payment_rejection(request_id, months) is None
                &&& *final(ctx) == old(ctx).after_payment(months)
                &&& paid == (SubscriptionPaid {
                    request_id: old(ctx).deploy_request.request_id,
                    developer: old(ctx).deploy_request.developer,
                    months,
                    payment_amount: old(ctx).payment(months) as u64,
                    subscription_valid_until: final(ctx).deploy_request.subscription_paid_until,
                })
            },
            Err(e) => old(ctx).payment_rejection(request_id, months) == Some(e) && *final(ctx)
                == *old(ctx),
        },
{
    if ctx.treasury_pool.emergency_pause {
        return Err(ErrorCode::ProgramPaused);
    }
    if !bytes_equal(&ctx.deploy_request.request_id, &request_id) {
        return Err(ErrorCode::InvalidRequestId);
    }
    if ctx.deploy_request.developer != ctx.developer {
        return Err(ErrorCode::Unauthorized);
    }
    if months == 0 {
        return Err(ErrorCode::InvalidAmount);
    }
    let status = match ctx.deploy_request.status.transition(RequestOperation::PaySubscription) {
        Some(next) => next,
        None => { return Err(ErrorCode::InvalidRequestStatus); },
    };
    let payment_amount = match ctx.deploy_request.monthly_fee.checked_mul(months as u64) {
        Some(v) => v,
        None => { return Err(ErrorCode::CalculationOverflow); },
    };
    let mut request = ctx.deploy_request;
    let mut pool = ctx.treasury_pool;
    match request.extend_subscription(months) {
        Ok(_) => {},
        Err(e) => { return Err(e); },
    }
    request.status = status;
    match pool.credit_fee_to_pool(payment_amount, 0) {
        Ok(_) => {},
        Err(e) => { return Err(e); },
    }
    ctx.deploy_request = request;
    ctx.treasury_pool = pool;
    Ok(
        SubscriptionPaid {
            request_id: request.request_id,
            developer: request.developer,
            months,
            payment_amount,
            subscription_valid_until: request.subscription_paid_until,
        },
    )
}

} // verus!
