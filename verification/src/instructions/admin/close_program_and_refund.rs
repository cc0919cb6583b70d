use vstd::prelude::*;
use crate::errors::ErrorCode;
use crate::events::ProgramClosed;
use crate::pubkey::{bytes_equal, Pubkey};
use crate::states::{DeployRequest, DeployRequestStatus, RequestOperation, TreasuryPool};

verus! {

/// What closing a session reads and changes.
#[derive(Clone, Copy, Debug, PartialEq, Eq)]
pub struct CloseProgramAndRefund {
    /// The ledger.
    pub treasury_pool: TreasuryPool,
    /// The session.
    pub deploy_request: DeployRequest,
    /// Who asks.
    pub admin: Pubkey,
}

impl CloseProgramAndRefund {
    /// The error with which closing is refused, if it is.
    pub open spec fn close_rejection(self, request_id: [u8; 32], recovered_lamports: u64) -> Option<
        ErrorCode,
    > {
        if self.deploy_request.request_id != request_id {
            Some(ErrorCode::InvalidRequestId)
        } else if self.deploy_request.status.next_status(RequestOperation::Close) is None {
            Some(ErrorCode::InvalidDeploymentStatus)
        } else if self.admin != self.treasury_pool.admin {
            Some(ErrorCode::Unauthorized)
        } else if self.treasury_pool.emergency_pause {
            Some(ErrorCode::ProgramPaused)
        } else if recovered_lamports == 0 {
            Some(ErrorCode::InvalidAmount)
        } else if self.treasury_pool.liquid_balance + recovered_lamports > u64::MAX {
            Some(ErrorCode::CalculationOverflow)
        } else {
            None
        }
    }

    /// The ledger and the session after an accepted close: the session is
    /// closed and what was recovered is liquid principal. The pool's total
    /// of deposits is as it was.
    pub open spec fn after_close(self, recovered_lamports: u64) -> CloseProgramAndRefund {
        CloseProgramAndRefund {
            treasury_pool: TreasuryPool {
                liquid_balance: (self.treasury_pool.liquid_balance + recovered_lamports) as u64,
                ..self.treasury_pool
            },
            deploy_request: DeployRequest {
                status: DeployRequestStatus::Closed,
                ..self.deploy_request
            },
            admin: self.admin,
        }
    }
}

/// Closes an active session after its program was closed.
///
/// What the closed program gave back, `recovered_lamports`, becomes liquid
/// principal; deposits are untouched. The event names the program, or the
/// all-zero identity where the session never recorded one.
///
/// The caller then moves `recovered_lamports` from where they were recovered
/// to the principal custody account.
pub fn close_program_and_refund(
    ctx: &mut CloseProgramAndRefund,
    request_id: [u8; 32],
    recovered_lamports: u64,
    now: i64,
) -> (r: Result<ProgramClosed, ErrorCode>)
    ensures
        match r {
            Ok(closed) => {
                &&& old(ctx).close_rejection(request_id, recovered_lamports) is None
                &&& *final(ctx) == old(ctx).after_close(recovered_lamports)
                &&& closed.request_id == old(ctx).deploy_request.request_id
                &&& match old(ctx).deploy_request.deployed_program_id {
                    Some(program) => closed.program_id == program,
                    None => closed.program_id.is_unassigned(),
                }
                &&& closed.developer == old(ctx).deploy_request.developer
                &&& closed.recovered_lamports == recovered_lamports
                &&& closed.closed_at == now
            },
            Err(e) => old(ctx).close_rejection(request_id, recovered_lamports) == Some(e)
                && *final(ctx) == *old(ctx),
        },
{
    if !bytes_equal(&ctx.deploy_request.request_id, &request_id) {
        return Err(ErrorCode::InvalidRequestId);
    }
    let status = match ctx.deploy_request.status.transition(RequestOperation::Close) {
        Some(next) => next,
        None => { return Err(ErrorCode::InvalidDeploymentStatus); },
    };
    if ctx.admin != ctx.treasury_pool.admin {
        return Err(ErrorCode::Unauthorized);
    }
    if ctx.treasury_pool.emergency_pause {
        return Err(ErrorCode::ProgramPaused);
    }
    if recovered_lamports == 0 {
        return Err(ErrorCode::InvalidAmount);
    }
    let liquid = match ctx.treasury_pool.liquid_balance.checked_add(recovered_lamports) {
        Some(v) => v,
        None => { return Err(ErrorCode::CalculationOverflow); },
    };
    ctx.treasury_pool.liquid_balance = liquid;
    ctx.deploy_request.status = status;
    let program_id = match ctx.deploy_request.deployed_program_id {
        Some(program) => program,
        None => Pubkey::default(),
    };
    Ok(
        ProgramClosed {
            request_id: ctx.deploy_request.request_id,
            program_id,
            developer: ctx.deploy_request.developer,
            recovered_lamports,
            closed_at: now,
        },
    )
}

} // verus!
