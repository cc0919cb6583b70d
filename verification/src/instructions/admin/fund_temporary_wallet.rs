use vstd::prelude::*;
use crate::errors::ErrorCode;
use crate::events::TemporaryWalletFunded;
use crate::pubkey::{bytes_equal, Pubkey};
use crate::states::{CustodyAccount, DeployRequest, RequestOperation, TreasuryPool};

verus! {

/// What funding an escrow reads and changes.
#[derive(Clone, Copy, Debug, PartialEq, Eq)]
pub struct FundTemporaryWallet {
    /// The ledger.
    pub treasury_pool: TreasuryPool,
    /// The session.
    pub deploy_request: DeployRequest,
    /// Who asks.
    pub admin: Pubkey,
    /// The platform custody account.
    pub admin_pool: CustodyAccount,
    /// The reward custody account.
    pub reward_pool: CustodyAccount,
    /// The escrow account that is to hold the deployment cost.
    pub temporary_wallet: CustodyAccount,
}

impl FundTemporaryWallet {
    /// What the ledger tracks for the pool that funds the escrow.
    pub open spec fn booked_source(self, use_admin_pool: bool) -> u64 {
        if use_admin_pool {
            self.treasury_pool.platform_pool_balance
        } else {
            self.treasury_pool.reward_pool_balance
        }
    }

    /// What the pool that funds the escrow holds.
    pub open spec fn held_source(self, use_admin_pool: bool) -> u64 {
        if use_admin_pool {
            self.admin_pool.lamports
        } else {
            self.reward_pool.lamports
        }
    }

    /// The error with which funding is refused, if it is.
    pub open spec fn funding_rejection(
        self,
        request_id: [u8; 32],
        amount: u64,
        use_admin_pool: bool,
    ) -> Option<ErrorCode> {
        if self.admin != self.treasury_pool.admin {
            Some(ErrorCode::Unauthorized)
        } else if self.treasury_pool.emergency_pause {
            Some(ErrorCode::ProgramPaused)
        } else if self.deploy_request.request_id != request_id {
            Some(ErrorCode::InvalidRequestId)
        } else if self.deploy_request.status.next_status(RequestOperation::FundEscrow) is None {
            Some(ErrorCode::InvalidRequestStatus)
        } else if amount == 0 || amount != self.deploy_request.deployment_cost {
            Some(ErrorCode::InvalidAmount)
        } else if self.booked_source(use_admin_pool) < amount || self.held_source(use_admin_pool)
            < amount {
            Some(ErrorCode::InsufficientTreasuryFunds)
        } else if self.temporary_wallet.lamports + amount > u64::MAX {
            Some(ErrorCode::CalculationOverflow)
        } else {
            None
        }
    }

    /// The ledger, the session and the accounts after an accepted funding:
    /// the deployment cost has left the chosen pool, booked and held, for
    /// the escrow, and the session records the escrow and what it borrowed.
    /// The session is still pending.
    pub open spec fn after_funding(self, amount: u64, use_admin_pool: bool) -> FundTemporaryWallet {
        FundTemporaryWallet {
            treasury_pool: if use_admin_pool {
                TreasuryPool {
                    platform_pool_balance: (self.treasury_pool.platform_pool_balance
                        - amount) as u64,
                    ..self.treasury_pool
                }
            } else {
                TreasuryPool {
                    reward_pool_balance: (self.treasury_pool.reward_pool_balance - amount) as u64,
                    ..self.treasury_pool
                }
            },
            deploy_request: DeployRequest {
                ephemeral_key: Some(self.temporary_wallet.key),
                borrowed_amount: amount,
                ..self.deploy_request
            },
            admin: self.admin,
            admin_pool: if use_admin_pool {
                CustodyAccount {
                    lamports: (self.admin_pool.lamports - amount) as u64,
                    ..self.admin_pool
                }
            } else {
                self.admin_pool
            },
            reward_pool: if use_admin_pool {
                self.reward_pool
            } else {
                CustodyAccount {
                    lamports: (self.reward_pool.lamports - amount) as u64,
                    ..self.reward_pool
                }
            },
            temporary_wallet: CustodyAccount {
                lamports: (self.temporary_wallet.lamports + amount) as u64,
                ..self.temporary_wallet
            },
        }
    }
}

/// Hands the deployment cost of a pending session to an escrow account.
///
/// `amount` must be the session's deployment cost. It leaves the platform
/// pool where `use_admin_pool` is set and the reward pool where it is not,
/// both as booked by the ledger and as held by the custody account, and
/// arrives in the escrow. The session records the escrow and the amount as
/// borrowed, and stays pending.
pub fn fund_temporary_wallet(
    ctx: &mut FundTemporaryWallet,
    request_id: [u8; 32],
    amount: u64,
    use_admin_pool: bool,
    now: i64,
) -> (r: Result<TemporaryWalletFunded, ErrorCode>)
    ensures
        match r {
            Ok(funded) => {
                &&& old(ctx).funding_rejection(request_id, amount, use_admin_pool) is None
                &&& *final(ctx) == old(ctx).after_funding(amount, use_admin_pool)
                &&& old(ctx).booked_source(use_admin_pool) <= old(ctx).held_source(use_admin_pool)
                    ==> final(ctx).booked_source(use_admin_pool) <= final(ctx).held_source(
                    use_admin_pool,
                )
                &&& final(ctx).admin_pool.lamports + final(ctx).reward_pool.lamports + final(ctx).temporary_wallet.lamports == old(ctx).admin_pool.lamports + old(ctx).reward_pool.lamports + old(ctx).temporary_wallet.lamports
                &&& funded == (TemporaryWalletFunded {
                    request_id: old(ctx).deploy_request.request_id,
                    temporary_wallet: old(ctx).temporary_wallet.key,
                    amount,
                    funded_at: now,
                })
            },
            Err(e) => old(ctx).funding_rejection(request_id, amount, use_admin_pool) == Some(e)
                && *final(ctx) == *old(ctx),
        },
{
    if ctx.admin != ctx.treasury_pool.admin {
        return Err(ErrorCode::Unauthorized);
    }
    if ctx.treasury_pool.emergency_pause {
        return Err(ErrorCode::ProgramPaused);
    }
    if !bytes_equal(&ctx.deploy_request.request_id, &request_id) {
        return Err(ErrorCode::InvalidRequestId);
    }
    let status = match ctx.deploy_request.status.transition(RequestOperation::FundEscrow) {
        Some(next) => next,
        None => { return Err(ErrorCode::InvalidRequestStatus); },
    };
    if amount == 0 || amount != ctx.deploy_request.deployment_cost {
        return Err(ErrorCode::InvalidAmount);
    }
    let booked: u64 = if use_admin_pool {
        ctx.treasury_pool.platform_pool_balance
    } else {
        ctx.treasury_pool.reward_pool_balance
    };
    let held: u64 = if use_admin_pool {
        ctx.admin_pool.lamports
    } else {
        ctx.reward_pool.lamports
    };
    if booked < amount || held < amount {
        return Err(ErrorCode::InsufficientTreasuryFunds);
    }
    let funded = match ctx.temporary_wallet.lamports.checked_add(amount) {
        Some(v) => v,
        None => { return Err(ErrorCode::CalculationOverflow); },
    };
    if use_admin_pool {
        ctx.treasury_pool.platform_pool_balance = booked - amount;
        ctx.admin_pool.lamports = held - amount;
    } else {
        ctx.treasury_pool.reward_pool_balance = booked - amount;
        ctx.reward_pool.lamports = held - amount;
    }
    ctx.temporary_wallet.lamports = funded;
    ctx.deploy_request.ephemeral_key = Some(ctx.temporary_wallet.key);
    ctx.deploy_request.borrowed_amount = amount;
    ctx.deploy_request.status = status;
    Ok(
        TemporaryWalletFunded {
            request_id: ctx.deploy_request.request_id,
            temporary_wallet: ctx.temporary_wallet.key,
            amount,
            funded_at: now,
        },
    )
}

} // verus!
