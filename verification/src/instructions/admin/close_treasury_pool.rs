use vstd::prelude::*;
use crate::errors::ErrorCode;
use crate::program_address::{check_derived, is_derived};
use crate::pubkey::Pubkey;
use crate::states::{CustodyAccount, TreasuryPool};

verus! {

/// What emptying the ledger's own account reads and changes.
#[derive(Clone, Copy, Debug, PartialEq, Eq)]
pub struct CloseTreasuryPool {
    /// The account that is said to store the ledger.
    pub treasury_pool: CustodyAccount,
    /// Who asks, and receives what the account gives up.
    pub admin: CustodyAccount,
}

impl CloseTreasuryPool {
    /// What the account gives up: all that it holds beyond the reserve.
    pub open spec fn surplus(self, rent_exempt_minimum: u64) -> u64 {
        if self.treasury_pool.lamports > rent_exempt_minimum {
            (self.treasury_pool.lamports - rent_exempt_minimum) as u64
        } else {
            0
        }
    }

    /// The error with which emptying is refused, if it is, given whether the
    /// account is the one that stores the ledger.
    pub open spec fn close_rejection(self, located: bool, rent_exempt_minimum: u64) -> Option<
        ErrorCode,
    > {
        if !located {
            Some(ErrorCode::InvalidTreasuryWallet)
        } else if self.admin.lamports + self.surplus(rent_exempt_minimum) > u64::MAX {
            Some(ErrorCode::CalculationOverflow)
        } else {
            None
        }
    }

    /// The two accounts after the surplus has moved.
    pub open spec fn after_close(self, rent_exempt_minimum: u64) -> CloseTreasuryPool {
        CloseTreasuryPool {
            treasury_pool: CustodyAccount {
                lamports: (self.treasury_pool.lamports - self.surplus(rent_exempt_minimum)) as u64,
                ..self.treasury_pool
            },
            admin: CustodyAccount {
                lamports: (self.admin.lamports + self.surplus(rent_exempt_minimum)) as u64,
                ..self.admin
            },
        }
    }
}

/// Moves all that the ledger's account holds beyond `rent_exempt_minimum` to
/// whoever asks, and returns the amount moved, where `located` says that the
/// account is the one that stores the ledger. An account that holds no more
/// than the reserve gives up nothing. Between them the two accounts hold
/// afterwards what they held before.
pub fn close_located_treasury_pool(
    ctx: &mut CloseTreasuryPool,
    located: bool,
    rent_exempt_minimum: u64,
) -> (r: Result<u64, ErrorCode>)
    ensures
        match r {
            Ok(moved) => {
                &&& old(ctx).close_rejection(located, rent_exempt_minimum) is None
                &&& moved == old(ctx).surplus(rent_exempt_minimum)
                &&& *final(ctx) == old(ctx).after_close(rent_exempt_minimum)
                &&& final(ctx).treasury_pool.lamports + final(ctx).admin.lamports == old(ctx).treasury_pool.lamports + old(ctx).admin.lamports
            },
            Err(e) => {
                &&& old(ctx).close_rejection(located, rent_exempt_minimum) == Some(e)
                &&& *final(ctx) == *old(ctx)
            },
        },
{
    if !located {
        return Err(ErrorCode::InvalidTreasuryWallet);
    }
    let balance_before: u64 = ctx.treasury_pool.lamports;
    let transfer_amount: u64 = balance_before.saturating_sub(rent_exempt_minimum);
    if transfer_amount > 0 {
        let received = match ctx.admin.lamports.checked_add(transfer_amount) {
            Some(v) => v,
            None => { return Err(ErrorCode::CalculationOverflow); },
        };
        ctx.treasury_pool.lamports = balance_before - transfer_amount;
        ctx.admin.lamports = received;
    }
    Ok(transfer_amount)
}

/// Empties the ledger's own account down to its reserve, for whoever asks.
///
/// The account must be the one that the program `program_id` derives from
/// the ledger's seed; any other is refused. All that it holds beyond
/// `rent_exempt_minimum` then moves to the asker, and the amount moved is
/// returned.
pub fn close_treasury_pool(
    ctx: &mut CloseTreasuryPool,
    program_id: &Pubkey,
    rent_exempt_minimum: u64,
) -> (r: Result<u64, ErrorCode>)
    ensures
        match r {
            Ok(moved) => {
                &&& old(ctx).close_rejection(
                    is_derived(old(ctx).treasury_pool.key, TreasuryPool::PREFIX_SEED@, *program_id),
                    rent_exempt_minimum,
                ) is None
                &&& moved == old(ctx).surplus(rent_exempt_minimum)
                &&& *final(ctx) == old(ctx).after_close(rent_exempt_minimum)
            },
            Err(e) => old(ctx).close_rejection(
                is_derived(old(ctx).treasury_pool.key, TreasuryPool::PREFIX_SEED@, *program_id),
                rent_exempt_minimum,
            ) == Some(e) && *final(ctx) == *old(ctx),
        },
{
    let seed = TreasuryPool::PREFIX_SEED;
    let located = check_derived(&ctx.treasury_pool.key, seed.as_slice(), program_id);
    close_located_treasury_pool(ctx, located, rent_exempt_minimum)
}

} // verus!
