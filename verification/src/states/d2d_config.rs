use vstd::prelude::*;
use crate::pubkey::Pubkey;

verus! {

/// Program-wide settings.
#[derive(Clone, Copy, Debug, PartialEq, Eq)]
pub struct D2DConfig {
    /// Who administers the program.
    pub admin: Pubkey,
    /// The treasury wallet.
    pub treasury: Pubkey,
    /// Fee per deployment.
    pub fee_rate: u64,
    /// How many sessions one developer may have open at a time.
    pub max_concurrent_per_user: u32,
    /// Deployments that succeeded.
    pub total_deploys: u64,
    /// Fees collected in all.
    pub total_fees_collected: u64,
    /// Whether the program is paused.
    pub is_paused: bool,
}

} // verus!
