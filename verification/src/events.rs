use vstd::prelude::*;
use crate::pubkey::Pubkey;

verus! {

/// The ledger was set up.
#[derive(Clone, Copy, Debug, PartialEq, Eq)]
pub struct TreasuryInitialized {
    pub admin: Pubkey,
    pub treasury_wallet: Pubkey,
    pub initial_apy: u64,
}

/// A backer deposited principal.
#[derive(Clone, Copy, Debug, PartialEq, Eq)]
pub struct SolStaked {
    pub lender: Pubkey,
    pub amount: u64,
    pub total_staked: u64,
    pub lock_period: i64,
}

/// A backer withdrew principal.
#[derive(Clone, Copy, Debug, PartialEq, Eq)]
pub struct SolUnstaked {
    pub lender: Pubkey,
    pub amount: u64,
    pub remaining_staked: u64,
}

/// A backer was paid rewards.
#[derive(Clone, Copy, Debug, PartialEq, Eq)]
pub struct RewardsClaimed {
    pub lender: Pubkey,
    pub amount: u64,
    pub total_claimed: u64,
}

/// A developer asked for a deployment.
#[derive(Clone, Copy, Debug, PartialEq, Eq)]
pub struct DeployRequested {
    pub request_id: [u8; 32],
    pub developer: Pubkey,
    pub program_hash: [u8; 32],
    pub service_fee: u64,
    pub monthly_fee: u64,
    pub initial_months: u32,
    pub total_payment: u64,
}

/// A deployment session was opened.
#[derive(Clone, Copy, Debug, PartialEq, Eq)]
pub struct DeploymentFundsRequested {
    pub request_id: [u8; 32],
    pub developer: Pubkey,
    pub program_hash: [u8; 32],
    pub service_fee: u64,
    pub monthly_fee: u64,
    pub initial_months: u32,
    pub deployment_cost: u64,
    pub total_payment: u64,
    pub requested_at: i64,
}

/// The deployment cost was handed to an escrow identity.
#[derive(Clone, Copy, Debug, PartialEq, Eq)]
pub struct TemporaryWalletFunded {
    pub request_id: [u8; 32],
    pub temporary_wallet: Pubkey,
    pub amount: u64,
    pub funded_at: i64,
}

/// A session was opened and funded in one step.
#[derive(Clone, Copy, Debug, PartialEq, Eq)]
pub struct ProgramDeployed {
    pub request_id: [u8; 32],
    pub developer: Pubkey,
    pub program_hash: [u8; 32],
    pub service_fee: u64,
    pub monthly_fee: u64,
    pub initial_months: u32,
    pub deployment_cost: u64,
    pub ephemeral_key: Pubkey,
    pub total_payment: u64,
    pub deployed_at: i64,
}

/// A deployment was confirmed as successful.
#[derive(Clone, Copy, Debug, PartialEq, Eq)]
pub struct DeploymentConfirmed {
    pub request_id: [u8; 32],
    pub developer: Pubkey,
    pub deployed_program_id: Pubkey,
    pub deployment_cost: u64,
    pub recovered_funds: u64,
    pub confirmed_at: i64,
}

/// A deployment was confirmed as failed and its fees refunded.
#[derive(Clone, Debug, PartialEq, Eq)]
pub struct DeploymentFailed {
    pub request_id: [u8; 32],
    pub developer: Pubkey,
    pub failure_reason: String,
    pub refund_amount: u64,
    pub deployment_cost_returned: u64,
    pub failed_at: i64,
}

/// A subscription was renewed.
#[derive(Clone, Copy, Debug, PartialEq, Eq)]
pub struct SubscriptionPaid {
    pub request_id: [u8; 32],
    pub developer: Pubkey,
    pub months: u32,
    pub payment_amount: u64,
    pub subscription_valid_until: i64,
}

/// Rewards were distributed.
#[derive(Clone, Copy, Debug, PartialEq, Eq)]
pub struct RewardsDistributed {
    pub total_fees_collected: u64,
    pub total_rewards_distributed: u64,
    pub current_apy: u64,
    pub distributed_at: i64,
}

/// The rate was updated.
#[derive(Clone, Copy, Debug, PartialEq, Eq)]
pub struct ApyUpdated {
    pub old_apy: u64,
    pub new_apy: u64,
    pub updated_at: i64,
}

/// Expired programs were suspended.
#[derive(Clone, Copy, Debug, PartialEq, Eq)]
pub struct ProgramsSuspended {
    pub suspended_count: u32,
    pub suspended_at: i64,
}

/// The pause flag was set or cleared.
#[derive(Clone, Copy, Debug, PartialEq, Eq)]
pub struct EmergencyPauseToggled {
    pub paused: bool,
    pub toggled_at: i64,
}

/// A deployed program was closed and its funds recovered.
#[derive(Clone, Copy, Debug, PartialEq, Eq)]
pub struct ProgramClosed {
    pub request_id: [u8; 32],
    pub program_id: Pubkey,
    pub developer: Pubkey,
    pub recovered_lamports: u64,
    pub closed_at: i64,
}

/// An administrator withdrew from a fee pool.
#[derive(Clone, Debug, PartialEq, Eq)]
pub struct AdminWithdrew {
    pub admin: Pubkey,
    pub amount: u64,
    pub destination: Pubkey,
    pub reason: String,
    pub withdrawn_at: i64,
}

/// An administrator moved funds into the reward pool.
#[derive(Clone, Copy, Debug, PartialEq, Eq)]
pub struct AdminMovedToRewardPool {
    pub admin: Pubkey,
    pub amount: u64,
    pub moved_at: i64,
}

/// A deposit with its breakdown and the resulting pool totals.
#[derive(Clone, Copy, Debug, PartialEq, Eq)]
pub struct DepositMade {
    pub backer: Pubkey,
    pub deposit_amount: u64,
    pub net_deposit: u64,
    pub reward_fee: u64,
    pub platform_fee: u64,
    pub total_deposited: u64,
    pub liquid_balance: u64,
    pub deposited_at: i64,
}

/// Fees were credited to the pools.
#[derive(Clone, Copy, Debug, PartialEq, Eq)]
pub struct RewardCredited {
    pub fee_reward: u64,
    pub fee_platform: u64,
    pub reward_per_share: u128,
    pub total_deposited: u64,
    pub credited_at: i64,
}

/// A claim with the resulting totals.
#[derive(Clone, Copy, Debug, PartialEq, Eq)]
pub struct Claimed {
    pub backer: Pubkey,
    pub amount: u64,
    pub claimed_total: u64,
    pub reward_per_share: u128,
    pub claimed_at: i64,
}

/// A withdrawal was asked for.
#[derive(Clone, Copy, Debug, PartialEq, Eq)]
pub struct WithdrawRequested {
    pub backer: Pubkey,
    pub amount: u64,
    pub request_id: [u8; 32],
    pub requested_at: i64,
}

} // verus!
