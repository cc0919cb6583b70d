//! What the administrator does.

pub mod admin_withdraw;
pub mod admin_withdraw_reward_pool;
pub mod close_program_and_refund;
pub mod close_treasury_pool;
pub mod confirm_deployment;
pub mod create_deploy_request;
pub mod credit_fee_to_pool;
pub mod emergency_pause;
pub mod fund_temporary_wallet;
pub mod reinitialize_treasury_pool;
pub mod reset_treasury_pool;
pub mod suspend_expired_programs;
pub mod sync_liquid_balance;
pub mod update_apy;

pub use admin_withdraw::{admin_withdraw, AdminWithdraw};
pub use admin_withdraw_reward_pool::{
    admin_withdraw_reward_pool,
    AdminWithdrawRewardPool,
    AUTHORIZED_REWARD_ADMIN,
};
pub use close_program_and_refund::{close_program_and_refund, CloseProgramAndRefund};
pub use close_treasury_pool::{
    close_located_treasury_pool,
    close_treasury_pool,
    CloseTreasuryPool,
};
pub use confirm_deployment::{
    confirm_deployment_failure,
    confirm_deployment_success,
    ConfirmDeployment,
};
pub use create_deploy_request::{create_deploy_request, CreateDeployRequest};
pub use credit_fee_to_pool::{credit_fee_to_pool, CreditFeeToPool};
pub use emergency_pause::{emergency_pause, EmergencyPause};
pub use fund_temporary_wallet::{fund_temporary_wallet, FundTemporaryWallet};
pub use reinitialize_treasury_pool::{reinitialize_treasury_pool, ReinitializeTreasuryPool};
pub use reset_treasury_pool::{reset_treasury_pool, ResetTreasuryPool};
pub use suspend_expired_programs::{suspend_expired_programs, SuspendExpiredPrograms};
pub use sync_liquid_balance::{sync_liquid_balance, SyncLiquidBalance};
pub use update_apy::{update_apy, UpdateApy};
