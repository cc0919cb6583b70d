//! The operations, one per file.

pub mod admin;
pub mod deploy_program;
pub mod developer;
pub mod initialize;
pub mod lender;
pub mod request_deployment_funds;

pub use admin::{
    admin_withdraw,
    admin_withdraw_reward_pool,
    close_located_treasury_pool,
    close_program_and_refund,
    close_treasury_pool,
    confirm_deployment_failure,
    confirm_deployment_success,
    create_deploy_request,
    credit_fee_to_pool,
    emergency_pause,
    fund_temporary_wallet,
    reinitialize_treasury_pool,
    reset_treasury_pool,
    suspend_expired_programs,
    sync_liquid_balance,
    update_apy,
    AdminWithdraw,
    AdminWithdrawRewardPool,
    CloseProgramAndRefund,
    CloseTreasuryPool,
    ConfirmDeployment,
    CreateDeployRequest,
    CreditFeeToPool,
    EmergencyPause,
    FundTemporaryWallet,
    ReinitializeTreasuryPool,
    ResetTreasuryPool,
    SuspendExpiredPrograms,
    SyncLiquidBalance,
    UpdateApy,
};
pub use deploy_program::{deploy_program, DeployProgram};
pub use developer::{pay_subscription, PaySubscription};
pub use initialize::{initialize, Initialize};
pub use lender::{claim_rewards, stake_sol, unstake_sol, ClaimRewards, StakeSol, UnstakeSol};
pub use request_deployment_funds::{request_deployment_funds, RequestDeploymentFunds};
