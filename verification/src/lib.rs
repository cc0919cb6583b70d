//! Treasury ledger and deploy-request lifecycle for a deployment-financing pool.
//!
//! Backers lend capital into a shared pool, developers borrow from it to pay
//! for deployment sessions, and the fees developers pay accrue to backers in
//! proportion to their share through a reward-per-share accumulator.
//!
//! Every operation is a function from plain values to plain values: it takes
//! the records it touches and the balances and time that the caller observed,
//! and either applies completely or reports an [`ErrorCode`] and leaves every
//! record as it was.

pub mod errors;
pub mod events;
pub mod instructions;
pub mod laws;
pub mod program_address;
pub mod pubkey;
pub mod states;

pub use errors::ErrorCode;
pub use events::{
    AdminMovedToRewardPool,
    AdminWithdrew,
    ApyUpdated,
    Claimed,
    DeployRequested,
    DeploymentConfirmed,
    DeploymentFailed,
    DeploymentFundsRequested,
    DepositMade,
    EmergencyPauseToggled,
    ProgramClosed,
    ProgramDeployed,
    ProgramsSuspended,
    RewardCredited,
    RewardsClaimed,
    RewardsDistributed,
    SolStaked,
    SolUnstaked,
    SubscriptionPaid,
    TemporaryWalletFunded,
    TreasuryInitialized,
    WithdrawRequested,
};
pub use pubkey::Pubkey;
pub use states::{
    BackerDeposit,
    CustodyAccount,
    D2DConfig,
    DeployRequest,
    DeployRequestStatus,
    LenderStake,
    RequestOperation,
    SessionFees,
    TreasuryPool,
    UserDeployStats,
};
