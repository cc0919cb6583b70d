//! The records that the operations read and change.

pub mod custody_account;
pub mod d2d_config;
pub mod deploy_request;
pub mod lender_stake;
pub mod treasury_pool;
pub mod user_deploy_stats;

pub use custody_account::CustodyAccount;
pub use d2d_config::D2DConfig;
pub use deploy_request::{DeployRequest, DeployRequestStatus, RequestOperation, SessionFees};
pub use lender_stake::{BackerDeposit, LenderStake};
pub use treasury_pool::TreasuryPool;
pub use user_deploy_stats::UserDeployStats;
