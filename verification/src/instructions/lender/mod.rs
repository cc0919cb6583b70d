//! What backers do: deposit, withdraw, claim.

pub mod claim_rewards;
pub mod stake_sol;
pub mod unstake_sol;

pub use claim_rewards::{claim_rewards, ClaimRewards};
pub use stake_sol::{stake_sol, StakeSol, TRANSACTION_FEE_ESTIMATE};
pub use unstake_sol::{unstake_sol, UnstakeSol};
