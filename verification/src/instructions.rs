//! The accounts each instruction takes and what its handler does with them.

pub mod create_guardian;
pub mod create_policy;
pub mod create_stake_pool;
pub mod create_user_stake;
pub mod deposit_reward;
pub mod stake;
pub mod unstake;
