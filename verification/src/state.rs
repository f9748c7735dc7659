//! The program's accounts.

pub mod guardian;
pub mod policy;
pub mod stake_pool;
pub mod user_stake;
