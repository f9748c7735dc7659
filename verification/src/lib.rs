//! Verified core of the delegator staking program: the account data it keeps,
//! the account relationships each instruction demands, what each instruction
//! does to its accounts and which token movement it asks for, and the laws
//! that tie the instructions together.

pub mod accounts;
pub mod clock;
pub mod delegator;
pub mod error;
pub mod instructions;
pub mod key;
pub mod laws;
pub mod state;

pub use accounts::{MintView, TokenAccountView, Transfer};
pub use error::{ConstraintViolation, DelegatorError, ErrorCode};
pub use instructions::{
    create_guardian, create_policy, create_stake_pool, create_user_stake, deposit_reward, stake, unstake,
};
pub use key::Key;
pub use state::guardian::Guardian;
pub use state::policy::{Policy, TierInfo, MAX_TIERS};
pub use state::stake_pool::StakePool;
pub use state::user_stake::UserStake;
pub use instructions::create_guardian::CreateGuardian;
pub use instructions::create_policy::CreatePolicy;
pub use instructions::create_stake_pool::CreateStakePool;
pub use instructions::create_user_stake::CreateUserStake;
pub use instructions::deposit_reward::DepositReward;
pub use instructions::stake::Stake;
pub use instructions::unstake::Unstake;
