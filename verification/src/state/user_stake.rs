use vstd::prelude::*;

use crate::key::Key;

verus! {

/// One user's stake in one pool, with the tier terms it was opened under and
/// the reward it has accrued.
#[derive(Clone, Copy, Debug, PartialEq, Eq)]
pub struct UserStake {
    pub stake_pool: Key,
    pub policy: Key,
    pub owner: Key,
    pub token_mint: Key,
    pub staked_amount: u64,
    pub last_stake_timestamp: u64,
    /// When the stake was opened; no later instruction changes it.
    pub created_timestamp: u64,
    pub base_apr_x64: u128,
    pub tier: u8,
    pub tier_lock_up_epoch: u8,
    pub tier_multiplier: u8,
    pub owed_reward: u64,
    pub last_update_reward_timestamp: u64,
}

impl Default for UserStake {
    fn default() -> (u: UserStake)
        ensures
            u.stake_pool@ == Seq::new(32, |i: int| 0u8),
            u.policy@ == Seq::new(32, |i: int| 0u8),
            u.owner@ == Seq::new(32, |i: int| 0u8),
            u.token_mint@ == Seq::new(32, |i: int| 0u8),
            u.staked_amount == 0,
            u.last_stake_timestamp == 0,
            u.created_timestamp == 0,
            u.base_apr_x64 == 0,
            u.tier == 0,
            u.tier_lock_up_epoch == 0,
            u.tier_multiplier == 0,
            u.owed_reward == 0,
            u.last_update_reward_timestamp == 0,
    {
        UserStake {
            stake_pool: Key::default(),
            policy: Key::default(),
            owner: Key::default(),
            token_mint: Key::default(),
            staked_amount: 0,
            last_stake_timestamp: 0,
            created_timestamp: 0,
            base_apr_x64: 0,
            tier: 0,
            tier_lock_up_epoch: 0,
            tier_multiplier: 0,
            owed_reward: 0,
            last_update_reward_timestamp: 0,
        }
    }
}

} // verus!
