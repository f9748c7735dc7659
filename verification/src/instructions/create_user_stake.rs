use vstd::prelude::*;

use crate::error::{ConstraintViolation, ErrorCode};
use crate::key::Key;
use crate::state::policy::{Policy, MAX_TIERS};
use crate::state::stake_pool::StakePool;
use crate::state::user_stake::UserStake;

verus! {

/// The accounts of opening a stake: the payer, the pool and its policy, and
/// the new stake account.
#[derive(Clone, Copy, Debug, PartialEq, Eq)]
pub struct CreateUserStake {
    pub payer: Key,
    pub stake_pool_key: Key,
    pub stake_pool: StakePool,
    pub policy_key: Key,
    pub policy: Policy,
    pub user_stake: UserStake,
}

/// `Ok` when the pool names the policy passed beside it.
pub open spec fn create_user_stake_check(a: CreateUserStake) -> Result<(), ConstraintViolation> {
    if a.stake_pool.policy@ != a.policy_key@ {
        Err(ConstraintViolation::HasOne)
    } else {
        Ok(())
    }
}

impl CreateUserStake {
    /// Checks that the pool names the policy; see `create_user_stake_check`.
    pub fn check_constraints(&self) -> (r: Result<(), ConstraintViolation>)
        ensures
            r == create_user_stake_check(*self),
    {
        if !self.stake_pool.policy.same_as(&self.policy_key) {
            return Err(ConstraintViolation::HasOne);
        }
        Ok(())
    }
}

/// The stake as opened in tier `tier` at clock time `now`: it belongs to the
/// payer and the pool, takes the pool's policy and mint, holds nothing and owes
/// nothing, copies the policy's base rate and the chosen tier's terms, and
/// records `now` as its creation, stake and reward time.
pub open spec fn opened_user_stake(a: CreateUserStake, tier: u8, now: i64) -> UserStake {
    let t = a.policy.tiers@[tier as int];
    UserStake {
        stake_pool: a.stake_pool_key,
        policy: a.stake_pool.policy,
        owner: a.payer,
        token_mint: a.stake_pool.token_mint,
        staked_amount: 0,
        last_stake_timestamp: now as u64,
        created_timestamp: now as u64,
        base_apr_x64: a.policy.base_apr_x64,
        tier: t.tier,
        tier_lock_up_epoch: t.lock_up_epoch,
        tier_multiplier: t.multiplier,
        owed_reward: 0,
        last_update_reward_timestamp: now as u64,
    }
}

/// Opens the stake in tier `tier` at clock time `unix_timestamp`; see
/// `opened_user_stake`. The tier must index the policy's table. Never fails.
pub fn handler(accounts: &mut CreateUserStake, tier: u8, unix_timestamp: i64) -> (r: Result<
    (),
    ErrorCode,
>)
    requires
        (tier as usize) < MAX_TIERS,
    ensures
        r is Ok,
        *final(accounts) == (CreateUserStake {
            user_stake: opened_user_stake(*old(accounts), tier, unix_timestamp),
            ..*old(accounts)
        }),
{
    let index = tier as usize;
    let chosen = accounts.policy.tiers[index];
    accounts.user_stake.stake_pool = accounts.stake_pool_key;
    accounts.user_stake.policy = accounts.stake_pool.policy;
    accounts.user_stake.owner = accounts.payer;
    accounts.user_stake.token_mint = accounts.stake_pool.token_mint;
    accounts.user_stake.staked_amount = 0;

    accounts.user_stake.owed_reward = 0;
    accounts.user_stake.base_apr_x64 = accounts.policy.base_apr_x64;
    accounts.user_stake.tier = chosen.tier;
    accounts.user_stake.tier_lock_up_epoch = chosen.lock_up_epoch;
    accounts.user_stake.tier_multiplier = chosen.multiplier;

    let timestamp = unix_timestamp as u64;
    accounts.user_stake.last_stake_timestamp = timestamp;
    accounts.user_stake.created_timestamp = timestamp;
    accounts.user_stake.last_update_reward_timestamp = timestamp;
    Ok(())
}

} // verus!
