use vstd::prelude::*;

use crate::accounts::{check_mint, mint_check, MintView};
use crate::error::{ConstraintViolation, ErrorCode};
use crate::key::Key;
use crate::state::stake_pool::StakePool;

verus! {

/// The accounts of a pool's creation: the guardian and policy it answers to
/// (with the guardian's admin authority, the only party that may create the
/// guardian's pools), the new pool account with the bump of its address, the
/// staked and reward mints with their token programs, and the two new vaults.
#[derive(Clone, Copy, Debug, PartialEq, Eq)]
pub struct CreateStakePool {
    pub payer: Key,
    pub guardian: Key,
    pub guardian_admin_authority: Key,
    pub policy: Key,
    pub stake_pool: StakePool,
    pub stake_pool_bump: u8,
    pub token_mint: MintView,
    pub reward_token_mint: MintView,
    pub token_vault: Key,
    pub reward_vault: Key,
    pub token_program: Key,
    pub token_program_reward: Key,
}

/// `Ok` when the payer is the guardian's admin authority, the staked mint sits
/// under the token program and the reward mint under the reward token program;
/// else the first failure, in that order.
pub open spec fn create_stake_pool_check(a: CreateStakePool) -> Result<(), ConstraintViolation> {
    if a.guardian_admin_authority@ != a.payer@ {
        Err(ConstraintViolation::Raw)
    } else if mint_check(a.token_mint, a.token_program) is Err {
        mint_check(a.token_mint, a.token_program)
    } else {
        mint_check(a.reward_token_mint, a.token_program_reward)
    }
}

impl CreateStakePool {
    /// Checks the payer's authority over the guardian and the mints' token
    /// programs; see `create_stake_pool_check`.
    pub fn check_constraints(&self) -> (r: Result<(), ConstraintViolation>)
        ensures
            r == create_stake_pool_check(*self),
    {
        if !self.guardian_admin_authority.same_as(&self.payer) {
            return Err(ConstraintViolation::Raw);
        }
        let r = check_mint(&self.token_mint, &self.token_program);
        if r.is_err() {
            return r;
        }
        check_mint(&self.reward_token_mint, &self.token_program_reward)
    }
}

/// The pool as created: it records its guardian, policy, mints, vaults,
/// episode, cap and bump, and starts with nothing staked.
pub open spec fn created_stake_pool(a: CreateStakePool, episode: u8, cap_stake_amount: u64) -> StakePool {
    StakePool {
        guardian: a.guardian,
        policy: a.policy,
        token_mint: a.token_mint.key,
        token_vault: a.token_vault,
        reward_token_mint: a.reward_token_mint.key,
        reward_vault: a.reward_vault,
        total_staked_amount: 0,
        cap_stake_amount,
        episode,
        bump: a.stake_pool_bump,
    }
}

/// Fills in the new pool; see `created_stake_pool`. Never fails.
pub fn handler(accounts: &mut CreateStakePool, episode: u8, cap_stake_amount: u64) -> (r: Result<
    (),
    ErrorCode,
>)
    ensures
        r is Ok,
        *final(accounts) == (CreateStakePool {
            stake_pool: created_stake_pool(*old(accounts), episode, cap_stake_amount),
            ..*old(accounts)
        }),
{
    accounts.stake_pool.guardian = accounts.guardian;
    accounts.stake_pool.policy = accounts.policy;
    accounts.stake_pool.episode = episode;
    accounts.stake_pool.token_mint = accounts.token_mint.key;
    accounts.stake_pool.token_vault = accounts.token_vault;
    accounts.stake_pool.reward_token_mint = accounts.reward_token_mint.key;
    accounts.stake_pool.reward_vault = accounts.reward_vault;
    accounts.stake_pool.total_staked_amount = 0;
    accounts.stake_pool.cap_stake_amount = cap_stake_amount;
    accounts.stake_pool.episode = episode;
    accounts.stake_pool.bump = accounts.stake_pool_bump;
    Ok(())
}

} // verus!
