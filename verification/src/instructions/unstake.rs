use vstd::prelude::*;

use crate::accounts::{check_token_account, token_account_check, TokenAccountView, Transfer};
use crate::error::{ConstraintViolation, ErrorCode};
use crate::key::Key;
use crate::state::stake_pool::{stake_pool_signer_seeds, StakePool};
use crate::state::user_stake::UserStake;

verus! {

/// The accounts of an unstake: the pool returns tokens from its vault to a
/// token account of the stake's owner and the stake shrinks. The payer may be
/// the owner or the backend that runs unstakes for users.
#[derive(Clone, Copy, Debug, PartialEq, Eq)]
pub struct Unstake {
    pub payer: Key,
    pub stake_pool_key: Key,
    pub stake_pool: StakePool,
    pub token_mint: Key,
    pub user_stake: UserStake,
    pub owner_token_ata: TokenAccountView,
    pub token_vault: TokenAccountView,
    pub token_program: Key,
}

/// The clock time `now` read as the stake's unsigned timestamps are.
pub open spec fn timestamp_of(now: i64) -> u64 {
    now as u64
}

/// The reward a stake earns from its last reward update up to `now`: the low
/// 64 bits of its base rate times the elapsed time.
pub open spec fn accrued_reward(user: UserStake, now: u64) -> int {
    (user.base_apr_x64 as u64) * (now - user.last_update_reward_timestamp)
}

/// Whether the reward arithmetic of an unstake at `now` stays within `u64`:
/// time does not run back past the last update, and neither the reward nor the
/// owed total after it overflows.
pub open spec fn reward_arithmetic_fits(user: UserStake, now: i64) -> bool {
    let t = timestamp_of(now);
    &&& t >= user.last_update_reward_timestamp
    &&& accrued_reward(user, t) <= u64::MAX
    &&& user.owed_reward + accrued_reward(user, t) <= u64::MAX
}

/// What unstaking `amount` at clock time `now` makes of the pool and the
/// stake: refused with `InvalidUnstakeAmount` when the pool or the stake holds
/// less than `amount`; else both shrink by `amount`, the reward accrued since
/// the last update is added to what is owed, and both timestamps become `now`.
pub open spec fn unstake_spec(pool: StakePool, user: UserStake, amount: u64, now: i64) -> Result<
    (StakePool, UserStake),
    ErrorCode,
> {
    if pool.total_staked_amount < amount || user.staked_amount < amount {
        Err(ErrorCode::InvalidUnstakeAmount)
    } else {
        let t = timestamp_of(now);
        Ok(
            (
                StakePool { total_staked_amount: (pool.total_staked_amount - amount) as u64, ..pool },
                UserStake {
                    staked_amount: (user.staked_amount - amount) as u64,
                    owed_reward: (user.owed_reward + accrued_reward(user, t)) as u64,
                    last_stake_timestamp: t,
                    last_update_reward_timestamp: t,
                    ..user
                },
            ),
        )
    }
}

/// The inputs on which an unstake runs to its end: it is refused before any
/// reward arithmetic, or that arithmetic fits.
pub open spec fn unstake_completes(pool: StakePool, user: UserStake, amount: u64, now: i64) -> bool {
    (pool.total_staked_amount >= amount && user.staked_amount >= amount) ==> reward_arithmetic_fits(
        user,
        now,
    )
}

/// What an unstake of `amount` at clock time `unix_timestamp` leaves behind: on `Ok`,
/// the accounts as `unstake_spec` says with everything else unchanged, and the
/// returned transfer; on `Err`, the error `unstake_spec` gives and the accounts
/// unchanged.
pub open spec fn unstake_outcome(old: Unstake, amount: u64, unix_timestamp: i64, r: Result<Transfer, ErrorCode>, new: Unstake) -> bool {
    match r {
        Ok(t) => {
            &&& unstake_spec(old.stake_pool, old.user_stake, amount, unix_timestamp)
                == Ok::<(StakePool, UserStake), ErrorCode>((new.stake_pool, new.user_stake))
            &&& new == (Unstake {
                stake_pool: new.stake_pool,
                user_stake: new.user_stake,
                ..old
            })
            &&& t.from == old.token_vault.key
            &&& t.to == old.owner_token_ata.key
            &&& t.authority == old.stake_pool_key
            &&& t.amount == amount
            &&& t.signer_seeds.deep_view() == stake_pool_signer_seeds(old.stake_pool)
        },
        Err(e) => {
            &&& unstake_spec(old.stake_pool, old.user_stake, amount, unix_timestamp)
                == Err::<(StakePool, UserStake), ErrorCode>(e)
            &&& new == old
        },
    }
}

/// Tells whether the reward arithmetic of an unstake at `now` stays within
/// `u64`; see `reward_arithmetic_fits`.
pub fn reward_fits(user: &UserStake, now: i64) -> (r: bool)
    ensures
        r == reward_arithmetic_fits(*user, now),
{
    let timestamp = now as u64;
    let interval = match timestamp.checked_sub(user.last_update_reward_timestamp) {
        Some(i) => i,
        None => {
            return false;
        },
    };
    let base_apr = #[verifier::truncate] (user.base_apr_x64 as u64);
    let reward = match base_apr.checked_mul(interval) {
        Some(x) => x,
        None => {
            return false;
        },
    };
    user.owed_reward.checked_add(reward).is_some()
}

/// The accounts of an unstake checked field by field in their order: the pool
/// names the vault and the mint; the stake belongs to this pool and this mint;
/// the token account that receives the tokens belongs to the stake's owner,
/// holds this mint and sits under the token program; the vault holds the
/// pool's mint and sits under the token program. Who pays for the instruction
/// is not constrained: the tokens can only go back to the stake's owner.
pub open spec fn unstake_accounts_check(a: Unstake) -> Result<(), ConstraintViolation> {
    if a.stake_pool.token_vault@ != a.token_vault.key@ {
        Err(ConstraintViolation::HasOne)
    } else if a.stake_pool.token_mint@ != a.token_mint@ {
        Err(ConstraintViolation::HasOne)
    } else if a.user_stake.stake_pool@ != a.stake_pool_key@ {
        Err(ConstraintViolation::Raw)
    } else if a.user_stake.token_mint@ != a.token_mint@ {
        Err(ConstraintViolation::Raw)
    } else if token_account_check(
        a.owner_token_ata,
        Some(a.user_stake.owner),
        a.token_mint,
        a.token_program,
    ) is Err {
        token_account_check(a.owner_token_ata, Some(a.user_stake.owner), a.token_mint, a.token_program)
    } else {
        token_account_check(a.token_vault, None, a.stake_pool.token_mint, a.token_program)
    }
}

impl Unstake {
    /// Checks the relationships between the accounts; see
    /// `unstake_accounts_check`.
    pub fn check_constraints(&self) -> (r: Result<(), ConstraintViolation>)
        ensures
            r == unstake_accounts_check(*self),
    {
        if !self.stake_pool.token_vault.same_as(&self.token_vault.key) {
            return Err(ConstraintViolation::HasOne);
        }
        if !self.stake_pool.token_mint.same_as(&self.token_mint) {
            return Err(ConstraintViolation::HasOne);
        }
        if !self.user_stake.stake_pool.same_as(&self.stake_pool_key) {
            return Err(ConstraintViolation::Raw);
        }
        if !self.user_stake.token_mint.same_as(&self.token_mint) {
            return Err(ConstraintViolation::Raw);
        }
        let r = check_token_account(
            &self.owner_token_ata,
            Some(&self.user_stake.owner),
            &self.token_mint,
            &self.token_program,
        );
        if r.is_err() {
            return r;
        }
        check_token_account(&self.token_vault, None, &self.stake_pool.token_mint, &self.token_program)
    }
}

/// Unstakes `amount` tokens at clock time `unix_timestamp`. On success the
/// pool and the stake are as `unstake_spec` says and the returned transfer
/// moves `amount` from the vault to the owner's token account under the pool's
/// authority, signed with the pool's seeds. On failure nothing changes.
pub fn handler(accounts: &mut Unstake, amount: u64, unix_timestamp: i64) -> (r: Result<
    Transfer,
    ErrorCode,
>)
    requires
        unstake_completes(old(accounts).stake_pool, old(accounts).user_stake, amount, unix_timestamp),
    ensures
        unstake_outcome(*old(accounts), amount, unix_timestamp, r, *final(accounts)),
{
    if accounts.stake_pool.total_staked_amount < amount {
        return Err(ErrorCode::InvalidUnstakeAmount);
    }
    if accounts.user_stake.staked_amount < amount {
        return Err(ErrorCode::InvalidUnstakeAmount);
    }
    let transfer = Transfer {
        from: accounts.token_vault.key,
        to: accounts.owner_token_ata.key,
        authority: accounts.stake_pool_key,
        amount,
        signer_seeds: accounts.stake_pool.signer_seeds(),
    };
    let timestamp = unix_timestamp as u64;
    let interval = timestamp - accounts.user_stake.last_update_reward_timestamp;
    let base_apr = #[verifier::truncate] (accounts.user_stake.base_apr_x64 as u64);
    let reward = base_apr * interval;
    let owed_reward = accounts.user_stake.owed_reward + reward;

    accounts.stake_pool.total_staked_amount = accounts.stake_pool.total_staked_amount - amount;
    accounts.user_stake.staked_amount = accounts.user_stake.staked_amount - amount;
    accounts.user_stake.owed_reward = owed_reward;
    accounts.user_stake.last_stake_timestamp = timestamp;
    accounts.user_stake.last_update_reward_timestamp = timestamp;
    Ok(transfer)
}

} // verus!
