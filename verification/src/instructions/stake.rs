use vstd::prelude::*;

use crate::accounts::{check_staking_accounts, staking_accounts_check, TokenAccountView, Transfer};
use crate::error::{ConstraintViolation, ErrorCode};
use crate::key::Key;
use crate::state::stake_pool::StakePool;
use crate::state::user_stake::UserStake;

verus! {

/// The accounts of a stake: the payer moves tokens from their own token
/// account into the pool's vault and records them in their stake.
#[derive(Clone, Copy, Debug, PartialEq, Eq)]
pub struct Stake {
    pub payer: Key,
    pub stake_pool_key: Key,
    pub stake_pool: StakePool,
    pub token_mint: Key,
    pub user_stake: UserStake,
    pub payer_token_ata: TokenAccountView,
    pub token_vault: TokenAccountView,
    pub token_program: Key,
}

/// What staking `amount` at clock time `now` makes of the pool and the stake:
/// the pool's total grows by `amount`, which must neither overflow nor pass
/// the pool's cap; the stake grows by `amount` too and records `now`.
pub open spec fn stake_spec(pool: StakePool, user: UserStake, amount: u64, now: i64) -> Result<
    (StakePool, UserStake),
    ErrorCode,
> {
    let total = pool.total_staked_amount + amount;
    let staked = user.staked_amount + amount;
    if total > u64::MAX {
        Err(ErrorCode::IntegerOverflow)
    } else if total > pool.cap_stake_amount {
        Err(ErrorCode::StakeAmountExceedsCap)
    } else if staked > u64::MAX {
        Err(ErrorCode::IntegerOverflow)
    } else {
        Ok(
            (
                StakePool { total_staked_amount: total as u64, ..pool },
                UserStake { staked_amount: staked as u64, last_stake_timestamp: now as u64, ..user },
            ),
        )
    }
}

/// What a stake of `amount` at clock time `unix_timestamp` leaves behind: on `Ok`,
/// the accounts as `stake_spec` says with everything else unchanged, and the
/// returned transfer; on `Err`, the error `stake_spec` gives and the accounts
/// unchanged.
pub open spec fn stake_outcome(old: Stake, amount: u64, unix_timestamp: i64, r: Result<Transfer, ErrorCode>, new: Stake) -> bool {
    match r {
        Ok(t) => {
            &&& stake_spec(old.stake_pool, old.user_stake, amount, unix_timestamp)
                == Ok::<(StakePool, UserStake), ErrorCode>((new.stake_pool, new.user_stake))
            &&& new == (Stake {
                stake_pool: new.stake_pool,
                user_stake: new.user_stake,
                ..old
            })
            &&& t.from == old.payer_token_ata.key
            &&& t.to == old.token_vault.key
            &&& t.authority == old.payer
            &&& t.amount == amount
            &&& t.signer_seeds@.len() == 0
        },
        Err(e) => {
            &&& stake_spec(old.stake_pool, old.user_stake, amount, unix_timestamp)
                == Err::<(StakePool, UserStake), ErrorCode>(e)
            &&& new == old
        },
    }
}

impl Stake {
    /// Checks the relationships between the accounts; see
    /// `staking_accounts_check`.
    pub fn check_constraints(&self) -> (r: Result<(), ConstraintViolation>)
        ensures
            r == staking_accounts_check(
                self.payer,
                self.stake_pool_key,
                self.stake_pool,
                self.token_mint,
                self.user_stake,
                self.payer_token_ata,
                self.token_vault,
                self.token_program,
            ),
    {
        check_staking_accounts(
            &self.payer,
            &self.stake_pool_key,
            &self.stake_pool,
            &self.token_mint,
            &self.user_stake,
            &self.payer_token_ata,
            &self.token_vault,
            &self.token_program,
        )
    }
}

/// The pool's total after taking in `amount`, or the error that refuses it:
/// `IntegerOverflow` when the sum does not fit, `StakeAmountExceedsCap` when
/// it passes the cap.
pub fn total_after_stake(pool: &StakePool, amount: u64) -> (r: Result<u64, ErrorCode>)
    ensures
        match r {
            Ok(total) => {
                &&& total == pool.total_staked_amount + amount
                &&& total <= pool.cap_stake_amount
            },
            Err(e) => {
                ||| pool.total_staked_amount + amount > u64::MAX && e == ErrorCode::IntegerOverflow
                ||| pool.total_staked_amount + amount <= u64::MAX && pool.total_staked_amount
                    + amount > pool.cap_stake_amount && e == ErrorCode::StakeAmountExceedsCap
            },
        },
{
    let staked_amount = match pool.total_staked_amount.checked_add(amount) {
        Some(s) => s,
        None => {
            return Err(ErrorCode::IntegerOverflow);
        },
    };
    if staked_amount > pool.cap_stake_amount {
        return Err(ErrorCode::StakeAmountExceedsCap);
    }
    Ok(staked_amount)
}

/// Stakes `amount` tokens at clock time `unix_timestamp`. On success the pool
/// and the stake are as `stake_spec` says and the returned transfer moves
/// `amount` from the payer's token account to the vault under the payer's
/// authority. On failure nothing changes.
pub fn handler(accounts: &mut Stake, amount: u64, unix_timestamp: i64) -> (r: Result<
    Transfer,
    ErrorCode,
>)
    ensures
        stake_outcome(*old(accounts), amount, unix_timestamp, r, *final(accounts)),
{
    let staked_amount = match total_after_stake(&accounts.stake_pool, amount) {
        Ok(s) => s,
        Err(e) => {
            return Err(e);
        },
    };
    let user_staked = match accounts.user_stake.staked_amount.checked_add(amount) {
        Some(s) => s,
        None => {
            return Err(ErrorCode::IntegerOverflow);
        },
    };
    let transfer = Transfer {
        from: accounts.payer_token_ata.key,
        to: accounts.token_vault.key,
        authority: accounts.payer,
        amount,
        signer_seeds: Vec::new(),
    };
    accounts.stake_pool.total_staked_amount = staked_amount;
    accounts.user_stake.staked_amount = user_staked;
    accounts.user_stake.last_stake_timestamp = unix_timestamp as u64;
    Ok(transfer)
}

} // verus!
