//! The program's instructions as a whole: each checks its accounts' constraints
//! and, when they hold, runs its handler. The instructions that record a time
//! come twice: one reads the clock itself, the other (ending in `_at`) takes
//! the time as an argument and has an exact contract.

use vstd::prelude::*;

use crate::accounts::{staking_accounts_check, Transfer};
use crate::clock::current_unix_timestamp;
use crate::error::{DelegatorError, ErrorCode};
use crate::instructions::create_guardian::{self, CreateGuardian};
use crate::instructions::create_policy::{self, create_policy_check, CreatePolicy};
use crate::instructions::create_stake_pool::{self, create_stake_pool_check, created_stake_pool, CreateStakePool};
use crate::instructions::create_user_stake::{self, create_user_stake_check, opened_user_stake, CreateUserStake};
use crate::instructions::deposit_reward::{self, deposit_reward_check, DepositReward};
use crate::instructions::stake::{self, stake_outcome, stake_spec, Stake};
use crate::instructions::unstake::{self, reward_arithmetic_fits, unstake_accounts_check, unstake_outcome, Unstake};
use crate::state::policy::{tiers_updated, TierInfo, MAX_TIERS};
use crate::state::stake_pool::StakePool;
use crate::state::user_stake::UserStake;

verus! {

/// Creates a guardian whose admin authority is the payer. Never fails.
pub fn create_guardian(accounts: &mut CreateGuardian) -> (r: Result<(), DelegatorError>)
    ensures
        r is Ok,
        final(accounts).payer == old(accounts).payer,
        final(accounts).guardian.admin_authority == old(accounts).payer,
{
    match create_guardian::handler(accounts) {
        Ok(()) => Ok(()),
        Err(e) => Err(DelegatorError::Program(e)),
    }
}

/// Creates a stake pool once its mints sit under their token programs.
pub fn create_stake_pool(accounts: &mut CreateStakePool, episode: u8, cap_stake_amount: u64) -> (r:
    Result<(), DelegatorError>)
    ensures
        match create_stake_pool_check(*old(accounts)) {
            Err(c) => r == Err::<(), DelegatorError>(DelegatorError::Constraint(c)) && *final(accounts)
                == *old(accounts),
            Ok(_) => r is Ok && *final(accounts) == (CreateStakePool {
                stake_pool: created_stake_pool(*old(accounts), episode, cap_stake_amount),
                ..*old(accounts)
            }),
        },
{
    match accounts.check_constraints() {
        Err(c) => {
            return Err(DelegatorError::Constraint(c));
        },
        Ok(()) => {},
    }
    match create_stake_pool::handler(accounts, episode, cap_stake_amount) {
        Ok(()) => Ok(()),
        Err(e) => Err(DelegatorError::Program(e)),
    }
}

/// Creates a policy with the payer as update authority, the given base rate
/// and the given tiers copied over its table, once the payer is shown to be a
/// guardian's admin authority.
pub fn create_policy(accounts: &mut CreatePolicy, base_apr_x64: u128, tiers: Vec<TierInfo>) -> (r:
    Result<(), DelegatorError>)
    ensures
        match create_policy_check(*old(accounts)) {
            Err(c) => r == Err::<(), DelegatorError>(DelegatorError::Constraint(c)) && *final(accounts)
                == *old(accounts),
            Ok(_) => {
                &&& r is Ok
                &&& final(accounts).payer == old(accounts).payer
                &&& final(accounts).guardian_admin_authority == old(accounts).guardian_admin_authority
                &&& final(accounts).policy.update_authority == old(accounts).payer
                &&& final(accounts).policy.base_apr_x64 == base_apr_x64
                &&& final(accounts).policy.tiers@ == tiers_updated(old(accounts).policy.tiers@, tiers@)
            },
        },
{
    match accounts.check_constraints() {
        Err(c) => {
            return Err(DelegatorError::Constraint(c));
        },
        Ok(()) => {},
    }
    match create_policy::handler(accounts, base_apr_x64, tiers) {
        Ok(()) => Ok(()),
        Err(e) => Err(DelegatorError::Program(e)),
    }
}

/// Deposits `amount` reward tokens into the pool's reward vault once the
/// accounts pass their constraints; returns the transfer to make.
pub fn deposit_reward(accounts: &DepositReward, amount: u64) -> (r: Result<Transfer, DelegatorError>)
    ensures
        match deposit_reward_check(*accounts) {
            Err(c) => r == Err::<Transfer, DelegatorError>(DelegatorError::Constraint(c)),
            Ok(_) => match r {
                Ok(t) => {
                    &&& t.from == accounts.payer_reward_token_ata.key
                    &&& t.to == accounts.reward_vault.key
                    &&& t.authority == accounts.payer
                    &&& t.amount == amount
                    &&& t.signer_seeds@.len() == 0
                },
                Err(_) => false,
            },
        },
{
    match accounts.check_constraints() {
        Err(c) => {
            return Err(DelegatorError::Constraint(c));
        },
        Ok(()) => {},
    }
    match deposit_reward::handler(accounts, amount) {
        Ok(t) => Ok(t),
        Err(e) => Err(DelegatorError::Program(e)),
    }
}

/// Opens the payer's stake in the pool, in tier `tier`, with
/// `unix_timestamp` as the clock's time, once the pool names the policy passed. The tier must
/// index the policy's table.
pub fn create_user_stake_at(accounts: &mut CreateUserStake, tier: u8, unix_timestamp: i64) -> (r: Result<
    (),
    DelegatorError,
>)
    requires
        create_user_stake_check(*old(accounts)) is Ok ==> (tier as usize) < MAX_TIERS,
    ensures
        match create_user_stake_check(*old(accounts)) {
            Err(c) => r == Err::<(), DelegatorError>(DelegatorError::Constraint(c)) && *final(accounts)
                == *old(accounts),
            Ok(_) => r is Ok && *final(accounts) == (CreateUserStake {
                user_stake: opened_user_stake(*old(accounts), tier, unix_timestamp),
                ..*old(accounts)
            }),
        },
{
    match accounts.check_constraints() {
        Err(c) => {
            return Err(DelegatorError::Constraint(c));
        },
        Ok(()) => {},
    }
    match create_user_stake::handler(accounts, tier, unix_timestamp) {
        Ok(()) => Ok(()),
        Err(e) => Err(DelegatorError::Program(e)),
    }
}

/// Stakes `amount` tokens, with `unix_timestamp` as the clock's time, once the accounts
/// pass their constraints; returns the transfer to make.
pub fn stake_at(accounts: &mut Stake, amount: u64, unix_timestamp: i64) -> (r: Result<
    Transfer,
    DelegatorError,
>)
    ensures
        match staking_accounts_check(
            old(accounts).payer,
            old(accounts).stake_pool_key,
            old(accounts).stake_pool,
            old(accounts).token_mint,
            old(accounts).user_stake,
            old(accounts).payer_token_ata,
            old(accounts).token_vault,
            old(accounts).token_program,
        ) {
            Err(c) => r == Err::<Transfer, DelegatorError>(DelegatorError::Constraint(c)) && *final(accounts)
                == *old(accounts),
            Ok(_) => match r {
                Ok(t) => stake_outcome(*old(accounts), amount, unix_timestamp, Ok(t), *final(accounts)),
                Err(DelegatorError::Program(e)) => stake_outcome(
                    *old(accounts),
                    amount,
                    unix_timestamp,
                    Err(e),
                    *final(accounts),
                ),
                Err(_) => false,
            },
        },
{
    match accounts.check_constraints() {
        Err(c) => {
            return Err(DelegatorError::Constraint(c));
        },
        Ok(()) => {},
    }
    match stake::handler(accounts, amount, unix_timestamp) {
        Ok(t) => Ok(t),
        Err(e) => Err(DelegatorError::Program(e)),
    }
}

/// What an unstake of `amount` with `now` as the clock's time gives, as a
/// whole instruction: the first broken constraint; else `InvalidUnstakeAmount`
/// when the pool or the stake holds less than `amount`; else
/// `RewardOutOfRange` when the reward arithmetic at `now` leaves `u64`; in
/// each of these the accounts are unchanged. Else the accounts and the
/// transfer are as `unstake_outcome` says.
pub open spec fn unstake_at_outcome(
    old: Unstake,
    amount: u64,
    now: i64,
    r: Result<Transfer, DelegatorError>,
    new: Unstake,
) -> bool {
    match unstake_accounts_check(old) {
        Err(c) => r == Err::<Transfer, DelegatorError>(DelegatorError::Constraint(c)) && new == old,
        Ok(_) => if old.stake_pool.total_staked_amount < amount || old.user_stake.staked_amount < amount {
            r == Err::<Transfer, DelegatorError>(DelegatorError::Program(ErrorCode::InvalidUnstakeAmount))
                && new == old
        } else if !reward_arithmetic_fits(old.user_stake, now) {
            r == Err::<Transfer, DelegatorError>(DelegatorError::RewardOutOfRange) && new == old
        } else {
            match r {
                Ok(t) => unstake_outcome(old, amount, now, Ok(t), new),
                Err(_) => false,
            }
        },
    }
}

/// Unstakes `amount` tokens, with `unix_timestamp` as the clock's time; see
/// `unstake_at_outcome`. Returns the transfer to make.
pub fn unstake_at(accounts: &mut Unstake, amount: u64, unix_timestamp: i64) -> (r: Result<
    Transfer,
    DelegatorError,
>)
    ensures
        unstake_at_outcome(*old(accounts), amount, unix_timestamp, r, *final(accounts)),
{
    match accounts.check_constraints() {
        Err(c) => {
            return Err(DelegatorError::Constraint(c));
        },
        Ok(()) => {},
    }
    if accounts.stake_pool.total_staked_amount < amount || accounts.user_stake.staked_amount < amount {
        return Err(DelegatorError::Program(ErrorCode::InvalidUnstakeAmount));
    }
    if !unstake::reward_fits(&accounts.user_stake, unix_timestamp) {
        return Err(DelegatorError::RewardOutOfRange);
    }
    match unstake::handler(accounts, amount, unix_timestamp) {
        Ok(t) => Ok(t),
        Err(e) => Err(DelegatorError::Program(e)),
    }
}

/// Opens the payer's stake in the pool, in tier `tier`, at the time the
/// clock shows, once the pool names the policy passed. The tier must index the
/// policy's table. Whatever time the clock shows, the stake is opened as
/// `opened_user_stake` says for that time.
pub fn create_user_stake(accounts: &mut CreateUserStake, tier: u8) -> (r: Result<(), DelegatorError>)
    requires
        create_user_stake_check(*old(accounts)) is Ok ==> (tier as usize) < MAX_TIERS,
    ensures
        match create_user_stake_check(*old(accounts)) {
            Err(c) => r == Err::<(), DelegatorError>(DelegatorError::Constraint(c)) && *final(accounts)
                == *old(accounts),
            Ok(_) => match r {
                Ok(_) => exists|now: i64|
                    *final(accounts) == (CreateUserStake {
                        user_stake: #[trigger] opened_user_stake(*old(accounts), tier, now),
                        ..*old(accounts)
                    }),
                Err(DelegatorError::ClockUnavailable) => *final(accounts) == *old(accounts),
                Err(_) => false,
            },
        },
{
    match accounts.check_constraints() {
        Err(c) => {
            return Err(DelegatorError::Constraint(c));
        },
        Ok(()) => {},
    }
    let now = match current_unix_timestamp() {
        Some(t) => t,
        None => {
            return Err(DelegatorError::ClockUnavailable);
        },
    };
    create_user_stake_at(accounts, tier, now)
}

/// Stakes `amount` tokens at the time the clock shows once the accounts pass
/// their constraints; returns the transfer to make. Whether the stake is
/// accepted does not depend on the time; when it is, the accounts and the
/// transfer are as `stake_outcome` says for the time the clock showed.
pub fn stake(accounts: &mut Stake, amount: u64) -> (r: Result<Transfer, DelegatorError>)
    ensures
        match staking_accounts_check(
            old(accounts).payer,
            old(accounts).stake_pool_key,
            old(accounts).stake_pool,
            old(accounts).token_mint,
            old(accounts).user_stake,
            old(accounts).payer_token_ata,
            old(accounts).token_vault,
            old(accounts).token_program,
        ) {
            Err(c) => r == Err::<Transfer, DelegatorError>(DelegatorError::Constraint(c)) && *final(accounts)
                == *old(accounts),
            Ok(_) => match r {
                Ok(t) => exists|now: i64| #[trigger]
                    stake_outcome(*old(accounts), amount, now, Ok(t), *final(accounts)),
                Err(DelegatorError::Program(e)) => {
                    &&& forall|now: i64| #[trigger]
                        stake_spec(old(accounts).stake_pool, old(accounts).user_stake, amount, now)
                            == Err::<(StakePool, UserStake), ErrorCode>(e)
                    &&& *final(accounts) == *old(accounts)
                },
                Err(DelegatorError::ClockUnavailable) => {
                    &&& forall|now: i64| #[trigger]
                        stake_spec(old(accounts).stake_pool, old(accounts).user_stake, amount, now) is Ok
                    &&& *final(accounts) == *old(accounts)
                },
                Err(_) => false,
            },
        },
{
    match accounts.check_constraints() {
        Err(c) => {
            return Err(DelegatorError::Constraint(c));
        },
        Ok(()) => {},
    }
    match stake::total_after_stake(&accounts.stake_pool, amount) {
        Err(e) => {
            return Err(DelegatorError::Program(e));
        },
        Ok(_) => {},
    }
    if accounts.user_stake.staked_amount.checked_add(amount).is_none() {
        return Err(DelegatorError::Program(ErrorCode::IntegerOverflow));
    }
    let now = match current_unix_timestamp() {
        Some(t) => t,
        None => {
            return Err(DelegatorError::ClockUnavailable);
        },
    };
    let r = stake_at(accounts, amount, now);
    assert(r is Ok);
    r
}

/// Unstakes `amount` tokens at the time the clock shows; returns the transfer
/// to make. The constraints and the amount are checked first, as they do not
/// depend on the time; then the clock is read and the result is what
/// `unstake_at` gives for the time read. When the runtime provides no clock,
/// `ClockUnavailable` is reported with the accounts unchanged.
pub fn unstake(accounts: &mut Unstake, amount: u64) -> (r: Result<Transfer, DelegatorError>)
    ensures
        match r {
            Err(DelegatorError::ClockUnavailable) => {
                &&& unstake_accounts_check(*old(accounts)) is Ok
                &&& old(accounts).stake_pool.total_staked_amount >= amount
                &&& old(accounts).user_stake.staked_amount >= amount
                &&& *final(accounts) == *old(accounts)
            },
            _ => exists|now: i64| #[trigger]
                unstake_at_outcome(*old(accounts), amount, now, r, *final(accounts)),
        },
{
    match accounts.check_constraints() {
        Err(c) => {
            let r = Err(DelegatorError::Constraint(c));
            assert(unstake_at_outcome(*old(accounts), amount, 0, r, *accounts));
            return r;
        },
        Ok(()) => {},
    }
    if accounts.stake_pool.total_staked_amount < amount || accounts.user_stake.staked_amount < amount {
        let r = Err(DelegatorError::Program(ErrorCode::InvalidUnstakeAmount));
        assert(unstake_at_outcome(*old(accounts), amount, 0, r, *accounts));
        return r;
    }
    let now = match current_unix_timestamp() {
        Some(t) => t,
        None => {
            return Err(DelegatorError::ClockUnavailable);
        },
    };
    unstake_at(accounts, amount, now)
}

} // verus!
