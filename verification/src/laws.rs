//! Properties that relate the instructions to one another or hold across
//! every call of one.

use vstd::prelude::*;

use crate::accounts::{staking_accounts_check, Transfer};
use crate::error::ErrorCode;
use crate::instructions::create_stake_pool::{created_stake_pool, CreateStakePool};
use crate::instructions::create_user_stake::{opened_user_stake, CreateUserStake};
use crate::instructions::stake::{stake_outcome, stake_spec, Stake};
use crate::instructions::unstake::{
    accrued_reward, reward_arithmetic_fits, timestamp_of, unstake_accounts_check, unstake_outcome, unstake_spec,
    Unstake,
};
use crate::state::policy::{tiers_updated, TierInfo, MAX_TIERS};
use crate::state::stake_pool::{stake_pool_signer_seeds, StakePool};
use crate::state::user_stake::UserStake;

verus! {

/// Unstaking what was just staked is always accepted and brings the pool's
/// total and the user's stake back to what they were.
pub proof fn lemma_unstake_undoes_stake(
    pool: StakePool,
    user: UserStake,
    amount: u64,
    stake_time: i64,
    unstake_time: i64,
)
    requires
        stake_spec(pool, user, amount, stake_time) is Ok,
    ensures
        ({
            let (p1, u1) = stake_spec(pool, user, amount, stake_time)->Ok_0;
            &&& unstake_spec(p1, u1, amount, unstake_time) is Ok
            &&& unstake_spec(p1, u1, amount, unstake_time)->Ok_0.0.total_staked_amount
                == pool.total_staked_amount
            &&& unstake_spec(p1, u1, amount, unstake_time)->Ok_0.1.staked_amount
                == user.staked_amount
        }),
{
}

/// While the pool's total covers the user's stake, a stake is accepted exactly
/// when the new total fits under the pool's cap, and afterwards the total
/// still covers the stake.
pub proof fn lemma_stake_keeps_stake_covered(pool: StakePool, user: UserStake, amount: u64, now: i64)
    requires
        user.staked_amount <= pool.total_staked_amount,
    ensures
        stake_spec(pool, user, amount, now) is Ok <==> pool.total_staked_amount + amount
            <= pool.cap_stake_amount,
        stake_spec(pool, user, amount, now) is Ok ==> stake_spec(pool, user, amount, now)->Ok_0.1.staked_amount
            <= stake_spec(pool, user, amount, now)->Ok_0.0.total_staked_amount,
{
}

/// While the pool's total covers the user's stake, an unstake keeps it covered.
pub proof fn lemma_unstake_keeps_stake_covered(pool: StakePool, user: UserStake, amount: u64, now: i64)
    requires
        user.staked_amount <= pool.total_staked_amount,
    ensures
        unstake_spec(pool, user, amount, now) is Ok ==> unstake_spec(pool, user, amount, now)->Ok_0.1.staked_amount
            <= unstake_spec(pool, user, amount, now)->Ok_0.0.total_staked_amount,
{
}

/// A stake that is accepted moves the pool's total and the user's stake up by
/// the same amount, the amount of the tokens it transfers into the vault; the
/// pool's total minus the user's stake is therefore unchanged.
pub proof fn lemma_stake_moves_total_and_stake_together(
    old: Stake,
    amount: u64,
    now: i64,
    t: Transfer,
    new: Stake,
)
    requires
        stake_outcome(old, amount, now, Ok(t), new),
    ensures
        new.stake_pool.total_staked_amount == old.stake_pool.total_staked_amount + t.amount,
        new.user_stake.staked_amount == old.user_stake.staked_amount + t.amount,
{
}

/// An unstake that is accepted moves the pool's total and the user's stake
/// down by the same amount, the amount of the tokens it transfers out of the
/// vault.
pub proof fn lemma_unstake_moves_total_and_stake_together(
    old: Unstake,
    amount: u64,
    now: i64,
    t: Transfer,
    new: Unstake,
)
    requires
        unstake_outcome(old, amount, now, Ok(t), new),
    ensures
        new.stake_pool.total_staked_amount + t.amount == old.stake_pool.total_staked_amount,
        new.user_stake.staked_amount + t.amount == old.user_stake.staked_amount,
{
}

/// When a stake's accounts pass their constraints and the stake is accepted,
/// its tokens come from a token account of the stake's owner, holding the
/// pool's mint, under the owner's authority, and go into the vault the pool
/// names.
pub proof fn lemma_stake_pays_into_pool_vault(old: Stake, amount: u64, now: i64, t: Transfer, new: Stake)
    requires
        staking_accounts_check(
            old.payer,
            old.stake_pool_key,
            old.stake_pool,
            old.token_mint,
            old.user_stake,
            old.payer_token_ata,
            old.token_vault,
            old.token_program,
        ) is Ok,
        stake_outcome(old, amount, now, Ok(t), new),
    ensures
        t.to@ == old.stake_pool.token_vault@,
        t.from == old.payer_token_ata.key,
        old.payer_token_ata.owner@ == old.user_stake.owner@,
        old.payer_token_ata.mint@ == old.stake_pool.token_mint@,
        t.authority@ == old.user_stake.owner@,
{
}

/// When an unstake's accounts pass their constraints and the unstake is
/// accepted, its tokens leave the vault the pool names, under the pool's own
/// authority signed with the pool's seeds, and go to a token account of the
/// stake's owner that holds the pool's mint, whoever paid for the
/// instruction.
pub proof fn lemma_unstake_pays_back_to_owner(old: Unstake, amount: u64, now: i64, t: Transfer, new: Unstake)
    requires
        unstake_accounts_check(old) is Ok,
        unstake_outcome(old, amount, now, Ok(t), new),
    ensures
        t.from@ == old.stake_pool.token_vault@,
        t.authority@ == old.user_stake.stake_pool@,
        t.signer_seeds.deep_view() == stake_pool_signer_seeds(old.stake_pool),
        t.to == old.owner_token_ata.key,
        old.owner_token_ata.owner@ == old.user_stake.owner@,
        old.owner_token_ata.mint@ == old.stake_pool.token_mint@,
{
}

/// A stake keeps the moment it was opened: neither a stake nor an unstake
/// changes its creation time.
pub proof fn lemma_creation_time_is_kept(
    pool: StakePool,
    user: UserStake,
    stake_amount: u64,
    unstake_amount: u64,
    now: i64,
)
    ensures
        stake_spec(pool, user, stake_amount, now) is Ok ==> stake_spec(pool, user, stake_amount, now)->Ok_0.1.created_timestamp
            == user.created_timestamp,
        unstake_spec(pool, user, unstake_amount, now) is Ok ==> unstake_spec(
            pool,
            user,
            unstake_amount,
            now,
        )->Ok_0.1.created_timestamp == user.created_timestamp,
{
}

/// No stake or unstake, accepted or refused, leaves a pool holding more than
/// its cap when it held no more before.
pub proof fn lemma_cap_is_never_passed(
    stake_before: Stake,
    stake_amount: u64,
    stake_time: i64,
    stake_result: Result<Transfer, ErrorCode>,
    stake_after: Stake,
    unstake_before: Unstake,
    unstake_amount: u64,
    unstake_time: i64,
    unstake_result: Result<Transfer, ErrorCode>,
    unstake_after: Unstake,
)
    requires
        stake_outcome(stake_before, stake_amount, stake_time, stake_result, stake_after),
        unstake_outcome(unstake_before, unstake_amount, unstake_time, unstake_result, unstake_after),
    ensures
        stake_before.stake_pool.total_staked_amount <= stake_before.stake_pool.cap_stake_amount
            ==> stake_after.stake_pool.total_staked_amount <= stake_after.stake_pool.cap_stake_amount,
        stake_result is Ok ==> stake_after.stake_pool.total_staked_amount
            <= stake_after.stake_pool.cap_stake_amount,
        unstake_before.stake_pool.total_staked_amount <= unstake_before.stake_pool.cap_stake_amount
            ==> unstake_after.stake_pool.total_staked_amount
            <= unstake_after.stake_pool.cap_stake_amount,
{
}

/// Reward accrues with elapsed time only: a second unstake at the same clock
/// time adds nothing to what is owed.
pub proof fn lemma_no_reward_without_elapsed_time(
    pool: StakePool,
    user: UserStake,
    first: u64,
    second: u64,
    now: i64,
)
    requires
        unstake_spec(pool, user, first, now) is Ok,
        unstake_spec(
            unstake_spec(pool, user, first, now)->Ok_0.0,
            unstake_spec(pool, user, first, now)->Ok_0.1,
            second,
            now,
        ) is Ok,
    ensures
        ({
            let (p1, u1) = unstake_spec(pool, user, first, now)->Ok_0;
            let (p2, u2) = unstake_spec(p1, u1, second, now)->Ok_0;
            &&& accrued_reward(u1, timestamp_of(now)) == 0
            &&& u2.owed_reward == u1.owed_reward
        }),
{
    let (p1, u1) = unstake_spec(pool, user, first, now)->Ok_0;
    assert(u1.last_update_reward_timestamp == timestamp_of(now));
    assert(accrued_reward(u1, timestamp_of(now)) == (u1.base_apr_x64 as u64) * 0int);
}

/// A freshly opened stake holds nothing, so any pool's total covers it.
pub proof fn lemma_opened_stake_is_covered(accounts: CreateUserStake, tier: u8, now: i64)
    ensures
        opened_user_stake(accounts, tier, now).staked_amount <= accounts.stake_pool.total_staked_amount,
        opened_user_stake(accounts, tier, now).owed_reward == 0,
{
}

/// Copying a list of at least `MAX_TIERS` tiers replaces the whole table with
/// the list's first entries, whatever the table held before.
pub proof fn lemma_full_tier_list_replaces_table(tiers: Seq<TierInfo>, given: Seq<TierInfo>)
    requires
        tiers.len() == MAX_TIERS,
        given.len() >= MAX_TIERS,
    ensures
        tiers_updated(tiers, given) == given.subrange(0, MAX_TIERS as int),
{
    assert(tiers_updated(tiers, given) =~= given.subrange(0, MAX_TIERS as int));
}

/// Copying an empty list of tiers leaves the table as it was.
pub proof fn lemma_empty_tier_list_keeps_table(tiers: Seq<TierInfo>)
    ensures
        tiers_updated(tiers, Seq::empty()) == tiers,
{
    assert(tiers_updated(tiers, Seq::empty()) =~= tiers);
}

/// An accepted unstake at clock time `now` adds to what is owed exactly the low
/// 64 bits of the base rate times the seconds since the last reward update,
/// whatever time the last stake was made at, and sets both timestamps to
/// `now`; the amounts shrink by `amount`.
pub proof fn lemma_unstake_reward_is_rate_times_elapsed(
    pool: StakePool,
    user: UserStake,
    amount: u64,
    now: i64,
)
    requires
        amount <= pool.total_staked_amount,
        amount <= user.staked_amount,
        now as u64 >= user.last_update_reward_timestamp,
        user.owed_reward + (user.base_apr_x64 as u64) * ((now as u64) - user.last_update_reward_timestamp)
            <= u64::MAX,
    ensures
        unstake_spec(pool, user, amount, now) is Ok,
        unstake_spec(pool, user, amount, now)->Ok_0.1.owed_reward == user.owed_reward
            + (user.base_apr_x64 as u64) * ((now as u64) - user.last_update_reward_timestamp),
        unstake_spec(pool, user, amount, now)->Ok_0.1.last_update_reward_timestamp == now as u64,
        unstake_spec(pool, user, amount, now)->Ok_0.1.last_stake_timestamp == now as u64,
        unstake_spec(pool, user, amount, now)->Ok_0.1.staked_amount == user.staked_amount - amount,
        unstake_spec(pool, user, amount, now)->Ok_0.0.total_staked_amount == pool.total_staked_amount
            - amount,
{
}

/// The reward arithmetic of an unstake at `now` fits exactly when the clock has
/// not run back past the last reward update and the owed total plus the
/// reward since that update stays within `u64`; the time of the last stake
/// plays no part.
pub proof fn lemma_reward_fits_exactly_when_in_range(user: UserStake, now: i64)
    ensures
        reward_arithmetic_fits(user, now) <==> (now as u64 >= user.last_update_reward_timestamp
            && user.owed_reward + (user.base_apr_x64 as u64) * ((now as u64)
            - user.last_update_reward_timestamp) <= u64::MAX),
{
    if now as u64 >= user.last_update_reward_timestamp {
        let d = (now as u64) - user.last_update_reward_timestamp;
        assert(0 <= (user.base_apr_x64 as u64) * d) by (nonlinear_arith)
            requires
                d >= 0,
        ;
    }
}

/// A stake does not change the reward a later unstake accrues: staking and
/// then unstaking at `now` leaves the same amount owed, and the same reward
/// time, as unstaking at `now` from the stake as it was before.
pub proof fn lemma_stake_keeps_accruing_reward(
    pool: StakePool,
    user: UserStake,
    stake_amount: u64,
    stake_time: i64,
    unstake_amount: u64,
    now: i64,
)
    requires
        stake_spec(pool, user, stake_amount, stake_time) is Ok,
        unstake_amount <= pool.total_staked_amount,
        unstake_amount <= user.staked_amount,
    ensures
        ({
            let (p1, u1) = stake_spec(pool, user, stake_amount, stake_time)->Ok_0;
            &&& unstake_spec(p1, u1, unstake_amount, now) is Ok
            &&& unstake_spec(pool, user, unstake_amount, now) is Ok
            &&& unstake_spec(p1, u1, unstake_amount, now)->Ok_0.1.owed_reward == unstake_spec(
                pool,
                user,
                unstake_amount,
                now,
            )->Ok_0.1.owed_reward
            &&& unstake_spec(p1, u1, unstake_amount, now)->Ok_0.1.last_update_reward_timestamp
                == unstake_spec(pool, user, unstake_amount, now)->Ok_0.1.last_update_reward_timestamp
            &&& reward_arithmetic_fits(u1, now) == reward_arithmetic_fits(user, now)
        }),
{
}

/// Copying a list of tiers over the table, for a list of any length: every
/// entry below the list's length (and the table's size) becomes the list's
/// entry, every other entry stays, and the table keeps its size.
pub proof fn lemma_tiers_updated_entrywise(tiers: Seq<TierInfo>, given: Seq<TierInfo>, i: int)
    requires
        tiers.len() == MAX_TIERS,
        0 <= i < MAX_TIERS,
    ensures
        tiers_updated(tiers, given).len() == MAX_TIERS,
        i < given.len() ==> tiers_updated(tiers, given)[i] == given[i],
        i >= given.len() ==> tiers_updated(tiers, given)[i] == tiers[i],
{
}

/// Copying a list of tiers over the table, for a list of any length: the table
/// starts with the first `min(len, MAX_TIERS)` entries of the list and ends
/// with the table's own entries past them.
pub proof fn lemma_tiers_updated_prefix_and_rest(tiers: Seq<TierInfo>, given: Seq<TierInfo>)
    requires
        tiers.len() == MAX_TIERS,
    ensures
        ({
            let k: int = if given.len() < MAX_TIERS { given.len() as int } else { MAX_TIERS as int };
            &&& tiers_updated(tiers, given).subrange(0, k) == given.subrange(0, k)
            &&& tiers_updated(tiers, given).subrange(k, MAX_TIERS as int) == tiers.subrange(
                k,
                MAX_TIERS as int,
            )
        }),
{
    let k: int = if given.len() < MAX_TIERS { given.len() as int } else { MAX_TIERS as int };
    assert(tiers_updated(tiers, given).subrange(0, k) =~= given.subrange(0, k));
    assert(tiers_updated(tiers, given).subrange(k, MAX_TIERS as int) =~= tiers.subrange(
        k,
        MAX_TIERS as int,
    ));
}

/// A created pool records exactly what it was created with: its cap is the cap
/// argument, for every `u64` value, and its episode, bump, guardian, policy,
/// mints and vaults are those passed; nothing is staked in it yet.
pub proof fn lemma_created_pool_records_its_arguments(
    accounts: CreateStakePool,
    episode: u8,
    cap_stake_amount: u64,
)
    ensures
        created_stake_pool(accounts, episode, cap_stake_amount).cap_stake_amount == cap_stake_amount,
        created_stake_pool(accounts, episode, cap_stake_amount).total_staked_amount == 0,
        created_stake_pool(accounts, episode, cap_stake_amount).episode == episode,
        created_stake_pool(accounts, episode, cap_stake_amount).bump == accounts.stake_pool_bump,
        created_stake_pool(accounts, episode, cap_stake_amount).guardian == accounts.guardian,
        created_stake_pool(accounts, episode, cap_stake_amount).policy == accounts.policy,
        created_stake_pool(accounts, episode, cap_stake_amount).token_mint == accounts.token_mint.key,
        created_stake_pool(accounts, episode, cap_stake_amount).token_vault == accounts.token_vault,
        created_stake_pool(accounts, episode, cap_stake_amount).reward_token_mint
            == accounts.reward_token_mint.key,
        created_stake_pool(accounts, episode, cap_stake_amount).reward_vault == accounts.reward_vault,
{
}

/// Into a freshly created pool, a first stake by a user who holds nothing is
/// accepted exactly when it does not pass the cap the pool was created with,
/// and then the pool holds exactly that amount.
pub proof fn lemma_fresh_pool_takes_stakes_up_to_its_cap(
    accounts: CreateStakePool,
    episode: u8,
    cap_stake_amount: u64,
    user: UserStake,
    amount: u64,
    now: i64,
)
    requires
        user.staked_amount == 0,
    ensures
        stake_spec(created_stake_pool(accounts, episode, cap_stake_amount), user, amount, now) is Ok
            <==> amount <= cap_stake_amount,
        amount <= cap_stake_amount ==> stake_spec(
            created_stake_pool(accounts, episode, cap_stake_amount),
            user,
            amount,
            now,
        )->Ok_0.0.total_staked_amount == amount,
{
}

} // verus!
