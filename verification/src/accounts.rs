//! What the instructions read of the token accounts and mints passed to them,
//! the checks those accounts must pass, and the token movements that
//! instructions ask for.

use vstd::prelude::*;

use crate::error::ConstraintViolation;
use crate::key::Key;
use crate::state::stake_pool::StakePool;
use crate::state::user_stake::UserStake;

verus! {

/// A token account as the constraints see it.
#[derive(Clone, Copy, Debug, PartialEq, Eq)]
pub struct TokenAccountView {
    /// The account's own address.
    pub key: Key,
    /// The mint of the tokens it holds.
    pub mint: Key,
    /// The authority that may move its tokens.
    pub owner: Key,
    /// The token program that owns the account.
    pub program_id: Key,
}

/// A mint as the constraints see it.
#[derive(Clone, Copy, Debug, PartialEq, Eq)]
pub struct MintView {
    /// The mint's own address.
    pub key: Key,
    /// The token program that owns the mint.
    pub program_id: Key,
}

/// A movement of `amount` tokens from one token account to another, approved
/// by `authority`. When the authority is a program-derived account,
/// `signer_seeds` holds the seeds it signs with; otherwise it is empty.
#[derive(Clone, Debug, PartialEq, Eq)]
pub struct Transfer {
    pub from: Key,
    pub to: Key,
    pub authority: Key,
    pub amount: u64,
    pub signer_seeds: Vec<Vec<u8>>,
}

/// `Ok` when the token account's authority, mint and program are the given
/// ones, else the first of those checks that fails, in that order.
pub open spec fn token_account_check(
    account: TokenAccountView,
    owner: Option<Key>,
    mint: Key,
    token_program: Key,
) -> Result<(), ConstraintViolation> {
    if owner is Some && account.owner@ != owner->0@ {
        Err(ConstraintViolation::TokenOwner)
    } else if account.mint@ != mint@ {
        Err(ConstraintViolation::TokenMint)
    } else if account.program_id@ != token_program@ {
        Err(ConstraintViolation::TokenTokenProgram)
    } else {
        Ok(())
    }
}

/// Checks a token account against its constraints: authority (when one is
/// demanded), then mint, then owning program.
pub fn check_token_account(
    account: &TokenAccountView,
    owner: Option<&Key>,
    mint: &Key,
    token_program: &Key,
) -> (r: Result<(), ConstraintViolation>)
    ensures
        r == token_account_check(
            *account,
            match owner {
                Some(o) => Some(*o),
                None => None,
            },
            *mint,
            *token_program,
        ),
{
    match owner {
        Some(o) => {
            if !account.owner.same_as(o) {
                return Err(ConstraintViolation::TokenOwner);
            }
        },
        None => {},
    }
    if !account.mint.same_as(mint) {
        return Err(ConstraintViolation::TokenMint);
    }
    if !account.program_id.same_as(token_program) {
        return Err(ConstraintViolation::TokenTokenProgram);
    }
    Ok(())
}

/// `Ok` when the mint is owned by the given token program.
pub open spec fn mint_check(mint: MintView, token_program: Key) -> Result<(), ConstraintViolation> {
    if mint.program_id@ != token_program@ {
        Err(ConstraintViolation::MintTokenProgram)
    } else {
        Ok(())
    }
}

/// Checks that a mint is owned by the given token program.
pub fn check_mint(mint: &MintView, token_program: &Key) -> (r: Result<(), ConstraintViolation>)
    ensures
        r == mint_check(*mint, *token_program),
{
    if !mint.program_id.same_as(token_program) {
        return Err(ConstraintViolation::MintTokenProgram);
    }
    Ok(())
}

/// The accounts of a stake, checked field by field in their order: the pool
/// names the vault and the mint; the user's stake belongs to the payer, to this pool and to this mint; the payer's token
/// account belongs to the payer, holds this mint and sits under the token
/// program; the vault holds the pool's mint and sits under the token program.
pub open spec fn staking_accounts_check(
    payer: Key,
    stake_pool_key: Key,
    stake_pool: StakePool,
    token_mint: Key,
    user_stake: UserStake,
    payer_token_ata: TokenAccountView,
    token_vault: TokenAccountView,
    token_program: Key,
) -> Result<(), ConstraintViolation> {
    if stake_pool.token_vault@ != token_vault.key@ {
        Err(ConstraintViolation::HasOne)
    } else if stake_pool.token_mint@ != token_mint@ {
        Err(ConstraintViolation::HasOne)
    } else if user_stake.owner@ != payer@ {
        Err(ConstraintViolation::Raw)
    } else if user_stake.stake_pool@ != stake_pool_key@ {
        Err(ConstraintViolation::Raw)
    } else if user_stake.token_mint@ != token_mint@ {
        Err(ConstraintViolation::Raw)
    } else if token_account_check(payer_token_ata, Some(payer), token_mint, token_program) is Err {
        token_account_check(payer_token_ata, Some(payer), token_mint, token_program)
    } else {
        token_account_check(token_vault, None, stake_pool.token_mint, token_program)
    }
}

/// Checks the accounts of a stake; see `staking_accounts_check`.
pub fn check_staking_accounts(
    payer: &Key,
    stake_pool_key: &Key,
    stake_pool: &StakePool,
    token_mint: &Key,
    user_stake: &UserStake,
    payer_token_ata: &TokenAccountView,
    token_vault: &TokenAccountView,
    token_program: &Key,
) -> (r: Result<(), ConstraintViolation>)
    ensures
        r == staking_accounts_check(
            *payer,
            *stake_pool_key,
            *stake_pool,
            *token_mint,
            *user_stake,
            *payer_token_ata,
            *token_vault,
            *token_program,
        ),
{
    if !stake_pool.token_vault.same_as(&token_vault.key) {
        return Err(ConstraintViolation::HasOne);
    }
    if !stake_pool.token_mint.same_as(token_mint) {
        return Err(ConstraintViolation::HasOne);
    }
    if !user_stake.owner.same_as(payer) {
        return Err(ConstraintViolation::Raw);
    }
    if !user_stake.stake_pool.same_as(stake_pool_key) {
        return Err(ConstraintViolation::Raw);
    }
    if !user_stake.token_mint.same_as(token_mint) {
        return Err(ConstraintViolation::Raw);
    }
    let r = check_token_account(payer_token_ata, Some(payer), token_mint, token_program);
    if r.is_err() {
        return r;
    }
    check_token_account(token_vault, None, &stake_pool.token_mint, token_program)
}

} // verus!
