use vstd::prelude::*;

use crate::accounts::{check_token_account, token_account_check, TokenAccountView, Transfer};
use crate::error::{ConstraintViolation, ErrorCode};
use crate::key::Key;
use crate::state::stake_pool::StakePool;

verus! {

/// The accounts of a reward deposit: the pool's guardian, through its admin
/// authority as payer, moves reward tokens from its own token account into the
/// pool's reward vault.
#[derive(Clone, Copy, Debug, PartialEq, Eq)]
pub struct DepositReward {
    pub payer: Key,
    pub stake_pool: StakePool,
    pub guardian: Key,
    pub guardian_admin_authority: Key,
    pub payer_reward_token_ata: TokenAccountView,
    pub reward_token_mint: Key,
    pub reward_vault: TokenAccountView,
    pub token_program: Key,
}

/// The accounts checked field by field in their order: the pool names the
/// reward vault, the reward mint and the guardian; the payer is the guardian's
/// admin authority; the payer's token account belongs to the
/// payer, holds the reward mint and sits under the token program; the reward
/// vault holds the reward mint and sits under the token program.
pub open spec fn deposit_reward_check(a: DepositReward) -> Result<(), ConstraintViolation> {
    if a.stake_pool.reward_vault@ != a.reward_vault.key@ {
        Err(ConstraintViolation::HasOne)
    } else if a.stake_pool.reward_token_mint@ != a.reward_token_mint@ {
        Err(ConstraintViolation::HasOne)
    } else if a.stake_pool.guardian@ != a.guardian@ {
        Err(ConstraintViolation::HasOne)
    } else if a.guardian_admin_authority@ != a.payer@ {
        Err(ConstraintViolation::Raw)
    } else if token_account_check(
        a.payer_reward_token_ata,
        Some(a.payer),
        a.reward_token_mint,
        a.token_program,
    ) is Err {
        token_account_check(a.payer_reward_token_ata, Some(a.payer), a.reward_token_mint, a.token_program)
    } else {
        token_account_check(a.reward_vault, None, a.reward_token_mint, a.token_program)
    }
}

impl DepositReward {
    /// Checks the relationships between the accounts; see
    /// `deposit_reward_check`.
    pub fn check_constraints(&self) -> (r: Result<(), ConstraintViolation>)
        ensures
            r == deposit_reward_check(*self),
    {
        if !self.stake_pool.reward_vault.same_as(&self.reward_vault.key) {
            return Err(ConstraintViolation::HasOne);
        }
        if !self.stake_pool.reward_token_mint.same_as(&self.reward_token_mint) {
            return Err(ConstraintViolation::HasOne);
        }
        if !self.stake_pool.guardian.same_as(&self.guardian) {
            return Err(ConstraintViolation::HasOne);
        }
        if !self.guardian_admin_authority.same_as(&self.payer) {
            return Err(ConstraintViolation::Raw);
        }
        let r = check_token_account(
            &self.payer_reward_token_ata,
            Some(&self.payer),
            &self.reward_token_mint,
            &self.token_program,
        );
        if r.is_err() {
            return r;
        }
        check_token_account(&self.reward_vault, None, &self.reward_token_mint, &self.token_program)
    }
}

/// The deposit of `amount` reward tokens: a transfer from the payer's token
/// account to the reward vault under the payer's authority. No account data
/// changes.
pub fn handler(accounts: &DepositReward, amount: u64) -> (r: Result<Transfer, ErrorCode>)
    ensures
        match r {
            Ok(t) => {
                &&& t.from == accounts.payer_reward_token_ata.key
                &&& t.to == accounts.reward_vault.key
                &&& t.authority == accounts.payer
                &&& t.amount == amount
                &&& t.signer_seeds@.len() == 0
            },
            Err(_) => false,
        },
{
    Ok(
        Transfer {
            from: accounts.payer_reward_token_ata.key,
            to: accounts.reward_vault.key,
            authority: accounts.payer,
            amount,
            signer_seeds: Vec::new(),
        },
    )
}

} // verus!
