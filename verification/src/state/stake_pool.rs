use vstd::prelude::*;

use crate::key::Key;

verus! {

/// A pool into which users stake one kind of token, up to a cap.
#[derive(Clone, Copy, Debug, PartialEq, Eq)]
pub struct StakePool {
    pub guardian: Key,
    pub policy: Key,
    pub token_mint: Key,
    pub token_vault: Key,
    pub reward_token_mint: Key,
    pub reward_vault: Key,
    pub total_staked_amount: u64,
    pub cap_stake_amount: u64,
    pub episode: u8,
    pub bump: u8,
}

/// The first seed of every pool address: the ASCII bytes of `stake_pool`.
pub open spec fn stake_pool_seed_prefix() -> Seq<u8> {
    seq![115u8, 116u8, 97u8, 107u8, 101u8, 95u8, 112u8, 111u8, 111u8, 108u8]
}

/// The seeds a pool's address is derived from: the prefix, the guardian's
/// address and the episode's byte.
pub open spec fn stake_pool_address_seeds(guardian: Key, episode: u8) -> Seq<Seq<u8>> {
    seq![stake_pool_seed_prefix(), guardian@, seq![episode]]
}

/// The seeds with which the pool signs for its own accounts: those its address
/// was derived from, followed by its bump byte.
pub open spec fn stake_pool_signer_seeds(pool: StakePool) -> Seq<Seq<u8>> {
    stake_pool_address_seeds(pool.guardian, pool.episode).push(seq![pool.bump])
}

impl StakePool {
    /// The seeds with which the pool signs; see `stake_pool_signer_seeds`.
    pub fn signer_seeds(&self) -> (seeds: Vec<Vec<u8>>)
        ensures
            seeds.deep_view() == stake_pool_signer_seeds(*self),
    {
        let prefix: Vec<u8> = vec![115u8, 116u8, 97u8, 107u8, 101u8, 95u8, 112u8, 111u8, 111u8, 108u8];
        let guardian = self.guardian.to_vec();
        let episode: Vec<u8> = vec![self.episode];
        let bump: Vec<u8> = vec![self.bump];
        let seeds: Vec<Vec<u8>> = vec![prefix, guardian, episode, bump];
        assert(seeds.deep_view() =~= stake_pool_signer_seeds(*self)) by {
            assert(seeds.deep_view()[0] =~= stake_pool_seed_prefix());
            assert(seeds.deep_view()[1] =~= self.guardian@);
            assert(seeds.deep_view()[2] =~= seq![self.episode]);
            assert(seeds.deep_view()[3] =~= seq![self.bump]);
        }
        seeds
    }
}

impl Default for StakePool {
    fn default() -> (p: StakePool)
        ensures
            p.guardian@ == Seq::new(32, |i: int| 0u8),
            p.policy@ == Seq::new(32, |i: int| 0u8),
            p.token_mint@ == Seq::new(32, |i: int| 0u8),
            p.token_vault@ == Seq::new(32, |i: int| 0u8),
            p.reward_token_mint@ == Seq::new(32, |i: int| 0u8),
            p.reward_vault@ == Seq::new(32, |i: int| 0u8),
            p.total_staked_amount == 0,
            p.cap_stake_amount == 0,
            p.episode == 0,
            p.bump == 0,
    {
        StakePool {
            guardian: Key::default(),
            policy: Key::default(),
            token_mint: Key::default(),
            token_vault: Key::default(),
            reward_token_mint: Key::default(),
            reward_vault: Key::default(),
            total_staked_amount: 0,
            cap_stake_amount: 0,
            episode: 0,
            bump: 0,
        }
    }
}

} // verus!
