use delegator::delegator as program;
use delegator::{
    create_guardian, create_policy, create_stake_pool, create_user_stake, deposit_reward, stake, unstake,
    ConstraintViolation, CreateGuardian, CreatePolicy, CreateStakePool, CreateUserStake, DelegatorError,
    DepositReward, ErrorCode, Guardian, Key, MintView, Policy, Stake, StakePool, TierInfo, TokenAccountView,
    Unstake, UserStake, MAX_TIERS,
};

fn key(b: u8) -> Key {
    Key::new([b; 32])
}

const PAYER: u8 = 1;
const POOL: u8 = 2;
const MINT: u8 = 3;
const VAULT: u8 = 4;
const ATA: u8 = 5;
const PROGRAM: u8 = 6;
const GUARDIAN: u8 = 7;
const POLICY: u8 = 8;
const REWARD_MINT: u8 = 9;
const REWARD_VAULT: u8 = 10;

fn pool(total: u64, cap: u64) -> StakePool {
    StakePool {
        guardian: key(GUARDIAN),
        policy: key(POLICY),
        token_mint: key(MINT),
        token_vault: key(VAULT),
        reward_token_mint: key(REWARD_MINT),
        reward_vault: key(REWARD_VAULT),
        total_staked_amount: total,
        cap_stake_amount: cap,
        episode: 3,
        bump: 254,
    }
}

fn user(staked: u64) -> UserStake {
    UserStake {
        stake_pool: key(POOL),
        policy: key(POLICY),
        owner: key(PAYER),
        token_mint: key(MINT),
        staked_amount: staked,
        last_stake_timestamp: 100,
        created_timestamp: 50,
        base_apr_x64: 2,
        tier: 1,
        tier_lock_up_epoch: 2,
        tier_multiplier: 3,
        owed_reward: 10,
        last_update_reward_timestamp: 100,
    }
}

fn token_account(k: u8, mint: u8, owner: u8) -> TokenAccountView {
    TokenAccountView { key: key(k), mint: key(mint), owner: key(owner), program_id: key(PROGRAM) }
}

fn stake_accounts(total: u64, cap: u64, staked: u64) -> Stake {
    Stake {
        payer: key(PAYER),
        stake_pool_key: key(POOL),
        stake_pool: pool(total, cap),
        token_mint: key(MINT),
        user_stake: user(staked),
        payer_token_ata: token_account(ATA, MINT, PAYER),
        token_vault: token_account(VAULT, MINT, POOL),
        token_program: key(PROGRAM),
    }
}

fn unstake_accounts(total: u64, cap: u64, staked: u64) -> Unstake {
    let s = stake_accounts(total, cap, staked);
    Unstake {
        payer: s.payer,
        stake_pool_key: s.stake_pool_key,
        stake_pool: s.stake_pool,
        token_mint: s.token_mint,
        user_stake: s.user_stake,
        owner_token_ata: s.payer_token_ata,
        token_vault: s.token_vault,
        token_program: s.token_program,
    }
}

fn signer_seeds() -> Vec<Vec<u8>> {
    vec![b"stake_pool".to_vec(), vec![GUARDIAN; 32], vec![3], vec![254]]
}

#[test]
fn create_guardian_makes_payer_admin() {
    let mut a = CreateGuardian { payer: key(PAYER), guardian: Guardian::default() };
    assert_eq!(create_guardian::handler(&mut a), Ok(()));
    assert_eq!(a.guardian.admin_authority, key(PAYER));
    assert_eq!(a.payer, key(PAYER));
    let mut b = CreateGuardian { payer: key(9), guardian: Guardian::default() };
    assert_eq!(program::create_guardian(&mut b), Ok(()));
    assert_eq!(b.guardian.admin_authority, key(9));
}

#[test]
fn create_policy_sets_authority_rate_and_tiers() {
    let mut a = CreatePolicy { payer: key(PAYER), guardian_admin_authority: key(PAYER), policy: Policy::default() };
    let tiers = vec![TierInfo { tier: 1, lock_up_epoch: 7, multiplier: 2 }];
    assert_eq!(create_policy::handler(&mut a, 1u128 << 64, tiers), Ok(()));
    assert_eq!(a.policy.update_authority, key(PAYER));
    assert_eq!(a.policy.base_apr_x64, 1u128 << 64);
    assert_eq!(a.policy.tiers[0], TierInfo { tier: 1, lock_up_epoch: 7, multiplier: 2 });
    assert_eq!(a.policy.tiers[1], TierInfo::default());
    let mut b = CreatePolicy { payer: key(4), guardian_admin_authority: key(4), policy: Policy::default() };
    assert_eq!(program::create_policy(&mut b, 9, vec![]), Ok(()));
    assert_eq!(b.policy.base_apr_x64, 9);
    assert_eq!(b.policy.tiers, [TierInfo::default(); MAX_TIERS]);
}

fn create_pool_accounts() -> CreateStakePool {
    CreateStakePool {
        payer: key(PAYER),
        guardian: key(GUARDIAN),
        guardian_admin_authority: key(PAYER),
        policy: key(POLICY),
        stake_pool: StakePool::default(),
        stake_pool_bump: 251,
        token_mint: MintView { key: key(MINT), program_id: key(PROGRAM) },
        reward_token_mint: MintView { key: key(REWARD_MINT), program_id: key(11) },
        token_vault: key(VAULT),
        reward_vault: key(REWARD_VAULT),
        token_program: key(PROGRAM),
        token_program_reward: key(11),
    }
}

#[test]
fn create_stake_pool_fills_the_pool() {
    let mut a = create_pool_accounts();
    assert_eq!(a.check_constraints(), Ok(()));
    assert_eq!(create_stake_pool::handler(&mut a, 3, 1_000), Ok(()));
    let p = a.stake_pool;
    assert_eq!(p.guardian, key(GUARDIAN));
    assert_eq!(p.policy, key(POLICY));
    assert_eq!(p.token_mint, key(MINT));
    assert_eq!(p.token_vault, key(VAULT));
    assert_eq!(p.reward_token_mint, key(REWARD_MINT));
    assert_eq!(p.reward_vault, key(REWARD_VAULT));
    assert_eq!(p.total_staked_amount, 0);
    assert_eq!(p.cap_stake_amount, 1_000);
    assert_eq!(p.episode, 3);
    assert_eq!(p.bump, 251);
}

#[test]
fn create_stake_pool_checks_mint_programs() {
    let mut a = create_pool_accounts();
    a.token_mint.program_id = key(12);
    assert_eq!(a.check_constraints(), Err(ConstraintViolation::MintTokenProgram));
    let before = a;
    assert_eq!(
        program::create_stake_pool(&mut a, 1, 1),
        Err(DelegatorError::Constraint(ConstraintViolation::MintTokenProgram))
    );
    assert_eq!(a, before);
    let mut b = create_pool_accounts();
    b.reward_token_mint.program_id = key(PROGRAM);
    assert_eq!(b.check_constraints(), Err(ConstraintViolation::MintTokenProgram));
    let mut c = create_pool_accounts();
    assert_eq!(program::create_stake_pool(&mut c, 2, 50), Ok(()));
    assert_eq!(c.stake_pool.cap_stake_amount, 50);
}

fn user_stake_accounts() -> CreateUserStake {
    let mut policy = Policy::default();
    policy.base_apr_x64 = 77;
    policy.tiers[2] = TierInfo { tier: 2, lock_up_epoch: 30, multiplier: 5 };
    CreateUserStake {
        payer: key(PAYER),
        stake_pool_key: key(POOL),
        stake_pool: pool(40, 100),
        policy_key: key(POLICY),
        policy,
        user_stake: UserStake::default(),
    }
}

#[test]
fn create_user_stake_copies_tier_terms() {
    let mut a = user_stake_accounts();
    assert_eq!(a.check_constraints(), Ok(()));
    assert_eq!(create_user_stake::handler(&mut a, 2, 1_700_000_000), Ok(()));
    let u = a.user_stake;
    assert_eq!(u.stake_pool, key(POOL));
    assert_eq!(u.policy, key(POLICY));
    assert_eq!(u.owner, key(PAYER));
    assert_eq!(u.token_mint, key(MINT));
    assert_eq!(u.staked_amount, 0);
    assert_eq!(u.owed_reward, 0);
    assert_eq!(u.base_apr_x64, 77);
    assert_eq!((u.tier, u.tier_lock_up_epoch, u.tier_multiplier), (2, 30, 5));
    assert_eq!(u.last_stake_timestamp, 1_700_000_000);
    assert_eq!(u.last_update_reward_timestamp, 1_700_000_000);
    assert_eq!(u.created_timestamp, 1_700_000_000);
}

#[test]
fn create_user_stake_reads_a_negative_clock_as_its_bits() {
    let mut a = user_stake_accounts();
    assert_eq!(create_user_stake::handler(&mut a, 0, -1), Ok(()));
    assert_eq!(a.user_stake.last_stake_timestamp, u64::MAX);
}

#[test]
fn create_user_stake_demands_the_pools_policy() {
    let mut a = user_stake_accounts();
    a.policy_key = key(99);
    assert_eq!(a.check_constraints(), Err(ConstraintViolation::HasOne));
    let before = a;
    assert_eq!(
        program::create_user_stake_at(&mut a, 9, 5),
        Err(DelegatorError::Constraint(ConstraintViolation::HasOne))
    );
    assert_eq!(a, before);
    let mut b = user_stake_accounts();
    assert_eq!(program::create_user_stake_at(&mut b, 2, 5), Ok(()));
    assert_eq!(b.user_stake.tier_lock_up_epoch, 30);
}

fn deposit_accounts() -> DepositReward {
    DepositReward {
        payer: key(PAYER),
        stake_pool: pool(0, 0),
        guardian: key(GUARDIAN),
        guardian_admin_authority: key(PAYER),
        payer_reward_token_ata: token_account(ATA, REWARD_MINT, PAYER),
        reward_token_mint: key(REWARD_MINT),
        reward_vault: token_account(REWARD_VAULT, REWARD_MINT, POOL),
        token_program: key(PROGRAM),
    }
}

#[test]
fn deposit_reward_transfers_into_reward_vault() {
    let a = deposit_accounts();
    assert_eq!(a.check_constraints(), Ok(()));
    let t = deposit_reward::handler(&a, 500).unwrap();
    assert_eq!(t.from, key(ATA));
    assert_eq!(t.to, key(REWARD_VAULT));
    assert_eq!(t.authority, key(PAYER));
    assert_eq!(t.amount, 500);
    assert!(t.signer_seeds.is_empty());
    assert_eq!(program::deposit_reward(&a, 500), Ok(t));
}

#[test]
fn deposit_reward_constraints_in_order() {
    let mut a = deposit_accounts();
    a.stake_pool.reward_vault = key(50);
    assert_eq!(a.check_constraints(), Err(ConstraintViolation::HasOne));
    let mut a = deposit_accounts();
    a.reward_token_mint = key(50);
    assert_eq!(a.check_constraints(), Err(ConstraintViolation::HasOne));
    let mut a = deposit_accounts();
    a.payer_reward_token_ata.owner = key(50);
    a.payer_reward_token_ata.mint = key(51);
    assert_eq!(a.check_constraints(), Err(ConstraintViolation::TokenOwner));
    let mut a = deposit_accounts();
    a.payer_reward_token_ata.mint = key(51);
    assert_eq!(a.check_constraints(), Err(ConstraintViolation::TokenMint));
    let mut a = deposit_accounts();
    a.payer_reward_token_ata.program_id = key(51);
    assert_eq!(a.check_constraints(), Err(ConstraintViolation::TokenTokenProgram));
    let mut a = deposit_accounts();
    a.reward_vault.mint = key(51);
    assert_eq!(a.check_constraints(), Err(ConstraintViolation::TokenMint));
    assert_eq!(
        program::deposit_reward(&a, 1),
        Err(DelegatorError::Constraint(ConstraintViolation::TokenMint))
    );
    let mut a = deposit_accounts();
    a.reward_vault.program_id = key(51);
    assert_eq!(a.check_constraints(), Err(ConstraintViolation::TokenTokenProgram));
}

#[test]
fn stake_adds_to_pool_and_user() {
    let mut a = stake_accounts(40, 100, 10);
    let before = a;
    let t = stake::handler(&mut a, 25, 500).unwrap();
    assert_eq!(a.stake_pool.total_staked_amount, 65);
    assert_eq!(a.user_stake.staked_amount, 35);
    assert_eq!(a.user_stake.last_stake_timestamp, 500);
    assert_eq!(a.user_stake.last_update_reward_timestamp, 100);
    assert_eq!(a.user_stake.owed_reward, 10);
    assert_eq!(a.payer_token_ata, before.payer_token_ata);
    assert_eq!(t.from, key(ATA));
    assert_eq!(t.to, key(VAULT));
    assert_eq!(t.authority, key(PAYER));
    assert_eq!(t.amount, 25);
    assert!(t.signer_seeds.is_empty());
}

#[test]
fn stake_up_to_the_cap_exactly() {
    let mut a = stake_accounts(40, 100, 10);
    assert!(stake::handler(&mut a, 60, 1).is_ok());
    assert_eq!(a.stake_pool.total_staked_amount, 100);
}

#[test]
fn stake_past_the_cap_is_refused() {
    let mut a = stake_accounts(40, 100, 10);
    let before = a;
    assert_eq!(stake::handler(&mut a, 61, 1), Err(ErrorCode::StakeAmountExceedsCap));
    assert_eq!(a, before);
}

#[test]
fn stake_overflowing_the_pool_is_refused() {
    let mut a = stake_accounts(u64::MAX - 1, u64::MAX, 10);
    let before = a;
    assert_eq!(stake::handler(&mut a, 2, 1), Err(ErrorCode::IntegerOverflow));
    assert_eq!(a, before);
}

#[test]
fn stake_overflowing_the_user_is_refused() {
    let mut a = stake_accounts(0, u64::MAX, u64::MAX);
    let before = a;
    assert_eq!(stake::handler(&mut a, 1, 1), Err(ErrorCode::IntegerOverflow));
    assert_eq!(a, before);
}

#[test]
fn total_after_stake_reports_errors() {
    let p = pool(40, 100);
    assert_eq!(stake::total_after_stake(&p, 60), Ok(100));
    assert_eq!(stake::total_after_stake(&p, 61), Err(ErrorCode::StakeAmountExceedsCap));
    assert_eq!(stake::total_after_stake(&pool(u64::MAX, u64::MAX), 1), Err(ErrorCode::IntegerOverflow));
}

#[test]
fn stake_constraints_in_order() {
    let mut a = stake_accounts(0, 10, 0);
    a.stake_pool.token_vault = key(60);
    assert_eq!(a.check_constraints(), Err(ConstraintViolation::HasOne));
    let mut a = stake_accounts(0, 10, 0);
    a.token_mint = key(60);
    assert_eq!(a.check_constraints(), Err(ConstraintViolation::HasOne));
    let mut a = stake_accounts(0, 10, 0);
    a.user_stake.owner = key(60);
    assert_eq!(a.check_constraints(), Err(ConstraintViolation::Raw));
    let mut a = stake_accounts(0, 10, 0);
    a.user_stake.stake_pool = key(60);
    assert_eq!(a.check_constraints(), Err(ConstraintViolation::Raw));
    let mut a = stake_accounts(0, 10, 0);
    a.user_stake.token_mint = key(60);
    assert_eq!(a.check_constraints(), Err(ConstraintViolation::Raw));
    let mut a = stake_accounts(0, 10, 0);
    a.payer_token_ata.owner = key(60);
    assert_eq!(a.check_constraints(), Err(ConstraintViolation::TokenOwner));
    let mut a = stake_accounts(0, 10, 0);
    a.payer_token_ata.mint = key(60);
    assert_eq!(a.check_constraints(), Err(ConstraintViolation::TokenMint));
    let mut a = stake_accounts(0, 10, 0);
    a.payer_token_ata.program_id = key(60);
    assert_eq!(a.check_constraints(), Err(ConstraintViolation::TokenTokenProgram));
    let mut a = stake_accounts(0, 10, 0);
    a.token_vault.mint = key(60);
    assert_eq!(a.check_constraints(), Err(ConstraintViolation::TokenMint));
    let mut a = stake_accounts(0, 10, 0);
    a.token_vault.program_id = key(60);
    assert_eq!(a.check_constraints(), Err(ConstraintViolation::TokenTokenProgram));
    let before = a;
    assert_eq!(
        program::stake_at(&mut a, 1, 1),
        Err(DelegatorError::Constraint(ConstraintViolation::TokenTokenProgram))
    );
    assert_eq!(a, before);
    let mut ok = stake_accounts(0, 10, 0);
    assert_eq!(ok.check_constraints(), Ok(()));
    assert_eq!(program::stake_at(&mut ok, 11, 1), Err(DelegatorError::Program(ErrorCode::StakeAmountExceedsCap)));
    assert!(program::stake_at(&mut ok, 10, 1).is_ok());
    assert_eq!(ok.stake_pool.total_staked_amount, 10);
}

#[test]
fn unstake_returns_tokens_and_accrues_reward() {
    let mut a = unstake_accounts(65, 100, 35);
    let t = unstake::handler(&mut a, 20, 130).unwrap();
    assert_eq!(a.stake_pool.total_staked_amount, 45);
    assert_eq!(a.user_stake.staked_amount, 15);
    // reward: base rate 2 times 30 elapsed seconds, on top of the 10 owed
    assert_eq!(a.user_stake.owed_reward, 70);
    assert_eq!(a.user_stake.last_stake_timestamp, 130);
    assert_eq!(a.user_stake.last_update_reward_timestamp, 130);
    assert_eq!(t.from, key(VAULT));
    assert_eq!(t.to, key(ATA));
    assert_eq!(t.authority, key(POOL));
    assert_eq!(t.amount, 20);
    assert_eq!(t.signer_seeds, signer_seeds());
}

#[test]
fn unstake_uses_the_low_bits_of_the_rate() {
    let mut a = unstake_accounts(10, 100, 10);
    a.user_stake.base_apr_x64 = (1u128 << 64) + 3;
    assert!(unstake::handler(&mut a, 0, 104).is_ok());
    assert_eq!(a.user_stake.owed_reward, 10 + 3 * 4);
}

#[test]
fn unstake_more_than_the_pool_holds_is_refused() {
    let mut a = unstake_accounts(5, 100, 10);
    let before = a;
    assert_eq!(unstake::handler(&mut a, 6, 200), Err(ErrorCode::InvalidUnstakeAmount));
    assert_eq!(a, before);
}

#[test]
fn unstake_more_than_the_user_holds_is_refused() {
    let mut a = unstake_accounts(50, 100, 10);
    let before = a;
    assert_eq!(unstake::handler(&mut a, 11, 200), Err(ErrorCode::InvalidUnstakeAmount));
    assert_eq!(a, before);
    assert_eq!(
        program::unstake_at(&mut a, 11, 200),
        Err(DelegatorError::Program(ErrorCode::InvalidUnstakeAmount))
    );
}

#[test]
fn unstake_entry_checks_constraints_first() {
    let mut a = unstake_accounts(50, 100, 10);
    a.user_stake.owner = key(70);
    let before = a;
    assert_eq!(
        program::unstake_at(&mut a, 1, 200),
        Err(DelegatorError::Constraint(ConstraintViolation::TokenOwner))
    );
    assert_eq!(a, before);
    assert_eq!(a.check_constraints(), Err(ConstraintViolation::TokenOwner));
    let mut b = unstake_accounts(50, 100, 10);
    assert!(program::unstake_at(&mut b, 10, 100).is_ok());
    assert_eq!(b.user_stake.staked_amount, 0);
    assert_eq!(b.user_stake.owed_reward, 10);
}

#[test]
fn backend_may_unstake_for_the_owner() {
    let mut a = unstake_accounts(50, 100, 10);
    a.payer = key(77);
    assert_eq!(a.check_constraints(), Ok(()));
    let t = program::unstake_at(&mut a, 4, 110).unwrap();
    assert_eq!(t.to, key(ATA));
    assert_eq!(a.owner_token_ata.owner, a.user_stake.owner);
    assert_eq!(a.user_stake.staked_amount, 6);
    assert_eq!(a.user_stake.owed_reward, 10 + 2 * 10);
}

#[test]
fn unstake_pays_only_into_the_owners_account() {
    let mut a = unstake_accounts(50, 100, 10);
    a.payer = key(77);
    a.owner_token_ata.owner = key(77);
    let before = a;
    assert_eq!(
        program::unstake_at(&mut a, 4, 110),
        Err(DelegatorError::Constraint(ConstraintViolation::TokenOwner))
    );
    assert_eq!(a, before);
}

#[test]
fn unstake_constraints_in_order() {
    let mut a = unstake_accounts(0, 10, 0);
    a.stake_pool.token_vault = key(60);
    assert_eq!(a.check_constraints(), Err(ConstraintViolation::HasOne));
    let mut a = unstake_accounts(0, 10, 0);
    a.token_mint = key(60);
    assert_eq!(a.check_constraints(), Err(ConstraintViolation::HasOne));
    let mut a = unstake_accounts(0, 10, 0);
    a.user_stake.stake_pool = key(60);
    assert_eq!(a.check_constraints(), Err(ConstraintViolation::Raw));
    let mut a = unstake_accounts(0, 10, 0);
    a.user_stake.token_mint = key(60);
    assert_eq!(a.check_constraints(), Err(ConstraintViolation::Raw));
    let mut a = unstake_accounts(0, 10, 0);
    a.owner_token_ata.mint = key(60);
    assert_eq!(a.check_constraints(), Err(ConstraintViolation::TokenMint));
    let mut a = unstake_accounts(0, 10, 0);
    a.owner_token_ata.program_id = key(60);
    assert_eq!(a.check_constraints(), Err(ConstraintViolation::TokenTokenProgram));
    let mut a = unstake_accounts(0, 10, 0);
    a.token_vault.mint = key(60);
    assert_eq!(a.check_constraints(), Err(ConstraintViolation::TokenMint));
    let mut a = unstake_accounts(0, 10, 0);
    a.token_vault.program_id = key(60);
    assert_eq!(a.check_constraints(), Err(ConstraintViolation::TokenTokenProgram));
}

#[test]
fn unstake_at_reports_reward_out_of_range() {
    let mut a = unstake_accounts(50, 100, 10);
    let before = a;
    assert_eq!(program::unstake_at(&mut a, 1, 99), Err(DelegatorError::RewardOutOfRange));
    assert_eq!(a, before);
    a.user_stake.base_apr_x64 = u64::MAX as u128;
    assert_eq!(program::unstake_at(&mut a, 1, 102), Err(DelegatorError::RewardOutOfRange));
    assert_eq!(program::unstake_at(&mut a, 11, 99), Err(DelegatorError::Program(ErrorCode::InvalidUnstakeAmount)));
    a.user_stake.owed_reward = 0;
    assert!(program::unstake_at(&mut a, 1, 101).is_ok());
    assert_eq!(a.user_stake.owed_reward, u64::MAX);
}

#[test]
fn create_stake_pool_only_by_the_guardian() {
    let mut a = create_pool_accounts();
    a.guardian_admin_authority = key(40);
    a.token_mint.program_id = key(12);
    assert_eq!(a.check_constraints(), Err(ConstraintViolation::Raw));
    let before = a;
    assert_eq!(program::create_stake_pool(&mut a, 1, 1), Err(DelegatorError::Constraint(ConstraintViolation::Raw)));
    assert_eq!(a, before);
}

#[test]
fn create_policy_only_by_a_guardian() {
    let mut a = CreatePolicy { payer: key(PAYER), guardian_admin_authority: key(40), policy: Policy::default() };
    assert_eq!(a.check_constraints(), Err(ConstraintViolation::Raw));
    let before = a;
    assert_eq!(program::create_policy(&mut a, 5, vec![]), Err(DelegatorError::Constraint(ConstraintViolation::Raw)));
    assert_eq!(a, before);
}

#[test]
fn deposit_reward_only_by_the_pools_guardian() {
    let mut a = deposit_accounts();
    a.guardian = key(41);
    assert_eq!(a.check_constraints(), Err(ConstraintViolation::HasOne));
    let mut b = deposit_accounts();
    b.guardian_admin_authority = key(41);
    assert_eq!(b.check_constraints(), Err(ConstraintViolation::Raw));
    assert_eq!(program::deposit_reward(&b, 3), Err(DelegatorError::Constraint(ConstraintViolation::Raw)));
}

#[test]
fn creation_time_is_set_once_and_kept() {
    let mut c = user_stake_accounts();
    create_user_stake::handler(&mut c, 2, 1_000).unwrap();
    assert_eq!(c.user_stake.created_timestamp, 1_000);
    let mut s = stake_accounts(0, 100, 0);
    s.user_stake = c.user_stake;
    s.user_stake.stake_pool = key(POOL);
    stake::handler(&mut s, 10, 2_000).unwrap();
    assert_eq!(s.user_stake.created_timestamp, 1_000);
    assert_eq!(s.user_stake.last_stake_timestamp, 2_000);
    let mut u = unstake_accounts(s.stake_pool.total_staked_amount, 100, 0);
    u.user_stake = s.user_stake;
    unstake::handler(&mut u, 5, 3_000).unwrap();
    assert_eq!(u.user_stake.created_timestamp, 1_000);
    assert_eq!(u.user_stake.last_stake_timestamp, 3_000);
}

#[test]
fn pool_signer_seeds() {
    assert_eq!(pool(0, 0).signer_seeds(), signer_seeds());
}

#[test]
fn unstake_after_stake_restores_amounts() {
    let mut s = stake_accounts(40, 100, 10);
    stake::handler(&mut s, 30, 200).unwrap();
    let mut u = Unstake {
        payer: s.payer,
        stake_pool_key: s.stake_pool_key,
        stake_pool: s.stake_pool,
        token_mint: s.token_mint,
        user_stake: s.user_stake,
        owner_token_ata: s.payer_token_ata,
        token_vault: s.token_vault,
        token_program: s.token_program,
    };
    unstake::handler(&mut u, 30, 250).unwrap();
    assert_eq!(u.stake_pool.total_staked_amount, 40);
    assert_eq!(u.user_stake.staked_amount, 10);
}

#[test]
fn second_unstake_at_same_time_accrues_nothing() {
    let mut u = unstake_accounts(50, 100, 20);
    unstake::handler(&mut u, 5, 400).unwrap();
    let owed = u.user_stake.owed_reward;
    assert_eq!(owed, 10 + 2 * 300);
    unstake::handler(&mut u, 5, 400).unwrap();
    assert_eq!(u.user_stake.owed_reward, owed);
}

#[test]
fn stakes_never_pass_the_cap() {
    let mut a = stake_accounts(0, 50, 0);
    for amount in [20u64, 20, 20, 10, 1] {
        let _ = stake::handler(&mut a, amount, 1);
        assert!(a.stake_pool.total_staked_amount <= a.stake_pool.cap_stake_amount);
        assert!(a.user_stake.staked_amount <= a.stake_pool.total_staked_amount);
    }
    assert_eq!(a.stake_pool.total_staked_amount, 50);
}
