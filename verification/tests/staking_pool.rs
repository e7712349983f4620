use cheddar::near::CallContext;
use cheddar::p1_staking_pool_dyn::constants::{E24, MIN_STAKE, ROUND};
use cheddar::p1_staking_pool::account::Valut;
use cheddar::p1_staking_pool::contract::{current_epoch, Action, Contract as EpochPool, Error as EpochError};
use cheddar::p1_staking_pool::vault::{Vault, MIN_STAKE as EPOCH_MIN_STAKE};
use cheddar::p1_staking_pool_dyn::contract::{Contract, Error};

fn ctx(predecessor: &str, deposit: u128, ts: u64) -> CallContext {
    CallContext {
        predecessor: predecessor.to_string(),
        signer: predecessor.to_string(),
        current_account: "pool".to_string(),
        block_timestamp: ts,
        attached_deposit: deposit,
    }
}

fn setup_contract() -> Contract {
    Contract::new("alice".to_string(), "cheddar".to_string(), 120, 10, 20)
}

fn status(ctr: &Contract, user: &str, ts: u64) -> (u128, u128) {
    let (s, r, _) = ctr.status(&user.to_string(), ts).unwrap();
    (s, r)
}

#[test]
fn staking_pool_set_active() {
    let mut ctr = setup_contract();
    assert_eq!(ctr.is_active, true);
    ctr.set_active(&ctx("alice", 5 * E24, ROUND), false).unwrap();
    assert_eq!(ctr.is_active, false);
    assert!(matches!(ctr.set_active(&ctx("bob", 0, ROUND), true), Err(Error::NotOwner)));
}

#[test]
fn staking_pool_min_staking() {
    let mut ctr = setup_contract();
    let r = ctr.stake(&ctx("bob", MIN_STAKE / 10, ROUND));
    assert!(matches!(r, Err(Error::MinStake)));
    assert_eq!(ctr.total_stake, 0);
}

#[test]
fn p1_dyn_test_staking() {
    let mut ctr = setup_contract();
    assert_eq!(ctr.total_stake, 0, "at the beginning there should be 0 total stake");
    ctr.stake(&ctx("bob", 10 * E24, ROUND)).unwrap();

    let (a1_s, a1_r) = status(&ctr, "alice", ROUND);
    assert_eq!(a1_s, 0, "account0 didn't stake");
    assert_eq!(a1_r, 0, "account0 didn't stake so no cheddar");

    let (a1_s, a1_r) = status(&ctr, "bob", ROUND);
    assert_eq!(a1_s, 10 * E24, "account1 staked");
    assert_eq!(ctr.total_stake, a1_s, "total stake should equal to account1 stake");
    assert_eq!(a1_r, 0, "no cheddar should be rewarded before start");

    // stake before the farming_start
    ctr.stake(&ctx("bob", 10 * E24, 2 * ROUND)).unwrap();
    let (a1_s, a1_r) = status(&ctr, "bob", 2 * ROUND);
    assert_eq!(a1_s, 20 * E24, "account1 stake increased");
    assert_eq!(a1_r, 0, "no cheddar should be rewarded before start");
    assert_eq!(ctr.total_stake, a1_s, "total stake should equal to account1 stake");

    let (a1_s, a1_r) = status(&ctr, "bob", 10 * ROUND + 1);
    assert_eq!(a1_s, 20 * E24, "account1 stake increased");
    assert_eq!(a1_r, 0, "no cheddar should be rewarded before start");

    let (a1_s, a1_r) = status(&ctr, "bob", 10 * ROUND);
    assert_eq!(a1_s, 20 * E24, "account1 stake didn't change");
    assert_eq!(a1_r, 0, "no cheddar should be rewarded before start");

    // alone: 100% of emission
    let (a1_s, a1_r) = status(&ctr, "bob", 11 * ROUND);
    assert_eq!(a1_s, 20 * E24, "account1 stake didn't change");
    assert_eq!(a1_r, 2400, "we take all harvest");

    let (a1_s, a1_r) = status(&ctr, "bob", 11 * ROUND + 100);
    assert_eq!(a1_s, 20 * E24, "account1 stake didn't change");
    assert_eq!(a1_r, 2400, "in the same epoch we should harvest only once");

    // 2 epochs later another account stakes
    let t = 13 * ROUND + 100;
    ctr.stake(&ctx("charlie", a1_s, t)).unwrap();
    let (a1_s, a1_r) = status(&ctr, "bob", t);
    assert_eq!(a1_s, 20 * E24, "account1 stake didn't change");
    assert_eq!(a1_r, 120 * 20 * 3, "3rd round of account1 farming");
    let (a2_s, a2_r) = status(&ctr, "charlie", t);
    assert_eq!(a2_s, 20 * E24, "account2 stake was set correctly");
    assert_eq!(a2_r, 0, "account2 can only start farming in the next round");
    assert_eq!(a1_s + a2_s, ctr.total_stake);

    let (a1_s, a1_r) = status(&ctr, "bob", 14 * ROUND);
    assert_eq!(a1_s, 20 * E24, "account1 stake didn't change");
    assert_eq!(a1_r, 120 * 20 * 4, "4th round of account1 farming");
    let (a2_s, a2_r) = status(&ctr, "charlie", 14 * ROUND);
    assert_eq!(a2_s, 20 * E24, "account2 didn't change");
    assert_eq!(a2_r, 120 * 20, "account2 first farming is correct");

    // end of farming: staking doesn't change anything
    ctr.stake(&ctx("charlie", 20 * E24, 20 * ROUND)).unwrap();
    let (_, a1_r) = status(&ctr, "bob", 20 * ROUND);
    assert_eq!(a1_r, 120 * 20 * 10, "10th round of account1 farming");
    let (_, a2_r) = status(&ctr, "charlie", 20 * ROUND);
    assert_eq!(a2_r, 120 * 20 * 7, "6th round of account1 farming");

    ctr.stake(&ctx("charlie", 20 * E24, 20 * ROUND)).unwrap();
    let (_, a1_r) = status(&ctr, "bob", 20 * ROUND);
    assert_eq!(a1_r, 120 * 20 * 10, "after end of framing - no change");
    let (_, a2_r) = status(&ctr, "charlie", 20 * ROUND);
    assert_eq!(a2_r, 120 * 20 * 7, "after end of framing - no change");
}

#[test]
fn lib_test_staking_accumulate() {
    let mut ctr = setup_contract();
    assert_eq!(ctr.total_stake, 0, "at the beginning there should be 0 total stake");
    ctr.stake(&ctx("bob", 100 * E24, 5 * ROUND)).unwrap();

    ctr.stake(&ctx("charlie", 100 * E24, 12 * ROUND)).unwrap();
    ctr.stake(&ctx("charlie", 100 * E24, 12 * ROUND)).unwrap();

    assert_eq!(ctr.total_stake, 300 * E24, "each account staked the same amount");
    let (a1_s, a1_r) = status(&ctr, "bob", 14 * ROUND);
    assert_eq!(a1_s, 100 * E24, "account1 stake is correct");
    assert_eq!(a1_r, 4 * 120 * 100, "account1 reward");
}

const EPOCH_LEN: u64 = 1_000_000_000;

fn epoch_pool() -> EpochPool {
    EpochPool::new("alice".to_string(), "cheddar".to_string(), 120000, 10, 20)
}

#[test]
fn epoch_pool_staking() {
    let mut ctr = epoch_pool();
    let now = current_epoch(1, EPOCH_LEN);
    assert_eq!(now, 1);
    let staked = ctr.stake(&ctx("bob", 10 * EPOCH_MIN_STAKE, 1), now).unwrap();
    assert_eq!(staked, 10 * EPOCH_MIN_STAKE);
    let s = ctr.status(&"alice".to_string(), now).unwrap();
    assert_eq!(s.0, 0, "account(0) didn't stake");
    assert_eq!(s.1, 0, "account(0) didn't stake so no cheddar");
    let s = ctr.status(&"bob".to_string(), now).unwrap();
    assert_eq!(s.0, 10 * EPOCH_MIN_STAKE, "account(0) staked");
    assert_eq!(s.1, 0, "no cheddar should be rewarded in the same round");
}

#[test]
fn epoch_pool_refusals() {
    let mut ctr = epoch_pool();
    assert_eq!(ctr.stake(&ctx("bob", EPOCH_MIN_STAKE / 2, 1), 1), Err(EpochError::MinStake));
    assert_eq!(ctr.set_active(&ctx("bob", 0, 1), false), Err(EpochError::NotOwner));
    ctr.set_active(&ctx("alice", 0, 1), false).unwrap();
    assert_eq!(ctr.stake(&ctx("bob", EPOCH_MIN_STAKE, 1), 1), Err(EpochError::NotOpen));
    assert!(matches!(ctr.unstake(&ctx("bob", 1, 1), 1, 1), Err(EpochError::NoAccount)));
}

#[test]
fn epoch_pool_rewards_at_farming_end() {
    let mut ctr = epoch_pool();
    ctr.stake(&ctx("bob", 10 * EPOCH_MIN_STAKE, 1), 1).unwrap();
    // an existing account enters the total stake when it stakes again
    ctr.stake(&ctx("bob", 10 * EPOCH_MIN_STAKE, 5), 5).unwrap();
    assert_eq!(ctr.total_stake, 10 * EPOCH_MIN_STAKE);
    // before the end nothing is counted
    assert_eq!(ctr.status(&"bob".to_string(), 19).unwrap(), (20 * EPOCH_MIN_STAKE, 0));
    // at the end: 19 epochs of emission, shared by stake / total stake
    assert_eq!(ctr.status(&"bob".to_string(), 20).unwrap(), (20 * EPOCH_MIN_STAKE, 19 * 120000 * 2));
    assert_eq!(ctr.status(&"bob".to_string(), 21), Err(EpochError::FarmingClosed));
    let (rewards, action) = ctr.withdraw_crop(&ctx("bob", 0, 20), 20).unwrap();
    assert_eq!(rewards, 19 * 120000 * 2);
    assert_eq!(action, Action::TransferCheddar { user: "bob".to_string(), amount: rewards });
    assert_eq!(ctr.status(&"bob".to_string(), 20).unwrap(), (20 * EPOCH_MIN_STAKE, 0));
}

#[test]
fn epoch_pool_unstake_keeps_min_stake() {
    let mut ctr = epoch_pool();
    ctr.stake(&ctx("bob", 3 * EPOCH_MIN_STAKE, 1), 1).unwrap();
    ctr.stake(&ctx("bob", EPOCH_MIN_STAKE, 2), 2).unwrap();
    assert_eq!(ctr.unstake(&ctx("bob", 1, 3), 4 * EPOCH_MIN_STAKE, 3).err(), Some(EpochError::MinBalance));
    assert_eq!(ctr.unstake(&ctx("bob", 1, 3), 5 * EPOCH_MIN_STAKE, 3).err(), Some(EpochError::NotEnoughStake));
    assert_eq!(ctr.unstake(&ctx("bob", 0, 3), EPOCH_MIN_STAKE, 3).err(), Some(EpochError::RequiresOneYocto));
    let (left, action) = ctr.unstake(&ctx("bob", 1, 3), EPOCH_MIN_STAKE, 3).unwrap();
    assert_eq!(left, 3 * EPOCH_MIN_STAKE);
    assert_eq!(action, Action::TransferNear { receiver: "bob".to_string(), amount: EPOCH_MIN_STAKE });
    assert_eq!(ctr.total_stake, 0);
}

#[test]
fn epoch_pool_failed_cheddar_transfer_is_credited_back() {
    let mut ctr = epoch_pool();
    ctr.stake(&ctx("bob", EPOCH_MIN_STAKE, 1), 1).unwrap();
    let failed = cheddar::near::PromiseResult::Failed;
    ctr.withdraw_callback(&"bob".to_string(), 7, 1, &failed).unwrap();
    assert_eq!(ctr.status(&"bob".to_string(), 5).unwrap(), (EPOCH_MIN_STAKE, 7));
    assert_eq!(ctr.withdraw_callback(&"bob".to_string(), 7, 2, &failed), Err(EpochError::UnexpectedPromiseResults));
    assert_eq!(ctr.withdraw_callback(&"carol".to_string(), 7, 1, &failed), Err(EpochError::NoAccount));
}

#[test]
fn epoch_vault_ping_counts_epochs() {
    let mut v = Vault { previous: 2, staked: 50, rewards: 1 };
    assert_eq!(v.ping(10, 100, 5), Ok(1 + 3 * 10 * 50 / 100));
    assert_eq!(v.previous, 5);
    assert_eq!(v.ping(10, 100, 5), Ok(16));
    assert_eq!(v.ping(10, 100, 4), Err(EpochError::ArithmeticOverflow));
    let mut unregistered = Vault::default();
    assert_eq!(unregistered.ping(10, 100, 5), Err(EpochError::WrongState));
}

#[test]
fn epoch_valut_stake_and_unstake() {
    let mut v = Valut { epoch: 0, locked: 1_000_000, locked_new: 0, rewards: 0 };
    v.stake(500, 2, 3);
    // two epochs of rewards for the locked amount, then the new stake waits
    assert_eq!(v, Valut { epoch: 2, locked: 1_000_000, locked_new: 500, rewards: 6 });
    v.unstake(200, 2, 3).unwrap();
    assert_eq!(v.locked_new, 300);
    v.unstake(400, 2, 3).unwrap();
    assert_eq!((v.locked, v.locked_new), (999_900, 0));
    assert_eq!(v.unstake(1_000_000, 2, 3), Err(EpochError::NotEnoughStake));
    assert_eq!(v.locked, 999_900);
}

#[test]
fn p1_dyn_unstake_returns_stake_left() {
    let mut ctr = setup_contract();
    ctr.stake(&ctx("bob", 10 * E24, ROUND)).unwrap();
    let (left, actions) = ctr.unstake(&ctx("bob", 1, 2 * ROUND), 4 * E24).unwrap();
    assert_eq!(left, Some(6 * E24));
    assert_eq!(actions.len(), 1);
    assert_eq!(ctr.total_stake, 6 * E24);
}
