use cheddar::near::CallContext;
use cheddar::p2_token_staking_fixed::{Contract, Error, STORAGE_COST};
use cheddar::p3_lib::constants::{E24, ROUND, SECOND};

const B_ROUND: u64 = ROUND * SECOND;
const B_ROUND_H: u64 = B_ROUND / 2;
const RATE: u128 = 12 * E24;

fn ctx(predecessor: &str, deposit: u128, ts: u64) -> CallContext {
    CallContext {
        predecessor: predecessor.to_string(),
        signer: predecessor.to_string(),
        current_account: "farm".to_string(),
        block_timestamp: ts,
        attached_deposit: deposit,
    }
}

fn setup_contract(fee_rate: u32) -> Contract {
    Contract::new(
        "alice".to_string(),
        "cheddar".to_string(),
        "atom".to_string(),
        10 * ROUND,
        20 * ROUND,
        RATE,
        fee_rate,
        "bob".to_string(),
    )
    .unwrap()
}

fn register(ctr: &mut Contract, user: &str, ts: u64) {
    ctr.storage_deposit(&ctx(user, STORAGE_COST, ts), None, None).unwrap();
}

fn stake(ctr: &mut Contract, user: &str, amount: u128, epoch: u64) {
    let c = ctx("atom", 0, epoch * B_ROUND);
    let unused = ctr
        .ft_on_transfer(&c, &user.to_string(), amount, &"transfer to farm".to_string())
        .unwrap();
    assert_eq!(unused, 0);
}

fn status(ctr: &Contract, user: &str, ts: u64) -> (u128, u128) {
    let (s, r, _) = ctr.status(&user.to_string(), ts).unwrap();
    (s, r)
}

fn assert_close(a: u128, b: u128, msg: &'static str) {
    assert!(a * 99999 / 100_000 < b, "{}, {} <> {}", msg, a, b);
    assert!(a * 100001 / 100_000 > b, "{}, {} <> {}", msg, a, b);
}

#[test]
fn lib_test_set_active() {
    let mut ctr = setup_contract(0);
    assert_eq!(ctr.is_active, true);
    ctr.set_active(&ctx("alice", 5, B_ROUND), false).unwrap();
    assert_eq!(ctr.is_active, false);
}

#[test]
fn token_staking_set_active_not_admin() {
    let mut ctr = setup_contract(0);
    assert_eq!(ctr.set_active(&ctx("bob", 0, B_ROUND), false), Err(Error::NotOwner));
    assert_eq!(ctr.is_active, true);
}

#[test]
fn token_staking_min_storage_deposit() {
    let mut ctr = setup_contract(0);
    let r = ctr.storage_deposit(&ctx("user1", STORAGE_COST / 4, B_ROUND), None, None);
    assert!(matches!(r, Err(Error::DepositBelowStorageCost)));
}

#[test]
fn lib_test_storage_deposit() {
    let mut ctr = setup_contract(0);
    let user = "user1".to_string();
    match ctr.storage_balance_of(&user) {
        Some(_) => panic!("unregistered account must not have a balance"),
        _ => {}
    };
    register(&mut ctr, "user1", B_ROUND);
    match ctr.storage_balance_of(&user) {
        None => panic!("user account should be registered"),
        Some(s) => {
            assert_eq!(s.available, 0, "availabe should be 0");
            assert_eq!(s.total, STORAGE_COST, "total user storage deposit should be correct");
        }
    }
}

#[test]
fn lib_test_staking() {
    let user = "user1";
    let mut ctr = setup_contract(0);
    assert_eq!(ctr.total_stake, 0, "at the beginning there should be 0 total stake");
    register(&mut ctr, user, B_ROUND);

    // stake before farming_start
    stake(&mut ctr, user, E24, 1);
    let (a1_s, a1_r) = status(&ctr, "charlie", B_ROUND);
    assert_eq!(a1_s, 0, "account0 didn't stake");
    assert_eq!(a1_r, 0, "account0 didn't stake so no cheddar");

    let (a1_s, a1_r) = status(&ctr, user, B_ROUND);
    assert_eq!(a1_s, E24, "user stake");
    assert_eq!(ctr.total_stake, a1_s, "total stake should equal to account1 stake");
    assert_eq!(a1_r, 0, "no cheddar should be rewarded before start");

    // stake one more time before farming_start
    stake(&mut ctr, user, 3 * E24, 2);
    let (a1_s, a1_r) = status(&ctr, user, 2 * B_ROUND);
    assert_eq!(a1_s, 4 * E24, "user stake increased");
    assert_eq!(a1_r, 0, "no cheddar should be rewarded before start");
    assert_eq!(ctr.total_stake, a1_s, "total stake should equal to the user stake");

    // staking before the beginning won't yield rewards
    let (a1_s, a1_r) = status(&ctr, user, 10 * B_ROUND - 1);
    assert_eq!(a1_s, 4 * E24, "account1 stake didn't change");
    assert_eq!(a1_r, 0, "no cheddar should be rewarded before start");

    // a whole epoch needs to pass first
    let (a1_s, a1_r) = status(&ctr, user, 10 * B_ROUND + 1);
    assert_eq!(a1_s, 4 * E24, "account1 stake didn't change");
    assert_eq!(a1_r, 0, "no cheddar should be rewarded during the first round");

    // alone: 100% of emission
    let (a1_s, a1_r) = status(&ctr, user, 12 * B_ROUND);
    assert_eq!(a1_s, 4 * E24, "account1 stake didn't change");
    assert_eq!(a1_r, 2 * RATE, "we take all harvest");

    // second check in same epoch shouldn't change rewards
    let (a1_s, a1_r) = status(&ctr, user, 12 * B_ROUND + 100);
    assert_eq!(a1_s, 4 * E24, "account1 stake didn't change");
    assert_eq!(a1_r, 2 * RATE, "in the same epoch we should harvest only once");

    stake(&mut ctr, user, a1_s, 13);
    let (a1_s, a1_r) = status(&ctr, user, 13 * B_ROUND + 100);
    assert_eq!(a1_s, 8 * E24, "account1 stake didn't change");
    assert_eq!(a1_r, 3 * RATE, "adding new stake shouldn't change issuance in 'self farmin' scenario");

    let user2 = "user2";
    let (a2_s, a2_r) = status(&ctr, user2, 13 * B_ROUND + 100);
    assert_eq!(a2_s, 0, "account2 stake should be zero");
    assert_eq!(a2_r, 0, "account2 rewards should be zero");

    // user2 joins, but his stake is only taken into account for the next round
    register(&mut ctr, user2, 14 * B_ROUND);
    stake(&mut ctr, user2, 4 * E24, 14);
    let (a2_s, a2_r) = status(&ctr, user2, 14 * B_ROUND);
    assert_eq!(a2_s, 4 * E24, "account2 stake should be updated");
    assert_eq!(a2_r, 0, "account2 rewards should be still zero");

    let (a1_s, a1_r) = status(&ctr, user, 14 * B_ROUND);
    assert_eq!(a1_s, 8 * E24, "account1 stake didn't change");
    assert_eq!(a1_r, 4 * RATE, "all rewards should still go to user1");

    let (a1_s, a1_r) = status(&ctr, user, 15 * B_ROUND);
    assert_eq!(a1_s, 8 * E24, "account1 stake didn't change");
    assert_eq!(a1_r, 4 * RATE + RATE * 2 / 3, "5th round of account1 farming");

    let (a2_s, a2_r) = status(&ctr, user2, 15 * B_ROUND);
    assert_eq!(a2_s, 4 * E24, "account2 didn't change");
    assert_eq!(a2_r, RATE / 3, "account2 first farming is correct");

    // last round of farming: staking doesn't change the rewards
    stake(&mut ctr, user2, 4 * E24, 20);
    let (a1_s, a1_r) = status(&ctr, user, 20 * B_ROUND);
    assert_eq!(a1_s, 8 * E24, "account1 stake didn't change");
    assert_eq!(a1_r, 4 * RATE + 6 * RATE * 2 / 3, "last round of account1 farming");

    let (a2_s, a2_r) = status(&ctr, user2, 20 * B_ROUND);
    assert_eq!(a2_s, 8 * E24, "account2 stake is updated");
    assert_eq!(a2_r, 6 * RATE / 3, "account2 first farming is correct");
    assert_eq!(ctr.total_stake, a1_s + a2_s, "total stake should equal to sum of  user stake");

    // after farm end farming is disabled
    let (a1_s, a1_r) = status(&ctr, user, 21 * B_ROUND + 100);
    assert_eq!(a1_s, 8 * E24, "account1 stake didn't change");
    assert_eq!(a1_r, 4 * RATE + 6 * RATE * 2 / 3, "last round of account1 farming");
    let (a2_s, a2_r) = status(&ctr, user2, 21 * B_ROUND + 100);
    assert_eq!(a2_s, 8 * E24, "account2 stake is updated");
    assert_eq!(a2_r, 6 * RATE / 3, "account2 first farming is correct");
}

#[test]
fn test_staking_late() {
    let user = "user1";
    let mut ctr = setup_contract(0);
    assert_eq!(ctr.total_stake, 0, "at the beginning there should be 0 total stake");
    register(&mut ctr, user, 15 * ROUND);

    stake(&mut ctr, user, E24, 15);
    let (a1_s, a1_r) = status(&ctr, user, 15 * B_ROUND);
    assert_eq!(a1_s, E24, "user stake");
    assert_eq!(ctr.total_stake, a1_s, "total stake should equal to account1 stake");
    assert_eq!(a1_r, 0, "no cheddar should be rewarded in a round when user joins the pool");

    let (a1_s, a1_r) = status(&ctr, user, 16 * B_ROUND + 100);
    assert_eq!(a1_s, E24, "account1 stake didn't change");
    assert_eq!(a1_r, RATE, "account1 farming");
    assert_eq!(ctr.total_stake, a1_s, "total stake should equal to the user  user stake");
}

#[test]
fn test_staking_late_join() {
    let user = "user1";
    let mut ctr = setup_contract(0);
    register(&mut ctr, user, 14 * B_ROUND);
    assert_eq!(ctr.total_stake, 0, "at the beginning there should be 0 total stake");

    stake(&mut ctr, user, 2 * E24, 15);
    let (a1_s, a1_r) = status(&ctr, user, 15 * B_ROUND + B_ROUND_H);
    assert_eq!(a1_s, 2 * E24, "user stake is correct");
    assert_eq!(a1_r, 0, "no cheddar should be rewarded during the first round of staking");
    assert_eq!(ctr.total_stake, a1_s, "total stake should equal to the user stake");

    let (_, a1_r) = status(&ctr, user, 16 * B_ROUND);
    assert_eq!(a1_r, RATE, "One round farming should be allocated");
}

#[test]
fn test_staking_few_users() {
    let (user, user2, user3) = ("user1", "user2", "user3");
    let mut ctr = setup_contract(0);
    let c = ctx(user, STORAGE_COST, 9 * B_ROUND);
    ctr.storage_deposit(&c, None, None).unwrap();
    ctr.storage_deposit(&c, Some(user2.to_string()), None).unwrap();
    ctr.storage_deposit(&c, Some(user3.to_string()), None).unwrap();
    assert_eq!(ctr.total_stake, 0, "at the beginning there should be 0 total stake");

    stake(&mut ctr, user, 8 * E24, 9);
    stake(&mut ctr, user2, 4 * E24, 9);
    stake(&mut ctr, user3, 12 * E24, 9);

    let (a1_s, a1_r) = status(&ctr, user, 10 * B_ROUND + B_ROUND_H);
    assert_eq!(a1_s, 8 * E24, "user stake is correct");
    assert_eq!(a1_r, 0, "no cheddar should be rewarded");
    assert_eq!(ctr.total_stake, 24 * E24, "total stake should be correct");

    let t = 12 * B_ROUND;
    let (s, r) = status(&ctr, user, t);
    assert_eq!(s, 8 * E24, "user1 stake is correct");
    assert_eq!(r, 4 * 2 * E24, "cheddar should be rewarded");
    assert_eq!(ctr.total_stake, 24 * E24, "total stake should be correct");
    let (s, r) = status(&ctr, user2, t);
    assert_eq!(s, 4 * E24, "user2 stake is correct");
    assert_eq!(r, 2 * 2 * E24, "cheddar should be rewarded");
    let (s, r) = status(&ctr, user3, t);
    assert_eq!(s, 12 * E24, "user3 stake is correct");
    assert_eq!(r, 6 * 2 * E24, "cheddar should be rewarded");

    // at round 15 user2 unstakes 2 tokens and withdraws crop
    let t = 15 * B_ROUND + B_ROUND_H;
    let c2 = ctx(user2, 1, t);
    let (left, _) = ctr.unstake(&c2, 2 * E24).unwrap();
    assert_eq!(left, 2 * E24);
    let (s, r) = status(&ctr, user2, t);
    assert_eq!(s, 2 * E24, "user2 stake should decrease by 2");
    let user2_withdraw = 5 * 2 * E24;
    assert_eq!(r, user2_withdraw, "after stake withdraw, rewards should stay in the account");
    ctr.withdraw_crop(&c2).unwrap();
    let (s, r) = status(&ctr, user2, t);
    assert_eq!(s, 2 * E24, "user2 harvesting shouldn't change the stake");
    assert_eq!(r, 0, "after harvest, user rewards should = 0");

    let t = 22 * B_ROUND;
    let (s, r) = status(&ctr, user, t);
    let (s2, r2) = status(&ctr, user2, t);
    let (s3, r3) = status(&ctr, user3, t);
    assert_eq!(s, 8 * E24, "user1 stake didn't change");
    assert_eq!(s2, 2 * E24, "user2 stake didn't change");
    assert_eq!(s3, 12 * E24, "user3 stake didn't change");
    assert_close(r + r2 + r3 + user2_withdraw, 12 * E24 * 10, "sanity check: total farmed cheddar should work");
    let base = 12 * 5 * E24 / 22;
    assert_close(r, 4 * 5 * E24 + base * 8, "user1 total cheddar should be correct");
    assert_close(r2, base * 2, "cheddar should be rewarded");
    assert_close(r3, 6 * 5 * E24 + base * 12, "cheddar should be rewarded");
}

#[test]
fn unstake_all_returns_nothing_left() {
    let mut ctr = setup_contract(0);
    register(&mut ctr, "user1", B_ROUND);
    stake(&mut ctr, "user1", 5 * E24, 1);
    let c = ctx("user1", 1, 2 * B_ROUND);
    let (left, _) = ctr.unstake(&c, 2 * E24).unwrap();
    assert_eq!(left, 3 * E24);
    let (left, _) = ctr.unstake(&c, 3 * E24).unwrap();
    assert_eq!(left, 0);
    assert_eq!(ctr.total_stake, 0);
}

#[test]
fn farmed_never_exceeds_emission() {
    let mut ctr = setup_contract(0);
    register(&mut ctr, "user1", B_ROUND);
    register(&mut ctr, "user2", B_ROUND);
    stake(&mut ctr, "user1", 3 * E24, 1);
    stake(&mut ctr, "user2", 7 * E24, 12);
    for r in [12u64, 15, 19, 20, 25] {
        let (_, f1) = status(&ctr, "user1", r * B_ROUND);
        let (_, f2) = status(&ctr, "user2", r * B_ROUND);
        let rounds = (r.min(20) - 10) as u128;
        assert!(f1 + f2 <= RATE * rounds, "round {}: {} + {} > {}", r, f1, f2, RATE * rounds);
    }
    // after the end everything emitted is shared
    let (_, f1) = status(&ctr, "user1", 25 * B_ROUND);
    let (_, f2) = status(&ctr, "user2", 25 * B_ROUND);
    assert_close(f1 + f2, RATE * 10, "the whole emission is farmed");
}
