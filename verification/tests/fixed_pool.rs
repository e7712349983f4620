use cheddar::near::{CallContext, PromiseResult};
use cheddar::p1_staking_pool_dyn::constants::{MIN_STAKE, ROUND};
use cheddar::p1_staking_pool_fixed::{Action, Contract, Error};

fn ctx(predecessor: &str, deposit: u128, round: u64) -> CallContext {
    CallContext {
        predecessor: predecessor.to_string(),
        signer: predecessor.to_string(),
        current_account: "pool".to_string(),
        block_timestamp: round * ROUND,
        attached_deposit: deposit,
    }
}

fn setup_contract() -> Contract {
    Contract::new("alice".to_string(), "cheddar".to_string(), 120000, 10, 20)
}

fn status(ctr: &Contract, user: &str, ts: u64) -> (u128, u128) {
    let (s, r, _) = ctr.status(&user.to_string(), ts).unwrap();
    (s, r)
}

#[test]
fn fixed_pool_set_active() {
    let mut ctr = setup_contract();
    assert_eq!(ctr.is_active, true);
    ctr.set_active(&ctx("alice", 0, 1), false).unwrap();
    assert_eq!(ctr.is_active, false);
    assert_eq!(ctr.set_active(&ctx("bob", 0, 1), true), Err(Error::NotOwner));
    assert_eq!(ctr.is_active, false);
    assert_eq!(ctr.stake(&ctx("bob", MIN_STAKE, 1)), Err(Error::NotOpen));
}

#[test]
fn fixed_pool_min_staking() {
    let mut ctr = setup_contract();
    assert_eq!(ctr.stake(&ctx("bob", 5 * MIN_STAKE / 10, 1)), Err(Error::MinStake));
    assert_eq!(ctr.total_stake, 0);
}

#[test]
fn fixed_pool_staking() {
    let mut ctr = setup_contract();
    assert_eq!(ctr.total_stake, 0, "at the beginning there should be 0 total stake");
    assert_eq!(ctr.stake(&ctx("bob", 10 * MIN_STAKE, 1)), Ok(10 * MIN_STAKE));
    assert_eq!(status(&ctr, "alice", ROUND), (0, 0), "alice didn't stake");
    assert_eq!(status(&ctr, "bob", ROUND), (10 * MIN_STAKE, 0), "no cheddar before start");
    assert_eq!(ctr.total_stake, 10 * MIN_STAKE);

    // stake before the farming start
    assert_eq!(ctr.stake(&ctx("bob", 10 * MIN_STAKE, 2)), Ok(20 * MIN_STAKE));
    assert_eq!(ctr.total_stake, 20 * MIN_STAKE);
    assert_eq!(status(&ctr, "bob", 10 * ROUND + 1), (20 * MIN_STAKE, 0));
    assert_eq!(status(&ctr, "bob", 10 * ROUND), (20 * MIN_STAKE, 0));

    // alone, bob takes the whole emission, once per round
    assert_eq!(status(&ctr, "bob", 11 * ROUND), (20 * MIN_STAKE, 120_000));
    assert_eq!(status(&ctr, "bob", 11 * ROUND + 100), (20 * MIN_STAKE, 120_000));

    // carol stakes as much at round 13: bob farmed alone until then, and
    // from then on the two share every round
    ctr.stake(&ctx("carol", 20 * MIN_STAKE, 13)).unwrap();
    assert_eq!(ctr.total_stake, 40 * MIN_STAKE);
    assert_eq!(status(&ctr, "carol", 13 * ROUND), (20 * MIN_STAKE, 0));
    assert_eq!(status(&ctr, "bob", 14 * ROUND), (20 * MIN_STAKE, 3 * 120_000 + 120_000 / 2));
    assert_eq!(status(&ctr, "carol", 14 * ROUND), (20 * MIN_STAKE, 120_000 / 2));
    // after the end nothing more is farmed
    assert_eq!(status(&ctr, "carol", 30 * ROUND), (20 * MIN_STAKE, 7 * 120_000 / 2));
    assert_eq!(status(&ctr, "bob", 30 * ROUND), (20 * MIN_STAKE, 3 * 120_000 + 7 * 120_000 / 2));
    let (_, _, round) = ctr.status(&"carol".to_string(), 15 * ROUND).unwrap();
    assert_eq!(round, 15);
}

#[test]
fn fixed_pool_unstake_and_close() {
    let mut ctr = setup_contract();
    ctr.stake(&ctx("bob", 100 * MIN_STAKE, 5)).unwrap();
    assert_eq!(ctr.unstake(&ctx("bob", 0, 12), MIN_STAKE).err(), Some(Error::RequiresOneYocto));
    assert_eq!(ctr.unstake(&ctx("carol", 1, 12), MIN_STAKE).err(), Some(Error::NoAccount));
    let (left, actions) = ctr.unstake(&ctx("bob", 1, 12), 40 * MIN_STAKE).unwrap();
    assert_eq!(left, 60 * MIN_STAKE);
    assert_eq!(actions, vec![Action::TransferNear { receiver: "bob".to_string(), amount: 40 * MIN_STAKE }]);
    assert_eq!(ctr.total_stake, 60 * MIN_STAKE);
    assert_eq!(status(&ctr, "bob", 12 * ROUND), (60 * MIN_STAKE, 2 * 120_000));
    // unstaking all but less than the minimum closes the account
    let (left, actions) = ctr.unstake(&ctx("bob", 1, 13), 60 * MIN_STAKE - 1).unwrap();
    assert_eq!(left, 0);
    assert_eq!(
        actions,
        vec![
            Action::TransferNear { receiver: "bob".to_string(), amount: 60 * MIN_STAKE },
            Action::TransferCheddar { receiver: "bob".to_string(), amount: 3 * 120_000 },
        ]
    );
    assert_eq!(ctr.total_stake, 0);
    assert_eq!(status(&ctr, "bob", 13 * ROUND), (0, 0));
    assert_eq!(ctr.close(&ctx("bob", 1, 13)).err(), Some(Error::NoAccount));
}

#[test]
fn fixed_pool_unstake_more_than_staked_closes() {
    let mut ctr = setup_contract();
    ctr.stake(&ctx("bob", 3 * MIN_STAKE, 5)).unwrap();
    let (left, actions) = ctr.unstake(&ctx("bob", 1, 6), 10 * MIN_STAKE).unwrap();
    assert_eq!(left, 0);
    assert_eq!(actions[0], Action::TransferNear { receiver: "bob".to_string(), amount: 3 * MIN_STAKE });
    assert_eq!(actions[1], Action::TransferCheddar { receiver: "bob".to_string(), amount: 0 });
    assert_eq!(ctr.total_stake, 0);
}

#[test]
fn fixed_pool_close_sends_rewards() {
    let mut ctr = setup_contract();
    ctr.stake(&ctx("bob", 10 * MIN_STAKE, 5)).unwrap();
    assert_eq!(ctr.close(&ctx("bob", 0, 15)).err(), Some(Error::RequiresOneYocto));
    let (farmed, actions) = ctr.close(&ctx("bob", 1, 15)).unwrap();
    assert_eq!(farmed, 5 * 120_000);
    assert_eq!(actions[1], Action::TransferCheddar { receiver: "bob".to_string(), amount: 5 * 120_000 });
}

#[test]
fn fixed_pool_withdraw_crop_and_failed_transfer() {
    let mut ctr = setup_contract();
    ctr.stake(&ctx("bob", 10 * MIN_STAKE, 5)).unwrap();
    assert_eq!(ctr.withdraw_crop(&ctx("carol", 0, 12)).err(), Some(Error::NoAccount));
    let (farmed, action) = ctr.withdraw_crop(&ctx("bob", 0, 12)).unwrap();
    assert_eq!(farmed, 2 * 120_000);
    assert_eq!(action, Action::TransferCheddar { receiver: "bob".to_string(), amount: 2 * 120_000 });
    assert_eq!(status(&ctr, "bob", 12 * ROUND), (10 * MIN_STAKE, 0));
    // a successful transfer changes nothing, a failed one gives the rewards back
    ctr.withdraw_callback(&"bob".to_string(), farmed, 1, &PromiseResult::Successful(vec![])).unwrap();
    assert_eq!(status(&ctr, "bob", 12 * ROUND), (10 * MIN_STAKE, 0));
    assert_eq!(
        ctr.withdraw_callback(&"bob".to_string(), farmed, 2, &PromiseResult::Failed),
        Err(Error::UnexpectedPromiseResults)
    );
    ctr.withdraw_callback(&"bob".to_string(), farmed, 1, &PromiseResult::Failed).unwrap();
    assert_eq!(status(&ctr, "bob", 12 * ROUND), (10 * MIN_STAKE, 2 * 120_000));
}

#[test]
fn fixed_pool_params_in_unix_time() {
    let ctr = setup_contract();
    let p = ctr.get_contract_params();
    assert_eq!((p.farming_start, p.farming_end, p.emission_rate, p.is_open), (10, 20, 120000, true));
    assert_eq!(p.owner_id, "alice".to_string());
    assert_eq!(p.token_contract, "cheddar".to_string());
}

#[test]
fn fixed_pool_test_staking_accumulate() {
    let mut ctr = setup_contract();
    assert_eq!(ctr.total_stake, 0, "at the beginning there should be 0 total stake");
    ctr.stake(&ctx("bob", 10 * MIN_STAKE, 5)).unwrap();

    // at round 12 stake the same amount twice with another account
    // (farming starts at round 10)
    ctr.stake(&ctx("charlie", 10 * MIN_STAKE, 12)).unwrap();
    ctr.stake(&ctx("charlie", 10 * MIN_STAKE, 12)).unwrap();

    // check the rewards at round 14
    assert_eq!(ctr.total_stake, 3 * 10 * MIN_STAKE, "each account staked the same amount");
    let (a1_s, a1_r) = status(&ctr, "bob", 14 * ROUND);
    assert_eq!(a1_s, 10 * MIN_STAKE, "account1 stake is correct");
    assert_eq!(a1_r, 2 * 120_000 + 2 * 40_000, "account1 reward");
}
