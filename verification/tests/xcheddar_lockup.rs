use cheddar::cheddar_coin::Contract as Cheddar;
use cheddar::near::{CallContext, PromiseResult};
use cheddar::u256::mul_div;
use cheddar::xcheddar::utils::{nano_to_sec, DURATION_30DAYS_IN_SEC};
use cheddar::xcheddar::{Contract as XCheddar, ContractMetadata, Error};

const E24: u128 = 1_000_000_000_000_000_000_000_000;
const SEC: u64 = 1_000_000_000;
const DURATION_1DAY_IN_SEC: u32 = 60 * 60 * 24;
const ACCOUNT_STORAGE: u64 = 200;

fn to_yocto(n: u128) -> u128 {
    n * E24
}

fn sec_to_nano(s: u32) -> u64 {
    s as u64 * SEC
}

fn ctx(predecessor: &str, deposit: u128, ts: u64) -> CallContext {
    CallContext {
        predecessor: predecessor.to_string(),
        signer: predecessor.to_string(),
        current_account: "xcheddar".to_string(),
        block_timestamp: ts,
        attached_deposit: deposit,
    }
}

/// The Cheddar token and the xCheddar lockup, wired together as the chain
/// would run them.
struct Env {
    cheddar: Cheddar,
    x: XCheddar,
    now: u64,
}

fn init_env(register_user: bool, now: u64) -> Env {
    let mut cheddar = Cheddar::new("owner".to_string());
    cheddar.add_minter(&ctx("owner", 1, now), "user".to_string()).unwrap();
    cheddar.ft_mint(&ctx("owner", 1, now), &"owner".to_string(), to_yocto(10000)).unwrap();
    cheddar.ft_mint(&ctx("user", 1, now), &"user".to_string(), to_yocto(100)).unwrap();
    let x = XCheddar::new("owner".to_string(), "cheddar".to_string(), now, ACCOUNT_STORAGE);
    let mut env = Env { cheddar, x, now };
    if register_user {
        env.x.storage_deposit(&ctx("user", E24, now), None).unwrap();
    }
    env
}

impl Env {
    /// `ft_transfer_call` of Cheddar to the lockup with `msg`.
    fn send(&mut self, from: &str, amount: u128, msg: &str) {
        let from_s = from.to_string();
        let xid = "xcheddar".to_string();
        self.cheddar.ft_transfer_call(&ctx(from, 1, self.now), &xid, amount, msg.to_string()).unwrap();
        let refund = self.x.ft_on_transfer(&ctx("cheddar", 0, self.now), &from_s, amount, &msg.to_string());
        let unused = refund.unwrap_or(amount);
        self.cheddar.resolve_unused(&from_s, &xid, amount, unused).unwrap();
    }

    fn unstake(&mut self, user: &str, amount: u128) -> Result<(), Error> {
        let t = self.x.unstake(&ctx(user, 1, self.now), amount)?;
        let ok = self.cheddar.ft_transfer(&ctx("xcheddar", 1, self.now), &t.user, t.amount).is_ok();
        let result = if ok { PromiseResult::Successful(vec![]) } else { PromiseResult::Failed };
        self.x.callback_post_unstake(&t.user, t.amount, t.share, 1, &result)
    }

    fn modify_monthly_reward(&mut self, reward: u128, distribute: bool) {
        self.x.modify_monthly_reward(&ctx("owner", 0, self.now), reward, distribute).unwrap();
    }

    fn info(&self) -> ContractMetadata {
        self.x.contract_metadata(self.now)
    }

    fn balance(&self, user: &str) -> u128 {
        self.cheddar.ft_balance_of(&user.to_string())
    }

    /// A new block, one second later.
    fn produce_block(&mut self) {
        self.now += SEC;
    }
}

fn assert_xcheddar(info: &ContractMetadata, undistributed_reward: u128, locked_token_amount: u128, supply: u128) {
    assert_eq!(info.undistributed_reward, undistributed_reward);
    assert_eq!(info.locked_token_amount, locked_token_amount);
    assert_eq!(info.supply, supply);
}

#[test]
fn test_reset_reward_genesis_time() {
    let mut env = init_env(true, 0);
    let info = env.info();
    let init_genesis_time = info.reward_genesis_time_in_sec;
    assert_eq!(init_genesis_time, info.prev_distribution_time_in_sec);

    // reward_distribute won't touch anything before genesis time
    env.modify_monthly_reward(to_yocto(1), true);
    env.send("owner", to_yocto(100), "reward");
    let info = env.info();
    assert_eq!(init_genesis_time, info.reward_genesis_time_in_sec);
    assert_eq!(init_genesis_time, info.prev_distribution_time_in_sec);
    assert_eq!(to_yocto(100), info.undistributed_reward);
    assert_eq!(to_yocto(1), info.monthly_reward);
    assert_eq!(to_yocto(100), info.cur_undistributed_reward);
    assert_eq!(to_yocto(0), info.cur_locked_token_amount);

    // and reward won't be distributed before genesis time
    env.now = 100_000_000_000;
    let info = env.info();
    assert_eq!(to_yocto(100), info.cur_undistributed_reward);
    assert_eq!(to_yocto(0), info.cur_locked_token_amount);

    // nothing happens even if some action invokes the distribution before genesis time
    env.modify_monthly_reward(to_yocto(5), true);
    let info = env.info();
    assert_eq!(init_genesis_time, info.reward_genesis_time_in_sec);
    assert_eq!(init_genesis_time, info.prev_distribution_time_in_sec);
    assert_eq!(to_yocto(100), info.undistributed_reward);
    assert_eq!(to_yocto(5), info.monthly_reward);
    assert_eq!(to_yocto(100), info.cur_undistributed_reward);
    assert_eq!(to_yocto(0), info.cur_locked_token_amount);

    // changing genesis time also changes prev_distribution_time_in_sec
    let current_timestamp = env.now;
    env.x
        .reset_reward_genesis_time_in_sec(&ctx("owner", 0, env.now), nano_to_sec(current_timestamp) + 50)
        .unwrap();
    let info = env.info();
    assert_eq!(info.reward_genesis_time_in_sec, nano_to_sec(current_timestamp) + 50);
    assert_eq!(info.prev_distribution_time_in_sec, nano_to_sec(current_timestamp) + 50);
    assert_eq!(to_yocto(100), info.undistributed_reward);
    assert_eq!(to_yocto(5), info.monthly_reward);
    assert_eq!(to_yocto(100), info.cur_undistributed_reward);
    assert_eq!(to_yocto(0), info.cur_locked_token_amount);

    // 2 months passed
    env.now = current_timestamp + sec_to_nano(2 * DURATION_30DAYS_IN_SEC);
    let info = env.info();
    assert_eq!(to_yocto(95), info.cur_undistributed_reward);
    assert_eq!(to_yocto(5), info.cur_locked_token_amount);

    // a call distributes the reward after genesis time (the call lands one block later)
    env.now = current_timestamp + sec_to_nano(DURATION_30DAYS_IN_SEC + DURATION_1DAY_IN_SEC);
    env.produce_block();
    env.modify_monthly_reward(to_yocto(10), true);

    // 3 months passed
    env.now = current_timestamp + sec_to_nano(3 * DURATION_30DAYS_IN_SEC);
    let info = env.info();
    assert_eq!(info.reward_genesis_time_in_sec, nano_to_sec(current_timestamp) + 50);
    assert_eq!(info.prev_distribution_time_in_sec, nano_to_sec(current_timestamp) + 2678401);
    assert_eq!(to_yocto(95), info.undistributed_reward);
    assert_eq!(to_yocto(5), info.locked_token_amount);
    assert_eq!(to_yocto(10), info.monthly_reward);
    assert_eq!(to_yocto(85), info.cur_undistributed_reward);
    assert_eq!(to_yocto(15), info.cur_locked_token_amount);
}

#[test]
fn test_reset_reward_genesis_time_use_past_time() {
    let mut env = init_env(true, 1000 * SEC);
    let info = env.info();
    let current_timestamp = env.now;
    let r = env
        .x
        .reset_reward_genesis_time_in_sec(&ctx("owner", 0, env.now), nano_to_sec(current_timestamp) - 1);
    assert_eq!(r, Err(Error::ResetTimeIsPastTime));
    let info1 = env.info();
    assert_eq!(info.reward_genesis_time_in_sec, info1.reward_genesis_time_in_sec);
}

#[test]
fn test_reward_genesis_time_passed() {
    let mut env = init_env(true, 1000 * SEC);
    let info = env.info();
    env.now = (info.reward_genesis_time_in_sec + 1) as u64 * 1_000_000_000;
    let current_timestamp = env.now;
    let r = env
        .x
        .reset_reward_genesis_time_in_sec(&ctx("owner", 0, env.now), nano_to_sec(current_timestamp) + 1);
    assert_eq!(r, Err(Error::RewardGenesisTimePassed));
    let info1 = env.info();
    assert_eq!(info.reward_genesis_time_in_sec, info1.reward_genesis_time_in_sec);
}

#[test]
fn test_modify_monthly_reward() {
    let mut env = init_env(true, 1000 * SEC);
    env.modify_monthly_reward(to_yocto(1), true);
    assert_eq!(env.info().monthly_reward, to_yocto(1));
    let r = env.x.modify_monthly_reward(&ctx("user", 0, env.now), to_yocto(2), true);
    assert_eq!(r, Err(Error::NotAllowed));
    assert_eq!(env.info().monthly_reward, to_yocto(1));
}

/// Applies the reward distributed between two snapshots to the running totals.
fn distributed(before: &ContractMetadata, after: &ContractMetadata, total_reward: &mut u128, total_locked: &mut u128) -> u32 {
    let time_diff = (after.prev_distribution_time_in_sec - before.prev_distribution_time_in_sec) / DURATION_30DAYS_IN_SEC;
    *total_reward -= time_diff as u128 * after.monthly_reward;
    *total_locked += time_diff as u128 * after.monthly_reward;
    time_diff
}

#[test]
fn test_reward() {
    let mut env = init_env(true, 1000 * SEC);
    let mut total_reward = 0;
    let mut total_locked = 0;
    let mut total_supply = 0;

    env.modify_monthly_reward(to_yocto(1), true);
    assert_eq!(env.info().monthly_reward, to_yocto(1));

    let current_timestamp = env.now;
    env.x
        .reset_reward_genesis_time_in_sec(&ctx("owner", 0, env.now), nano_to_sec(current_timestamp) + 10)
        .unwrap();
    assert_eq!(env.info().reward_genesis_time_in_sec, nano_to_sec(current_timestamp) + 10);
    env.now = sec_to_nano(nano_to_sec(current_timestamp) + 10);

    // adding a reward triggers the distribution, which only updates prev_distribution_time
    env.send("owner", to_yocto(100), "reward");
    total_reward += to_yocto(100);
    let info0 = env.info();
    assert_xcheddar(&info0, to_yocto(100), 0, 0);
    assert_eq!(to_yocto(1), info0.monthly_reward);

    // staking triggers the distribution
    env.produce_block();
    env.send("user", to_yocto(11), "");
    total_locked += to_yocto(11);
    total_supply += to_yocto(11);
    let info1 = env.info();
    distributed(&info0, &info1, &mut total_reward, &mut total_locked);
    assert_xcheddar(&info1, total_reward, total_locked, total_supply);
    assert_eq!(to_yocto(89), env.balance("user"));

    // two months later, modify_monthly_reward triggers the distribution
    env.now += sec_to_nano(2 * DURATION_30DAYS_IN_SEC);
    env.modify_monthly_reward(to_yocto(1), true);
    let info2 = env.info();
    assert_eq!(info2.monthly_reward, to_yocto(1));
    assert_eq!(distributed(&info1, &info2, &mut total_reward, &mut total_locked), 2);
    assert_xcheddar(&info2, total_reward, total_locked, total_supply);

    // modify_monthly_reward without distribution
    env.now += sec_to_nano(DURATION_30DAYS_IN_SEC);
    env.modify_monthly_reward(to_yocto(1), false);
    let info2_1 = env.info();
    assert_eq!(distributed(&info2, &info2_1, &mut total_reward, &mut total_locked), 0);
    assert_xcheddar(&info2_1, total_reward, total_locked, total_supply);

    // nothing triggers the distribution
    env.produce_block();
    let info3 = env.info();
    assert_xcheddar(&info3, total_reward, total_locked, total_supply);
    assert_eq!(to_yocto(89), env.balance("user"));

    // adding a reward triggers the distribution
    env.send("owner", to_yocto(100), "reward");
    total_reward += to_yocto(100);
    let info4 = env.info();
    assert_eq!(distributed(&info3, &info4, &mut total_reward, &mut total_locked), 1);
    assert_xcheddar(&info4, total_reward, total_locked, total_supply);

    // unstaking triggers the distribution
    env.produce_block();
    env.unstake("user", to_yocto(10)).unwrap();
    let info5 = env.info();
    distributed(&info4, &info5, &mut total_reward, &mut total_locked);
    let unlocked = mul_div(to_yocto(10), total_locked, total_supply);
    total_locked -= unlocked;
    total_supply -= to_yocto(10);
    assert_eq!(to_yocto(1), total_supply);
    assert_xcheddar(&info5, total_reward, total_locked, total_supply);
    assert_eq!(to_yocto(89) + unlocked, env.balance("user"));

    // long after, nothing triggers the distribution
    env.now += sec_to_nano(300 * DURATION_30DAYS_IN_SEC);
    let info6 = env.info();
    assert_xcheddar(&info6, total_reward, total_locked, total_supply);

    // staking triggers the distribution, with less reward left than due
    env.send("user", to_yocto(10), "");
    let info7 = env.info();
    let time_diff = (info7.prev_distribution_time_in_sec - info6.prev_distribution_time_in_sec) / DURATION_30DAYS_IN_SEC;
    assert!(total_reward < time_diff as u128 * info7.monthly_reward);
    total_locked += total_reward;
    total_reward -= total_reward;
    total_supply += mul_div(to_yocto(10), total_supply, total_locked);
    total_locked += to_yocto(10);
    assert_xcheddar(&info7, total_reward, total_locked, total_supply);
    assert_eq!(to_yocto(79) + unlocked, env.balance("user"));

    // staking when the locked amount holds rewards
    env.send("user", to_yocto(10), "");
    total_supply += mul_div(to_yocto(10), total_supply, total_locked);
    total_locked += to_yocto(10);
    let info8 = env.info();
    assert_xcheddar(&info8, total_reward, total_locked, total_supply);
    assert_eq!(to_yocto(69) + unlocked, env.balance("user"));
}

#[test]
fn test_no_reward_before_reset_reward_genesis_time() {
    let mut env = init_env(true, 1000 * SEC);
    let mut total_reward = 0;
    let mut total_locked = 0;
    let mut total_supply = 0;

    env.modify_monthly_reward(to_yocto(1), true);
    assert_eq!(env.info().monthly_reward, to_yocto(1));

    env.send("owner", to_yocto(100), "reward");
    total_reward += to_yocto(100);
    let info1 = env.info();
    assert_xcheddar(&info1, to_yocto(100), 0, 0);
    assert_eq!(to_yocto(1), info1.monthly_reward);

    env.produce_block();
    env.send("user", to_yocto(10), "");
    total_locked += to_yocto(10);
    total_supply += to_yocto(10);
    let info2 = env.info();
    let time_diff = info2.prev_distribution_time_in_sec - info1.prev_distribution_time_in_sec;
    total_reward -= time_diff as u128 * info2.monthly_reward;
    total_locked += time_diff as u128 * info2.monthly_reward;
    assert_xcheddar(&info2, total_reward, total_locked, total_supply);
    assert_eq!(to_yocto(90), env.balance("user"));

    env.now += 10 * SEC;
    env.send("user", to_yocto(10), "");
    total_locked += to_yocto(10);
    total_supply += to_yocto(10);
    let info3 = env.info();
    let time_diff = info3.prev_distribution_time_in_sec - info2.prev_distribution_time_in_sec;
    total_reward -= time_diff as u128 * info3.monthly_reward;
    total_locked += time_diff as u128 * info3.monthly_reward;
    assert_xcheddar(&info3, total_reward, total_locked, total_supply);
    assert_eq!(to_yocto(80), env.balance("user"));
    assert_eq!(info3.undistributed_reward, to_yocto(100));
    assert_eq!(info3.locked_token_amount, to_yocto(20));

    env.now += 10 * SEC;
    env.unstake("user", to_yocto(10)).unwrap();
    let info4 = env.info();
    let time_diff = info4.prev_distribution_time_in_sec - info3.prev_distribution_time_in_sec;
    total_reward -= time_diff as u128 * info4.monthly_reward;
    total_locked += time_diff as u128 * info4.monthly_reward;
    let unlocked = mul_div(to_yocto(10), total_locked, total_supply);
    total_locked -= unlocked;
    total_supply -= to_yocto(10);
    assert_eq!(to_yocto(10), total_locked);
    assert_eq!(to_yocto(10), total_supply);
    assert_xcheddar(&info4, total_reward, total_locked, total_supply);
    assert_eq!(to_yocto(80) + unlocked, env.balance("user"));
    assert_eq!(unlocked, to_yocto(10));
    assert_eq!(info4.undistributed_reward, to_yocto(100));
    assert_eq!(info4.locked_token_amount, to_yocto(10));
}

#[test]
fn test_account_number() {
    let mut env = init_env(true, 1000 * SEC);
    assert_eq!(env.info().account_number, 1);
    env.x.storage_deposit(&ctx("user2", E24, env.now), None).unwrap();
    assert_eq!(env.info().account_number, 2);
    env.x.storage_unregister(&ctx("user2", 1, env.now), None).unwrap();
    assert_eq!(env.info().account_number, 1);
    env.x.storage_unregister(&ctx("user", 1, env.now), None).unwrap();
    assert_eq!(env.info().account_number, 0);
}

#[test]
fn test_unstake() {
    let mut env = init_env(true, 1000 * SEC);
    env.send("user", to_yocto(10), "");
    assert_eq!(to_yocto(90), env.balance("user"));
    assert_xcheddar(&env.info(), 0, to_yocto(10), to_yocto(10));
    assert_eq!(100000000_u128, env.x.get_virtual_price(env.now));

    env.unstake("user", to_yocto(8)).unwrap();
    assert_eq!(to_yocto(98), env.balance("user"));
    assert_xcheddar(&env.info(), 0, to_yocto(2), to_yocto(2));
    assert_eq!(100000000_u128, env.x.get_virtual_price(env.now));

    assert_eq!(env.unstake("user", to_yocto(2)), Err(Error::KeepAtLeastOneXCheddar));
}

#[test]
fn test_unstake_empty_total_supply() {
    let mut env = init_env(true, 1000 * SEC);
    assert_eq!(env.unstake("user", to_yocto(1)), Err(Error::EmptyTotalSupply));
    assert_eq!(to_yocto(100), env.balance("user"));
    assert_xcheddar(&env.info(), 0, 0, 0);
}

#[test]
fn test_unstake_not_enough_balance() {
    let mut env = init_env(true, 1000 * SEC);
    env.send("user", to_yocto(10), "");
    assert_eq!(to_yocto(90), env.balance("user"));
    assert_xcheddar(&env.info(), 0, to_yocto(10), to_yocto(10));
    assert_eq!(100000000_u128, env.x.get_virtual_price(env.now));

    assert_eq!(env.unstake("user", to_yocto(11)), Err(Error::NotEnoughBalance));
    assert_eq!(to_yocto(90), env.balance("user"));
    assert_xcheddar(&env.info(), 0, to_yocto(10), to_yocto(10));
    assert_eq!(100000000_u128, env.x.get_virtual_price(env.now));
}

#[test]
fn xcheddar_failed_unstake_transfer_is_undone() {
    let mut env = init_env(true, 1000 * SEC);
    env.send("user", to_yocto(10), "");
    let t = env.x.unstake(&ctx("user", 1, env.now), to_yocto(4)).unwrap();
    assert_eq!(t.amount, to_yocto(4));
    assert_eq!(env.x.ft_balance_of(&"user".to_string()), to_yocto(6));
    env.x.callback_post_unstake(&t.user, t.amount, t.share, 1, &PromiseResult::Failed).unwrap();
    assert_eq!(env.x.ft_balance_of(&"user".to_string()), to_yocto(10));
    assert_xcheddar(&env.info(), 0, to_yocto(10), to_yocto(10));
}

#[test]
fn xcheddar_metadata_version_and_owner() {
    let mut env = init_env(false, 1000 * SEC);
    let info = env.info();
    assert_eq!(info.version, "1.0.2".to_string());
    assert_eq!(info.owner_id, "owner".to_string());
    assert_eq!(info.locked_token, "cheddar".to_string());
    assert_eq!(info.reward_genesis_time_in_sec, 1000 + DURATION_30DAYS_IN_SEC);
    assert_eq!(env.x.set_owner(&ctx("user", 1, env.now), "user".to_string()), Err(Error::NotAllowed));
    env.x.set_owner(&ctx("owner", 1, env.now), "new_owner".to_string()).unwrap();
    assert_eq!(env.x.get_owner(), "new_owner".to_string());
    // an unregistered account can't stake: the transfer is refused and undone
    let r = env.x.ft_on_transfer(&ctx("cheddar", 0, env.now), &"user".to_string(), to_yocto(1), &"".to_string());
    assert_eq!(r, Err(Error::NotRegistered));
    // only the locked token is accepted
    let r = env.x.ft_on_transfer(&ctx("other", 0, env.now), &"user".to_string(), to_yocto(1), &"".to_string());
    assert_eq!(r, Err(Error::MismatchToken));
}

fn compute_p(total_locked: u128, total_supply: u128, staked: bool) -> u128 {
    if staked {
        total_supply * 100_000_000 / total_locked
    } else {
        total_locked * 100_000_000 / total_supply
    }
}

#[allow(non_snake_case)]
#[test]
fn test_P_value() {
    let mut env = init_env(true, 1000 * SEC);
    let user = "user".to_string();
    let reward_per_second: u128 = 10000000000000000000000; // 0.01
    env.x.internal_deposit(&user, 50_000 * E24).unwrap();
    env.x.locked_token_amount = 52_500 * E24;
    let p_unstaked = compute_p(env.x.locked_token_amount, env.x.total_supply, false);
    let p_staked = compute_p(env.x.locked_token_amount, env.x.total_supply, true);
    assert_eq!(p_unstaked, 105_000_000);
    assert_eq!(env.x.get_virtual_price(env.now), p_unstaked);

    // stake 100
    env.x.internal_stake(&user, 100 * E24).unwrap();
    assert_eq!(p_staked, compute_p(env.x.locked_token_amount, env.x.total_supply, true));
    assert_eq!(p_unstaked, compute_p(env.x.locked_token_amount, env.x.total_supply, false));

    // stake 1000
    env.x.internal_stake(&user, 1000 * E24).unwrap();
    assert_eq!(p_staked, compute_p(env.x.locked_token_amount, env.x.total_supply, true));
    assert_eq!(p_unstaked, compute_p(env.x.locked_token_amount, env.x.total_supply, false));

    // unstake 10000 after 1000 seconds of distribution
    env.x.locked_token_amount += reward_per_second * 1000;
    let locked = env.x.locked_token_amount;
    let supply = env.x.total_supply;
    let t = env.x.unstake(&ctx("user", 1, env.now), 10000 * E24).unwrap();
    assert_eq!(t.amount, mul_div(10000 * E24, locked, supply));
    assert_eq!(env.x.locked_token_amount, locked - t.amount);
    assert_eq!(env.x.total_supply, supply - 10000 * E24);
    assert!(compute_p(env.x.locked_token_amount, env.x.total_supply, false) >= p_unstaked);

    // unstake all but 1 xCheddar after 1000 more seconds
    env.x.locked_token_amount += reward_per_second * 1000;
    let amount: u128 = 41046619047619047619047619047;
    let locked = env.x.locked_token_amount;
    let supply = env.x.total_supply;
    assert_eq!(supply - amount, E24);
    let t = env.x.unstake(&ctx("user", 1, env.now), amount).unwrap();
    assert_eq!(t.amount, mul_div(amount, locked, supply));
    assert_eq!(env.x.total_supply, E24);
}

#[test]
fn xcheddar_stake_unstake_round_trip_gains_nothing() {
    let mut env = init_env(true, 1000 * SEC);
    env.send("user", to_yocto(10), "");
    // rewards raised the price: 10 xCheddar stand for 13 Cheddar
    env.x.locked_token_amount += to_yocto(3);
    let supply = env.x.total_supply;
    env.x.internal_stake(&"user".to_string(), to_yocto(7)).unwrap();
    let minted = env.x.total_supply - supply;
    assert_eq!(minted, mul_div(to_yocto(7), to_yocto(10), to_yocto(13)));
    let t = env.x.unstake(&ctx("user", 1, env.now), minted).unwrap();
    assert!(t.amount <= to_yocto(7));
    assert!(to_yocto(7) - t.amount <= 1);
}

#[test]
fn xcheddar_ft_metadata() {
    let env = init_env(false, 1000 * SEC);
    let m = env.x.ft_metadata();
    assert_eq!(m.spec, "ft-1.0.0".to_string());
    assert_eq!(m.name, "xCheddar Token".to_string());
    assert_eq!(m.symbol, "xCHEDDAR".to_string());
    assert_eq!(m.decimals, 24);
    assert!(m.icon.unwrap().starts_with("<svg"));
    assert!(m.reference.is_none());
}
