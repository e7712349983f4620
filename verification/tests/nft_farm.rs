use cheddar::near::CallContext;
use cheddar::p3_lib::constants::{E24, ROUND, ROUND_NS, SECOND, STORAGE_COST};
use cheddar::p3_lib::helpers::round_number;
use cheddar::p4_farm_nft::contract::Contract;
use cheddar::p4_farm_nft::interfaces::P4Status;
use cheddar::p4_farm_nft::spec::Error;

const END: i64 = 10;
const RATE: u128 = E24 * 2;
const BOOST: u32 = 250;
const CHEDDY_BOOST: u32 = 300;
const CHEDDAR_RATE: u128 = 555 * E24;

fn round(r: i64) -> u64 {
    let r: u64 = (10 + r).try_into().unwrap();
    r * ROUND_NS
}

fn ctx(predecessor: &str, signer: &str, deposit: u128, ts: u64) -> CallContext {
    CallContext {
        predecessor: predecessor.to_string(),
        signer: signer.to_string(),
        current_account: "farm".to_string(),
        block_timestamp: ts,
        attached_deposit: deposit,
    }
}

struct Farm {
    ctr: Contract,
    now: u64,
}

fn strings(v: &[&str]) -> Vec<String> {
    v.iter().map(|s| s.to_string()).collect()
}

fn setup_contract(stake_nft_tokens: Option<Vec<&str>>, stake_rates: Option<Vec<u128>>, emission: u128, total_rounds: i64) -> Farm {
    let ctr = Contract::new(
        0,
        "user_owner".to_string(),
        strings(&stake_nft_tokens.unwrap_or_else(|| vec!["nft1", "nft2"])),
        stake_rates.unwrap_or_else(|| vec![E24, E24 / 10]),
        emission,
        strings(&["cheddar", "farming_token"]),
        vec![E24, E24 / 2],
        round(0) / SECOND,
        round(total_rounds) / SECOND,
        strings(&["nft_boost", "nft_boost2", "cheddy_boost"]),
        "cheddy_boost".to_string(),
        BOOST,
        CHEDDY_BOOST,
        CHEDDAR_RATE,
        "cheddar".to_string(),
        "bob".to_string(),
    )
    .unwrap();
    ctr.check_vectors().unwrap();
    Farm { ctr, now: round(-10) }
}

impl Farm {
    fn finalize(&mut self, deposits: [u128; 2]) {
        self.ctr._setup_deposit(&"cheddar".to_string(), deposits[0]).unwrap();
        self.ctr._setup_deposit(&"farming_token".to_string(), deposits[1]).unwrap();
        self.ctr.finalize_setup(&ctx("user_owner", "user_owner", 0, self.now)).unwrap();
    }

    fn deposit_cheddar(&mut self, user: &str) {
        let c = ctx("cheddar", user, 0, self.now);
        let refund = self
            .ctr
            .ft_on_transfer(&c, &user.to_string(), CHEDDAR_RATE, &"cheddar stake".to_string())
            .unwrap();
        assert_eq!(refund, 0);
    }

    fn try_stake(&mut self, user: &str, nft: &str, token_id: &str) -> Result<bool, Error> {
        let c = ctx(nft, user, 0, self.now);
        self.ctr.nft_on_transfer(&c, &user.to_string(), token_id.to_string(), &"to farm".to_string())
    }

    fn stake(&mut self, user: &str, nft: &str, token_id: &str) {
        assert_eq!(self.try_stake(user, nft, token_id), Ok(true));
    }

    fn boost(&mut self, user: &str, boost_contract: &str, token_id: &str) {
        let c = ctx(boost_contract, user, 0, self.now);
        let r = self.ctr.nft_on_transfer(&c, &user.to_string(), token_id.to_string(), &"to boost".to_string());
        assert_eq!(r, Ok(true));
    }

    fn unstake(&mut self, user: &str, nft: &str, token_id: &str) {
        let c = ctx(user, user, 1, self.now);
        self.ctr.unstake(&c, &nft.to_string(), token_id.to_string()).unwrap();
    }

    fn close(&mut self, user: &str) {
        self.ctr.close(&ctx(user, user, 1, self.now)).unwrap();
    }

    fn register(&mut self, user: &str) {
        self.ctr.storage_deposit(&ctx(user, user, STORAGE_COST, self.now), None).unwrap();
    }

    fn register_user_and_stake(&mut self, user: &str, nft: &str, token_id: &str, r: i64) {
        self.now = round(r);
        self.register(user);
        self.deposit_cheddar(user);
        self.stake(user, nft, token_id);
    }

    fn status(&self, user: &str) -> Option<P4Status> {
        self.ctr.status(&user.to_string(), self.now).unwrap()
    }
}

#[test]
fn nft_farm_set_active() {
    let mut f = setup_contract(None, None, RATE, END);
    assert_eq!(f.ctr.is_active, true);
    f.ctr.set_active(&ctx("user_owner", "user_owner", 5, f.now), false).unwrap();
    assert_eq!(f.ctr.is_active, false);
    assert_eq!(f.ctr.set_active(&ctx("alice", "alice", 0, f.now), true), Err(Error::NotOwner));
}

#[test]
fn lib_test_finalize_setup() {
    let mut f = setup_contract(None, None, RATE, END);
    assert_eq!(f.ctr.setup_finalized, false, "at the beginning setup mut not be finalized");
    f.finalize([20 * E24, 10 * E24]);
    assert_eq!(f.ctr.setup_finalized, true)
}

#[test]
fn nft_farm_finalize_setup_refusals() {
    let mut f = setup_contract(None, None, RATE, END);
    assert_eq!(
        f.ctr._setup_deposit(&"cheddar".to_string(), 10 * E24),
        Err(Error::WrongDeposit { expected: 20 * E24 })
    );
    f.ctr._setup_deposit(&"cheddar".to_string(), 20 * E24).unwrap();
    let c = ctx("user_owner", "user_owner", 0, f.now);
    assert_eq!(f.ctr.finalize_setup(&c), Err(Error::DepositMissing));
    f.ctr._setup_deposit(&"farming_token".to_string(), 10 * E24).unwrap();
    let late = ctx("user_owner", "user_owner", 0, 10 * ROUND_NS);
    assert_eq!(f.ctr.finalize_setup(&late), Err(Error::TooLateToFinalize));
    assert_eq!(f.ctr.finalize_setup(&c), Ok(()));
}

#[test]
fn lib_test_round_number() {
    let f = setup_contract(None, None, RATE, END);
    let ctr = &f.ctr;
    assert_eq!(ctr.current_round(round(-10)), 0);
    assert_eq!(round(-9), ROUND_NS);
    assert_eq!(ctr.farming_start, 10 * ROUND);
    assert_eq!(ctr.current_round(round(-2)), 0);
    assert_eq!(ctr.current_round(round(0)), 0);
    assert_eq!(round(1), 11 * ROUND_NS);
    assert_eq!(ctr.current_round(round(1)), 1);
    assert_eq!(ctr.current_round(round(10)), 10);
    assert_eq!(ctr.current_round(round(11)), 10);
    let total_rounds = round_number(ctr.farming_start, ctr.farming_end, ctr.farming_end);
    assert_eq!(total_rounds, 10);
}

#[test]
fn nft_farm_storage_deposit() {
    let mut f = setup_contract(None, None, RATE, END);
    let user = "user1".to_string();
    let r = f.ctr.storage_deposit(&ctx("user1", "user1", STORAGE_COST / 4, f.now), None);
    assert_eq!(r.err(), Some(Error::DepositBelowStorageCost));
    match f.ctr.storage_balance_of(&user) {
        Some(_) => panic!("unregistered account must not have a balance"),
        _ => {}
    };
    f.register("user1");
    match f.ctr.storage_balance_of(&user) {
        None => panic!("user account should be registered"),
        Some(s) => {
            assert_eq!(s.available, 0, "availabe should be 0");
            assert_eq!(s.total, STORAGE_COST, "total user storage deposit should be correct");
        }
    }
}

#[test]
fn test_staking_nft_unit() {
    let mut f = setup_contract(Some(vec!["nft1"]), Some(vec![E24]), RATE, END);
    f.finalize([20 * E24, 10 * E24]);
    f.register_user_and_stake("user1", "nft1", "some_token_id", 2);
    let st = f.status("user1").unwrap();
    assert_eq!(st.stake, E24, "u1 should have staked units!");
    f.unstake("user1", "nft1", "some_token_id");
    assert!(f.status("user1").is_none());
}

#[test]
fn nft_farm_staking_without_cheddar() {
    let mut f = setup_contract(None, None, RATE, END);
    f.finalize([20 * E24, 10 * E24]);
    assert!(f.status("user1").is_none(), "u1 is not registered yet");
    f.register_user_and_stake("user1", "nft1", "token_id_1", -3);
    let r = f.try_stake("user1", "nft1", "token_id_2");
    assert!(matches!(r, Err(Error::NotEnoughCheddar { .. })));
}

#[test]
fn nft_farm_staking_not_expected_cheddar() {
    let mut f = setup_contract(None, None, RATE, END);
    f.finalize([20 * E24, 10 * E24]);
    f.register_user_and_stake("user1", "nft1", "token_id_1", -3);
    let c = ctx("cheddar", "user1", 0, f.now);
    let r = f.ctr.ft_on_transfer(&c, &"user1".to_string(), CHEDDAR_RATE - 1, &"cheddar stake".to_string());
    assert_eq!(r, Err(Error::CheddarBelowRate));
}

#[test]
fn nft_farm_staking_more_cheddar() {
    let mut f = setup_contract(None, None, RATE, END);
    f.finalize([20 * E24, 10 * E24]);
    f.register_user_and_stake("user1", "nft1", "token_id_1", -3);
    f.deposit_cheddar("user1");
    f.deposit_cheddar("user1");
    f.deposit_cheddar("user1");
    f.stake("user1", "nft1", "2");
    f.stake("user1", "nft2", "3(2)");
    f.stake("user1", "nft1", "4");
    let r = f.try_stake("user1", "nft1", "5");
    assert_eq!(r, Err(Error::NotEnoughCheddar { missing: CHEDDAR_RATE }));
}

#[test]
fn lib_test_alone_staking() {
    let mut f = setup_contract(None, None, RATE, END);
    f.finalize([20 * E24, 10 * E24]);
    assert!(f.status("user1").is_none(), "u1 is not registered yet");

    f.register("user1");
    let st = f.status("user1").unwrap();
    for i in 0..st.stake_tokens.len() {
        assert!(st.stake_tokens[i].is_empty(), "a1 didn't stake");
    }
    assert_eq!(st.farmed_units, 0, "a1 didn't stake no one NFT");

    // stake before farming_start
    f.now = round(-3);
    f.deposit_cheddar("user1");
    f.stake("user1", "nft1", "some_token_id");
    let st = f.status("user1").unwrap();
    let mut user_1_stake: Vec<Vec<String>> = vec![vec!["some_token_id".to_string()], vec![]];
    assert_eq!(st.stake_tokens, user_1_stake, "user1 stake");
    assert_eq!(st.total_cheddar_staked, CHEDDAR_RATE, "user1 cheddar stake");
    assert_eq!(st.farmed_units, 0, "farming didn't start yet");
    assert_eq!(f.ctr.total_stake.len(), user_1_stake.len(), "total tokens staked should equal to account1 stake.");

    // stake one more time before farming_start
    f.now = round(-2);
    f.deposit_cheddar("user1");
    f.stake("user1", "nft2", "some_token_id_2");
    let st = f.status("user1").unwrap();
    user_1_stake = vec![vec!["some_token_id".to_string()], vec!["some_token_id_2".to_string()]];
    assert_eq!(st.stake_tokens, user_1_stake, "user1 stake");
    assert_eq!(st.total_cheddar_staked, 2 * CHEDDAR_RATE, "user1 cheddar stake");
    assert_eq!(st.farmed_units, 0, "farming didn't start yet");

    f.now = round(0) - 1;
    let st = f.status("user1").unwrap();
    assert_eq!(st.stake_tokens, user_1_stake, "account1 stake didn't change");
    assert_eq!(st.farmed_units, 0, "no farmed_units should be rewarded before start");

    f.now = round(0) + 1;
    assert_eq!(f.status("user1").unwrap().farmed_units, 0, "need to stake whole round to farm");

    f.now = round(2);
    let st = f.status("user1").unwrap();
    assert_eq!(st.stake_tokens, user_1_stake, "account1 stake didn't change");
    assert_eq!(st.farmed_units, 2 * RATE, "we take all harvest");

    f.now = round(2) + 100;
    let st = f.status("user1").unwrap();
    assert_eq!(st.farmed_units, 2 * RATE, "in the same epoch we should harvest only once");
    assert_eq!(st.total_cheddar_staked, 2 * CHEDDAR_RATE, "user1 cheddar stake didn't change");

    f.now = round(9);
    let total_rounds: u128 = round_number(f.ctr.farming_start, f.ctr.farming_end, f.ctr.farming_end).into();
    assert_eq!(
        f.status("user1").unwrap().farmed_units,
        (total_rounds - 1) * RATE,
        "in the last round we should get rewards minus one round"
    );

    f.now = round(END) + 100;
    assert_eq!(f.status("user1").unwrap().farmed_units, total_rounds * RATE, "after end we should get all rewards");

    f.now = round(END + 1) + 100;
    assert_eq!(f.status("user1").unwrap().farmed_units, total_rounds * RATE, "after end there is no more farming");

    // withdraw
    assert_eq!(f.ctr.farm_deposits, vec![20 * E24, 10 * E24]);
    f.ctr.withdraw_crop(&ctx("user1", "user1", 0, f.now)).unwrap();
    let st = f.status("user1").unwrap();
    assert_eq!(st.farmed_units, 0, "after withdrawing we should have 0 farming units");
    assert_eq!(f.ctr.total_harvested, vec![20 * E24, 10 * E24]);
    assert_eq!(f.ctr.farm_deposits, vec![0, 0]);
    assert_eq!(st.stake_tokens, user_1_stake, "after withdrawing crop stake not changed");
    assert_eq!(st.total_cheddar_staked, 2 * CHEDDAR_RATE, "user1 cheddar stake didn't changed");
}

#[test]
fn lib_test_alone_staking_late() {
    let mut f = setup_contract(None, None, RATE, END);
    f.finalize([20 * E24, 10 * E24]);
    f.register("user1");

    f.now = round(1);
    f.deposit_cheddar("user1");
    f.stake("user1", "nft1", "some_token_id_1");

    f.now = round(3);
    let st = f.status("user1").unwrap();
    let mut user_1_stake: Vec<Vec<String>> = vec![vec!["some_token_id_1".to_string()], vec![]];
    assert_eq!(st.stake_tokens, user_1_stake, "user1 stake");
    assert_eq!(st.farmed_units, 0, "need to stake all tokens to farm");

    f.now = round(4) + 500;
    f.deposit_cheddar("user1");
    f.stake("user1", "nft2", "some_token_id_2");
    let st = f.status("user1").unwrap();
    user_1_stake = vec![vec!["some_token_id_1".to_string()], vec!["some_token_id_2".to_string()]];
    assert_eq!(st.stake_tokens, user_1_stake, "user1 stake");
    assert_eq!(st.farmed_units, 0, "full round needs to pass to farm");
    assert_eq!(st.total_cheddar_staked, 2 * CHEDDAR_RATE, "2 tokens staked Cheddar stake equivalent");

    f.now = round(5);
    assert_eq!(f.status("user1").unwrap().farmed_units, RATE, "full round needs to pass to farm");

    f.now = round(END);
    assert_eq!(f.status("user1").unwrap().farmed_units, 6 * RATE, "farming form round 5 (including) to 10");
}

#[test]
fn lib_test_staking_2_users() {
    let mut f = setup_contract(Some(vec!["nft1"]), Some(vec![E24 / 10]), RATE, END);
    assert_eq!(f.ctr.total_stake, vec![0], "at the beginning there should be 0 total stake");
    f.finalize([20 * E24, 10 * E24]);

    let user_1_stake = vec![strings(&["some_token_id_1", "some_token_id_1_1", "some_token_id_1_2"])];
    f.register_user_and_stake("user1", "nft1", "some_token_id_1", -2);
    f.deposit_cheddar("user1");
    f.stake("user1", "nft1", "some_token_id_1_1");
    f.deposit_cheddar("user1");
    f.stake("user1", "nft1", "some_token_id_1_2");

    let user_2_stake = vec![strings(&["some_token_id_2"])];
    f.register_user_and_stake("user2", "nft1", "some_token_id_2", 3);

    let st1 = f.status("user1").unwrap();
    assert_eq!(st1.stake_tokens, user_1_stake, "account1 stake didn't change");
    assert_eq!(st1.farmed_units, 3 * RATE, "adding new stake doesn't change current issuance");
    assert_eq!(st1.stake, 3 * E24 / 10);
    assert_eq!(st1.total_cheddar_staked, 3 * CHEDDAR_RATE);

    let st2 = f.status("user2").unwrap();
    assert_eq!(st2.stake_tokens, user_2_stake, "account2 stake got updated");
    assert_eq!(st2.farmed_units, 0, "u2 doesn't farm now");
    assert_eq!(st2.stake, E24 / 10);
    assert_eq!(st2.total_cheddar_staked, CHEDDAR_RATE);

    f.now = round(4);
    let st1 = f.status("user1").unwrap();
    assert_eq!(st1.stake_tokens, user_1_stake, "account1 stake didn't change");
    assert_eq!(st1.farmed_units, 3 * RATE + RATE * 3 / 4, "5th round of account1 farming");
    assert_eq!(st1.total_cheddar_staked, 3 * CHEDDAR_RATE, "u1 cheddar stake didn't change");
    let st2 = f.status("user2").unwrap();
    assert_eq!(st2.stake_tokens, user_2_stake, "account1 stake didn't change");
    assert_eq!(st1.stake, 3 * E24 / 10);
    assert_eq!(st2.farmed_units, RATE / 4, "account2 first farming is correct");
    assert_eq!(st2.total_cheddar_staked, CHEDDAR_RATE, "u2 cheddar stake didn't change");

    // last round of farming: staking doesn't change the rewards
    f.now = round(END);
    f.deposit_cheddar("user2");
    f.stake("user2", "nft1", "some_token_id_3");
    let st1 = f.status("user1").unwrap();
    assert_eq!(st1.farmed_units, 3 * RATE + RATE * 7 * 3 / 4);
    assert_eq!(st1.farmed_units, 3 * RATE + 7 * RATE * 3 / 4, "last round of account1 farming");
    assert_eq!(st1.total_cheddar_staked, 3 * CHEDDAR_RATE, "u1 cheddar stake didn't change");
    let st2 = f.status("user2").unwrap();
    let user_2_stake = vec![strings(&["some_token_id_2", "some_token_id_3"])];
    assert_eq!(st2.stake_tokens, user_2_stake, "account2 stake is updated");
    assert_eq!(st2.farmed_units, 7 * RATE / 4, "account2 first farming is correct");
    assert_eq!(st2.total_cheddar_staked, 2 * CHEDDAR_RATE, "u1 cheddar stake didn't change");

    f.now = round(END + 2);
    let st1 = f.status("user1").unwrap();
    assert_eq!(st1.stake, 3 * E24 / 10, "account1 stake didn't change");
    assert_eq!(st1.farmed_units, 3 * RATE + 7 * RATE * 3 / 4, "last round of account1 farming");
    let st2 = f.status("user2").unwrap();
    assert_eq!(st2.stake, 2 * E24 / 10, "account2 min stake have been updated ");
    assert_eq!(st1.farmed_units, 3 * RATE + 7 * RATE * 3 / 4, "but there is no more farming");
}

#[test]
fn lib_test_stake_unstake() {
    let mut f = setup_contract(None, None, RATE, END);
    f.finalize([20 * E24, 10 * E24]);

    f.register_user_and_stake("user1", "nft1", "some_token_id_1", -2);
    f.register_user_and_stake("user2", "nft1", "some_token_id_3", -2);
    f.deposit_cheddar("user1");
    f.stake("user1", "nft2", "some_token_id_2");
    f.deposit_cheddar("user1");
    f.stake("user1", "nft2", "some_token_id_2_2");
    f.deposit_cheddar("user2");
    f.stake("user2", "nft2", "some_token_id_4");
    f.deposit_cheddar("user2");
    f.stake("user2", "nft2", "some_token_id_4_2");

    assert_eq!(f.ctr.total_stake[0], 2, "token1 stake two NFT tokens for contract nft1 (index = 0");
    assert_eq!(f.ctr.total_stake[1], 4, "token1 stake four NFT tokens for contract nft2 (index = 1");
    assert_eq!(f.ctr.total_cheddar_stake, 6 * CHEDDAR_RATE, "total staked cheddar in contract");

    f.now = round(4);
    f.unstake("user1", "nft1", "some_token_id_1");
    let st1 = f.status("user1").unwrap();
    let st2 = f.status("user2").unwrap();
    assert_eq!(f.ctr.total_stake[0], 1, "token1 stake was reduced");
    assert_eq!(f.ctr.total_stake[1], 4, "token2 stake is same");
    assert_eq!(f.ctr.total_cheddar_stake, 5 * CHEDDAR_RATE, "total stake cheddar changed");
    assert_eq!(st1.farmed_units, 4 / 2 * RATE, "user1 and user2 should farm equally in first 4 rounds");
    assert_eq!(st2.farmed_units, 4 / 2 * RATE, "user1 and user2 should farm equally in first 4 rounds");

    f.now = round(6);
    let st1 = f.status("user1").unwrap();
    let st2 = f.status("user2").unwrap();
    assert_eq!(st1.farmed_units, 4 / 2 * RATE, "user1 doesn't farm any more");
    assert_eq!(st2.farmed_units, (4 / 2 + 2) * RATE, "user2 gets 100% of farming");

    f.unstake("user2", "nft1", "some_token_id_3");
    f.unstake("user1", "nft2", "some_token_id_2");
    f.unstake("user1", "nft2", "some_token_id_2_2");
    assert_eq!(f.ctr.total_stake[0], 0, "token1 stake was reduced");
    assert_eq!(f.ctr.total_stake[1], 2, "token2 is reduced");
    assert_eq!(f.ctr.total_cheddar_stake, 2 * CHEDDAR_RATE, "total stake cheddar changed");
    assert!(f.status("user1").is_none(), "user1 should be removed when unstaking everything");
    assert_eq!(
        f.status("user2").unwrap().total_cheddar_staked,
        f.ctr.total_cheddar_stake,
        "u2 total staked cheddar equals to all staked and to 2 * CHEDDAR_RATE"
    );

    f.now = round(7);
    f.close("user2");
    assert_eq!(f.ctr.total_stake[0], 0, "token1");
    assert_eq!(f.ctr.total_stake[1], 0, "token2");
    assert!(f.status("user2").is_none(), "u1 should be removed when unstaking everything");
}

#[test]
fn lib_test_nft_boost() {
    let mut f = setup_contract(Some(vec!["nft1"]), Some(vec![E24]), RATE, END);
    f.finalize([20 * E24, 10 * E24]);

    f.register_user_and_stake("user1", "nft1", "some_token", -2);
    f.boost("user1", "nft_boost", "1");
    f.register_user_and_stake("user2", "nft1", "some_token_2", -2);

    f.now = round(2);
    let st1 = f.status("user1").unwrap();
    let st2 = f.status("user2").unwrap();
    assert!(st1.farmed_units > 2 / 2 * RATE, "user1 should farm more than the 'normal' rate");
    assert!(st2.farmed_units < 2 / 2 * RATE, "user2 should farm less than the 'normal' rate");
    assert_eq!(st1.boost_nfts, "nft_boost@1".to_string(), "incorrect boost contract_token_ids");
    assert!(f.ctr.total_boost == vec![1u128, 0u128, 0u128], "unexpected boost stake!");

    f.now = round(2) + 1000;
    f.ctr.withdraw_boost_nft(&ctx("user1", "user1", 1, f.now)).unwrap();

    f.now = round(3);
    let st1_r4 = f.status("user1").unwrap();
    let st2_r4 = f.status("user2").unwrap();
    assert_eq!(st1_r4.farmed_units - st1.farmed_units, RATE / 2, "user1 farming rate is equal to user2");
    assert_eq!(st2_r4.farmed_units - st2.farmed_units, RATE / 2, "user1 farming rate is equal to user2");
    assert!(st1_r4.boost_nfts.is_empty(), "incorrect boost contract_token_ids");
    assert!(f.ctr.total_boost == vec![0u128, 0u128, 0u128], "unexpected boost stake!");
}

#[test]
fn test_stake_by_token_id_unstake_all() {
    let mut f = setup_contract(Some(vec!["nft1"]), Some(vec![E24 / 20]), RATE, END);
    f.finalize([20 * E24, 10 * E24]);
    let user_1_stake = vec![strings(&["some_token", "some_token_2"])];

    f.register_user_and_stake("user1", "nft1", "some_token", -2);
    f.deposit_cheddar("user1");
    f.stake("user1", "nft1", "some_token_2");
    let st = f.status("user1").unwrap();
    assert_eq!(st.stake_tokens, user_1_stake, "stake tokens as ids must be equal to vector");
    assert_eq!(st.farmed_units, 0, "no farmed units before before round 0");
    assert_eq!(f.ctr.total_cheddar_stake, 2 * CHEDDAR_RATE, "staked cheddar on contract");

    f.now = round(4);
    let st = f.status("user1").unwrap();
    assert_eq!(st.stake_tokens, user_1_stake, "user stake didn't change");
    assert_eq!(st.farmed_units, 4 * RATE, "farmed units");
    assert_eq!(st.farmed_tokens, vec![8 * E24, 4 * E24], "farmed tokens");
    assert_eq!(st.stake, 2 * E24 / 20, "farmed tokens");

    f.close("user1");
    assert!(f.status("user1").is_none(), "account closed");
    assert_eq!(f.ctr.total_stake[0], 0, "token1 stake was reduced");
    assert_eq!(f.ctr.total_cheddar_stake, 0, "cheddar stake reduces");
}

#[test]
fn test_stake_longer() {
    const E23RATE: u128 = RATE / 20;
    let mut f = setup_contract(Some(vec!["nft1"]), Some(vec![E24]), E23RATE, 20160);
    f.finalize([2016 * E24, 2016 / 2 * E24]);

    let user_1_stake = vec![strings(&["1_1", "2_1"])];
    let user_3_stake = vec![strings(&["1_3", "2_3", "3_3", "4_3", "5_3"])];

    f.register_user_and_stake("user1", "nft1", "1_1", -2);
    f.register_user_and_stake("user2", "nft1", "1_2", -2);
    f.register_user_and_stake("user3", "nft1", "1_3", -2);
    let (s1, s2, s3) = (f.status("user1").unwrap(), f.status("user2").unwrap(), f.status("user3").unwrap());
    assert_eq!(f.ctr.total_stake[0], 3, "total staked tokens");
    assert_eq!(f.ctr.total_cheddar_stake, 3 * CHEDDAR_RATE, "total staked cheddar on contract");
    assert!(s1.farmed_units + s2.farmed_units + s3.farmed_units == 0, "zeroed units for all users before farming start");

    let total_rounds = round_number(f.ctr.farming_start, f.ctr.farming_end, f.ctr.farming_end);
    assert_eq!(total_rounds, 20160);

    f.now = round(60);
    let (s1, s2, s3) = (f.status("user1").unwrap(), f.status("user2").unwrap(), f.status("user3").unwrap());
    assert_eq!(f.ctr.total_stake[0], f.ctr.total_cheddar_stake / CHEDDAR_RATE, "staked tokens amount didn't change as like Cheddar stake");
    assert!(
        s1.farmed_units + s2.farmed_units + s3.farmed_units == 60 * E23RATE,
        "for all users its one token and one hour farmed units (60minutes * rate)"
    );
    assert!(
        s1.farmed_tokens[0] + s2.farmed_tokens[0] + s3.farmed_tokens[0] == 60 * E23RATE,
        "farmed token number one have 1/1 rates"
    );
    assert!(
        s1.farmed_tokens[1] + s2.farmed_tokens[1] + s3.farmed_tokens[1] == 60 * E23RATE / 2,
        "farmed token number two have 1/2 rates from token one"
    );
    f.deposit_cheddar("user1");
    f.stake("user1", "nft1", "2_1");
    assert_eq!(f.status("user1").unwrap().stake_tokens, user_1_stake, "user_1 now stake all his tokens (2)");
    assert_eq!(f.ctr.total_stake[0], 4, "now one more token staked in contract");
    assert_eq!(f.ctr.total_cheddar_stake, 4 * CHEDDAR_RATE, "now one more token staked in contract");

    f.now = round(61);
    let (s1, s2, s3) = (f.status("user1").unwrap(), f.status("user2").unwrap(), f.status("user3").unwrap());
    assert_eq!(s1.farmed_units - s2.farmed_units, E23RATE / 4);
    assert_eq!(s1.farmed_units - s3.farmed_units, E23RATE / 4);
    assert_eq!(s1.farmed_units + s2.farmed_units + s3.farmed_units, 61 * E23RATE, "sum of all units is RATE");

    f.now = round(240);
    assert!(f.ctr.total_boost == vec![0u128, 0u128, 0u128], "no boost stake!");
    f.boost("user3", "nft_boost", "1");
    f.boost("user1", "nft_boost2", "1");
    assert_eq!(f.ctr.total_stake[0], 4);
    assert_eq!(f.ctr.total_cheddar_stake, 4 * CHEDDAR_RATE);
    assert!(f.ctr.total_boost == vec![1u128, 1u128, 0u128], "unexpected boost stake!");

    f.now = round(1500);
    let (s1, s2, s3) = (f.status("user1").unwrap(), f.status("user2").unwrap(), f.status("user3").unwrap());
    assert!(
        s3.farmed_units > s2.farmed_units,
        "NFT boost made user_3 more units when both staking same tokens amounts (1)"
    );
    assert_eq!(s3.boost_nfts, "nft_boost@1".to_string(), "incorrect boost contract_token_ids");
    assert_eq!(s1.boost_nfts, "nft_boost2@1".to_string(), "incorrect boost contract_token_ids");
    assert!(f.ctr.total_boost == vec![1u128, 1u128, 0u128], "unexpected boost stake!");

    for t in ["2_3", "3_3", "4_3", "5_3"] {
        f.deposit_cheddar("user3");
        f.stake("user3", "nft1", t);
    }
    assert_eq!(f.ctr.total_stake[0], f.ctr.total_cheddar_stake / CHEDDAR_RATE, "+4 tokens and +4 * 555 Cheddar in Contract now");
    assert_eq!(user_3_stake, f.status("user3").unwrap().stake_tokens, "user1 stake all 5 tokens");

    f.now = round(20160);
    f.unstake("user3", "nft1", "5_3");
    f.close("user3");
    f.close("user2");
    f.close("user1");

    let total_emission = 20160 * E23RATE;
    let emission_accuracy: u128 = E24 / 1000;
    assert!(total_emission - f.ctr.total_harvested[0] < emission_accuracy, "all is harvested");
    assert_eq!(f.ctr.total_cheddar_stake, 0, "all cheddar reverts when unstake");
    assert_eq!(f.ctr.total_stake[0], 0, "all cheddar reverts when unstake");
    assert!(f.ctr.total_boost == vec![0u128, 0u128, 0u128], "all boost reverts when unstake!");
    assert!(f.status("user1").is_none());
    assert!(f.status("user2").is_none());
    assert!(f.status("user3").is_none());
}

#[test]
fn test_different_nft_boosts() {
    let mut f = setup_contract(Some(vec!["nft1"]), Some(vec![E24]), RATE, END);
    f.finalize([20 * E24, 10 * E24]);

    f.register_user_and_stake("user1", "nft1", "some_token_1", -2);
    f.boost("user1", "cheddy_boost", "1");
    f.register_user_and_stake("user2", "nft1", "some_token_2", -2);
    f.boost("user2", "nft_boost", "1");
    f.register_user_and_stake("user3", "nft1", "some_token_3", -2);
    f.boost("user3", "nft_boost2", "1");
    f.register_user_and_stake("user4", "nft1", "some_token_4", -2);

    f.now = round(2);
    let s1 = f.status("user1").unwrap();
    let s2 = f.status("user2").unwrap();
    let s3 = f.status("user3").unwrap();
    let s4 = f.status("user4").unwrap();
    assert!(s1.farmed_units > (2 / 4) * RATE, "user1 should farm more than the 'normal' rate");
    assert!(s2.farmed_units > (2 / 4) * RATE, "user2 should farm more than the 'normal' rate");
    assert!(s3.farmed_units > (2 / 4) * RATE, "user3 should farm more than the 'normal' rate");
    assert!(s4.farmed_units < (2 * RATE) / 4, "user4 should farm less than the 'normal' rate");
    assert_eq!(s1.boost_nfts, "cheddy_boost@1".to_string(), "incorrect boost contract_token_ids");
    assert_ne!(s2.boost_nfts, s3.boost_nfts, "incorrect boost contract_token_ids");
    assert!(s2.farmed_units == s3.farmed_units, "same collection boost nfts - same boost");
    assert!(s1.farmed_units > s2.farmed_units, "cheddy boost provides more rewards than other boost nfts");
    assert!(f.ctr.total_boost == vec![1u128, 1u128, 1u128], "unexpected boost stake!");

    f.now = round(2) + 1000;
    f.ctr.withdraw_boost_nft(&ctx("user2", "user2", 1, f.now)).unwrap();

    f.now = round(3);
    let s2_r4 = f.status("user2").unwrap();
    let s3_r4 = f.status("user3").unwrap();
    let s4_r4 = f.status("user4").unwrap();
    assert_eq!(
        s2_r4.farmed_units - s2.farmed_units,
        s4_r4.farmed_units - s4.farmed_units,
        "user2 farming rate is equal to user4"
    );
    assert!(s3_r4.farmed_units > s2_r4.farmed_units, "user3 farming rate more then user2 has now");
    assert!(s2_r4.boost_nfts.is_empty(), "incorrect boost contract_token_ids");
    assert!(f.ctr.total_boost == vec![0u128, 1u128, 1u128], "unexpected boost stake!");
}

#[test]
fn test_unstake_all() {
    const E23RATE: u128 = RATE / 20;
    let mut f = setup_contract(Some(vec!["nft1", "nft2"]), Some(vec![E24, E24 / 2]), E23RATE, 20160);
    f.finalize([2016 * E24, 2016 / 2 * E24]);

    f.register_user_and_stake("user1", "nft1", "1", -2);
    assert!(f.ctr.total_cheddar_stake == 1 * CHEDDAR_RATE, "staked 1 NFT");
    for (nft, t) in [("nft2", "2"), ("nft1", "3"), ("nft2", "4"), ("nft2", "5"), ("nft2", "6"), ("nft2", "7")] {
        f.deposit_cheddar("user1");
        f.stake("user1", nft, t);
    }
    f.unstake("user1", "nft1", "1");
    f.unstake("user1", "nft1", "3");
    let st = f.status("user1").unwrap();
    assert!(st.stake_tokens[0].is_empty());
    assert!(st.stake_tokens[1] == strings(&["2", "4", "5", "6", "7"]), "nft_2 staked should keeped");
    assert!(st.total_cheddar_staked == 5 * CHEDDAR_RATE, "2 unstaked, now we have only 5 tokens from nft_2 contract");
    assert_eq!(f.ctr.total_stake[0], 0, "no tokens for nft_1 contract");
    assert_eq!(f.ctr.total_stake[1], 5, "5 tokens for nft_2 contract");

    f.deposit_cheddar("user1");
    f.stake("user1", "nft1", "3");
    for t in ["2", "4", "5", "6", "7"] {
        f.unstake("user1", "nft2", t);
    }
    let st = f.status("user1").unwrap();
    assert!(st.stake_tokens[1].is_empty());
    assert!(st.stake_tokens[0] == strings(&["3"]), "nft_1 staked should keeped");
    assert!(st.total_cheddar_staked == 1 * CHEDDAR_RATE, "5 unstaked, now we have only 1 token from nft_2 contract");
    assert_eq!(f.ctr.total_stake[0], 1, "1 token for nft_1 contract");
    assert_eq!(f.ctr.total_stake[1], 0, "no tokens for nft_2 contract");
    f.close("user1");
    assert_eq!(f.ctr.total_stake[0], 0, "1 token for nft_1 contract");
    assert_eq!(f.ctr.total_stake[1], 0, "no tokens for nft_2 contract");
    assert!(f.status("user1").is_none());
}

#[test]
fn test_close_max() {
    const E23RATE: u128 = RATE / 20;
    let mut f = setup_contract(Some(vec!["nft1", "nft2"]), Some(vec![E24, E24 / 2]), E23RATE, 20160);
    f.finalize([2016 * E24, 2016 / 2 * E24]);

    f.register_user_and_stake("user1", "nft1", "1", -2);
    assert!(f.ctr.total_cheddar_stake == 1 * CHEDDAR_RATE, "staked 1 NFT");
    for (nft, t) in [("nft1", "2"), ("nft1", "3"), ("nft1", "4"), ("nft1", "5"), ("nft1", "6"), ("nft2", "7")] {
        f.deposit_cheddar("user1");
        f.stake("user1", nft, t);
    }
    assert!(f.ctr.total_cheddar_stake == 7 * CHEDDAR_RATE, "staked 8 NFT");
    assert!(f.ctr.total_stake[0] == 6, "staked 4 NFT from nft_1");
    assert!(f.ctr.total_stake[1] == 1, "staked 3 NFT from nft_2");
    let st = f.status("user1").unwrap();
    assert!(st.stake_tokens[0].len() + st.stake_tokens[1].len() == 7, "staked 7 NFT");
    f.close("user1");
    assert!(f.status("user1").is_none());
}

#[test]
fn nft_farm_close_refuses_too_many_nfts() {
    let mut f = setup_contract(Some(vec!["nft1"]), Some(vec![E24]), RATE, END);
    f.finalize([20 * E24, 10 * E24]);
    f.register_user_and_stake("user1", "nft1", "0", -2);
    for t in ["1", "2", "3", "4", "5", "6", "7"] {
        f.deposit_cheddar("user1");
        f.stake("user1", "nft1", t);
    }
    let r = f.ctr.close(&ctx("user1", "user1", 1, f.now));
    assert!(matches!(r, Err(Error::TooManyNfts)));
    assert!(f.status("user1").is_some());
}
