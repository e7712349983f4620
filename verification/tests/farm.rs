use cheddar::near::CallContext;
use cheddar::p3_farm::contract::{Contract, Status};
use cheddar::p3_farm::spec::Error;
use cheddar::p3_lib::constants::{E24, ROUND, ROUND_NS, SECOND, STORAGE_COST};
use cheddar::p3_lib::helpers::round_number;

const END: i64 = 10;
const RATE: u128 = E24 * 2;
const BOOST: u32 = 250;

fn round(r: i64) -> u64 {
    let r: u64 = (10 + r).try_into().unwrap();
    r * ROUND_NS
}

fn ctx(predecessor: &str, deposit: u128, ts: u64) -> CallContext {
    CallContext {
        predecessor: predecessor.to_string(),
        signer: predecessor.to_string(),
        current_account: "farm".to_string(),
        block_timestamp: ts,
        attached_deposit: deposit,
    }
}

struct Farm {
    ctr: Contract,
    now: u64,
}

fn setup_contract(fee_rate: u32) -> Farm {
    let ctr = Contract::new(
        "user_owner".to_string(),
        vec!["atom1".to_string(), "atom2".to_string()],
        vec![E24, E24 / 10],
        RATE,
        vec!["cheddar1".to_string(), "cheddar2".to_string()],
        vec![E24, E24 / 2],
        round(0) / SECOND,
        round(END) / SECOND,
        "nft_cheddy".to_string(),
        BOOST,
        fee_rate,
        "bob".to_string(),
    )
    .unwrap();
    ctr.check_vectors().unwrap();
    Farm { ctr, now: round(-10) }
}

impl Farm {
    fn finalize(&mut self) {
        self.ctr._setup_deposit(&"cheddar1".to_string(), 20 * E24).unwrap();
        self.ctr._setup_deposit(&"cheddar2".to_string(), 10 * E24).unwrap();
        self.ctr.finalize_setup(&ctx("user_owner", 0, self.now)).unwrap();
    }

    fn stake(&mut self, user: &str, token: &str, amount: u128) {
        let c = ctx(token, 0, self.now);
        let unused = self
            .ctr
            .ft_on_transfer(&c, &user.to_string(), amount, &"transfer to farm".to_string())
            .unwrap();
        assert_eq!(unused, 0);
    }

    fn unstake(&mut self, user: &str, token: &str, amount: u128) {
        self.ctr.unstake(&ctx(user, 1, self.now), &token.to_string(), amount).unwrap();
    }

    fn close(&mut self, user: &str) {
        self.ctr.close(&ctx(user, 1, self.now)).unwrap();
    }

    fn register(&mut self, user: &str) {
        self.ctr.storage_deposit(&ctx(user, STORAGE_COST, self.now), None).unwrap();
    }

    fn register_user_and_stake(&mut self, user: &str, amounts: &[u128], r: i64) {
        self.now = round(r);
        self.register(user);
        let tokens = self.ctr.stake_tokens.clone();
        for i in 0..tokens.len() {
            self.stake(user, &tokens[i], amounts[i]);
        }
    }

    fn status(&self, user: &str) -> Option<Status> {
        self.ctr.status(&user.to_string(), self.now).unwrap()
    }
}

#[test]
fn farm_set_active() {
    let mut f = setup_contract(0);
    assert_eq!(f.ctr.is_active, true);
    f.ctr.set_active(&ctx("user_owner", 5, f.now), false).unwrap();
    assert_eq!(f.ctr.is_active, false);
    assert_eq!(f.ctr.set_active(&ctx("alice", 0, f.now), true), Err(Error::NotOwner));
    assert_eq!(f.ctr.is_active, false);
}

#[test]
fn farm_finalize_setup() {
    let mut f = setup_contract(0);
    assert_eq!(f.ctr.setup_finalized, false, "at the beginning setup mut not be finalized");
    f.finalize();
    assert_eq!(f.ctr.setup_finalized, true);
}

#[test]
fn farm_finalize_setup_refusals() {
    let mut f = setup_contract(0);
    assert_eq!(
        f.ctr._setup_deposit(&"cheddar1".to_string(), 10 * E24),
        Err(Error::WrongDeposit { expected: 20 * E24 })
    );
    f.ctr._setup_deposit(&"cheddar1".to_string(), 20 * E24).unwrap();
    assert_eq!(f.ctr.finalize_setup(&ctx("user_owner", 0, f.now)), Err(Error::DepositMissing));
    f.ctr._setup_deposit(&"cheddar2".to_string(), 10 * E24).unwrap();
    assert_eq!(f.ctr.finalize_setup(&ctx("user_owner", 0, 10 * ROUND_NS)), Err(Error::TooLateToFinalize));
}

#[test]
fn farm_round_number() {
    let f = setup_contract(0);
    let ctr = &f.ctr;
    assert_eq!(ctr.current_round(round(-10)), 0);
    assert_eq!(round(-9), ROUND_NS);
    assert_eq!(ctr.farming_start, 10 * ROUND);
    assert_eq!(ctr.current_round(round(-2)), 0);
    assert_eq!(ctr.current_round(round(0)), 0);
    assert_eq!(round(1), 11 * ROUND_NS);
    assert_eq!(ctr.current_round(round(1)), 1);
    assert_eq!(ctr.current_round(round(10)), 10);
    assert_eq!(ctr.current_round(round(11)), 10);
    assert_eq!(round_number(ctr.farming_start, ctr.farming_end, ctr.farming_end), 10);
}

#[test]
fn farm_storage_deposit() {
    let mut f = setup_contract(0);
    let user = "user1".to_string();
    let low = f.ctr.storage_deposit(&ctx("user1", STORAGE_COST / 4, f.now), None);
    assert_eq!(low.err(), Some(Error::DepositBelowStorageCost));
    match f.ctr.storage_balance_of(&user) {
        Some(_) => panic!("unregistered account must not have a balance"),
        _ => {}
    };
    f.register("user1");
    match f.ctr.storage_balance_of(&user) {
        None => panic!("user account should be registered"),
        Some(s) => {
            assert_eq!(s.available, 0, "availabe should be 0");
            assert_eq!(s.total, STORAGE_COST, "total user storage deposit should be correct");
        }
    }
}

#[test]
fn farm_alone_staking() {
    let mut f = setup_contract(0);
    f.finalize();
    assert!(f.status("user1").is_none(), "u1 is not registered yet");

    f.register("user1");
    let a1 = f.status("user1").unwrap();
    assert_eq!(a1.stake_tokens, vec![0, 0], "a1 didn't stake");
    assert_eq!(a1.farmed_units, 0, "a1 didn't stake so no cheddar");

    f.now = round(-3);
    f.stake("user1", "atom1", E24);
    let a1 = f.status("user1").unwrap();
    let a1_stake = vec![E24, 0];
    assert_eq!(a1.stake_tokens, a1_stake, "a1 stake");
    assert_eq!(a1.farmed_units, 0, "farming didn't start yet");
    assert_eq!(f.ctr.total_stake, a1_stake, "total stake should equal to account1 stake");

    f.now = round(-2);
    f.stake("user1", "atom1", 3 * E24);
    f.stake("user1", "atom2", 2 * E24);
    let a1 = f.status("user1").unwrap();
    let a1_stake = vec![4 * E24, 2 * E24];
    assert_eq!(a1.stake_tokens, a1_stake, "a1 stake");
    assert_eq!(a1.farmed_units, 0, "a1 didn't stake so no cheddar");
    assert_eq!(f.ctr.total_stake, a1_stake, "total stake should equal to account1 stake");

    f.now = round(0) - 1;
    let a1 = f.status("user1").unwrap();
    assert_eq!(a1.stake_tokens, a1_stake, "account1 stake didn't change");
    assert_eq!(a1.farmed_units, 0, "no farmed_units should be rewarded before start");

    f.now = round(0) + 1;
    assert_eq!(f.status("user1").unwrap().farmed_units, 0, "need to stake whole round to farm");

    f.now = round(2);
    let a1 = f.status("user1").unwrap();
    assert_eq!(a1.stake_tokens, a1_stake, "account1 stake didn't change");
    assert_eq!(a1.farmed_units, 2 * RATE, "we take all harvest");

    f.now = round(2) + 100;
    assert_eq!(f.status("user1").unwrap().farmed_units, 2 * RATE, "in the same epoch we should harvest only once");

    f.now = round(9);
    let total_rounds: u128 = round_number(f.ctr.farming_start, f.ctr.farming_end, f.ctr.farming_end).into();
    assert_eq!(
        f.status("user1").unwrap().farmed_units,
        (total_rounds - 1) * RATE,
        "in the last round we should get rewards minus one round"
    );

    f.now = round(END) + 100;
    assert_eq!(f.status("user1").unwrap().farmed_units, total_rounds * RATE, "after end we should get all rewards");
    f.now = round(END + 1) + 100;
    assert_eq!(f.status("user1").unwrap().farmed_units, total_rounds * RATE, "after end there is no more farming");

    f.ctr.withdraw_crop(&ctx("user1", 0, f.now)).unwrap();
    assert_eq!(f.status("user1").unwrap().farmed_units, 0, "after withdrawing we should have 0 farming units");
    assert_eq!(f.ctr.total_harvested, vec![20 * E24, 10 * E24]);
}

#[test]
fn farm_alone_staking_late() {
    let mut f = setup_contract(0);
    f.finalize();
    f.register("user1");

    f.now = round(1);
    f.stake("user1", "atom1", E24 / 10);

    f.now = round(3) + 100;
    let a1 = f.status("user1").unwrap();
    assert_eq!(a1.stake_tokens, vec![E24 / 10, 0], "a1 stake");
    assert_eq!(a1.farmed_units, 0, "need to stake all tokens to farm");

    f.now = round(4) + 500;
    f.stake("user1", "atom2", E24 / 10);
    let a1 = f.status("user1").unwrap();
    assert_eq!(a1.stake_tokens, vec![E24 / 10, E24 / 10], "a1 stake");
    assert_eq!(a1.farmed_units, 0, "full round needs to pass to farm");

    f.now = round(5);
    assert_eq!(f.status("user1").unwrap().farmed_units, RATE, "full round needs to pass to farm");
    f.now = round(END);
    assert_eq!(f.status("user1").unwrap().farmed_units, 6 * RATE, "farming form round 5 (including) to 10");
}

#[test]
fn farm_staking_2_users() {
    let mut f = setup_contract(0);
    assert_eq!(f.ctr.total_stake, vec![0, 0], "at the beginning there should be 0 total stake");
    f.finalize();

    let a1_stake = vec![4 * E24, 3 * E24];
    f.register_user_and_stake("user1", &a1_stake, -2);
    let a2_stake = vec![E24, E24];
    f.register_user_and_stake("user2", &a2_stake, 3);

    let a1 = f.status("user1").unwrap();
    assert_eq!(a1.stake_tokens, a1_stake, "account1 stake didn't change");
    assert_eq!(a1.farmed_units, 3 * RATE, "adding new stake doesn't change current issuance");
    assert_eq!(a1.stake, 3 * E24 / 10);
    let a2 = f.status("user2").unwrap();
    assert_eq!(a2.stake_tokens, a2_stake, "account2 stake got updated");
    assert_eq!(a2.farmed_units, 0, "u2 doesn't farm now");
    assert_eq!(a2.stake, E24 / 10);

    f.now = round(4);
    let a1 = f.status("user1").unwrap();
    assert_eq!(a1.stake_tokens, a1_stake, "account1 stake didn't change");
    assert_eq!(a1.farmed_units, 3 * RATE + RATE * 3 / 4, "5th round of account1 farming");
    let a2 = f.status("user2").unwrap();
    assert_eq!(a2.stake_tokens, a2_stake, "account1 stake didn't change");
    assert_eq!(a1.stake, 3 * E24 / 10);
    assert_eq!(a2.farmed_units, RATE / 4, "account2 first farming is correct");

    f.now = round(END);
    f.stake("user2", "atom2", 40 * E24);
    let a1 = f.status("user1").unwrap();
    assert_eq!(a1.farmed_units, 3 * RATE + RATE * 7 * 3 / 4);
    assert_eq!(a1.farmed_units, 3 * RATE + 7 * RATE * 3 / 4, "last round of account1 farming");
    let a2 = f.status("user2").unwrap();
    assert_eq!(a2.stake_tokens, vec![E24, 41 * E24], "account2 stake is updated");
    assert_eq!(a2.farmed_units, 7 * RATE / 4, "account2 first farming is correct");

    f.now = round(END + 2);
    let a1 = f.status("user1").unwrap();
    assert_eq!(a1.stake, 3 * E24 / 10, "account1 stake didn't change");
    assert_eq!(a1.farmed_units, 3 * RATE + 7 * RATE * 3 / 4, "last round of account1 farming");
    let a2 = f.status("user2").unwrap();
    assert_eq!(a2.stake, E24, "account2 min stake have been updated ");
    assert_eq!(a1.farmed_units, 3 * RATE + 7 * RATE * 3 / 4, "but there is no more farming");
}

#[test]
fn farm_stake_unstake() {
    let mut f = setup_contract(0);
    f.finalize();
    let a1_stake = vec![E24, 2 * E24];
    f.register_user_and_stake("user1", &a1_stake, -2);
    f.register_user_and_stake("user2", &a1_stake, -2);

    f.now = round(4);
    f.unstake("user1", "atom1", a1_stake[0]);
    let a1 = f.status("user1").unwrap();
    let a2 = f.status("user2").unwrap();
    assert_eq!(f.ctr.total_stake[0], a1_stake[0], "token1 stake was reduced");
    assert_eq!(f.ctr.total_stake[1], 2 * a1_stake[1], "token2 stake is same");
    assert_eq!(a1.farmed_units, 4 / 2 * RATE, "user1 and user2 should farm equally in first 4 rounds");
    assert_eq!(a2.farmed_units, 4 / 2 * RATE, "user1 and user2 should farm equally in first 4 rounds");

    f.now = round(6);
    let a1 = f.status("user1").unwrap();
    let a2 = f.status("user2").unwrap();
    assert_eq!(a1.farmed_units, 4 / 2 * RATE, "user1 doesn't farm any more");
    assert_eq!(a2.farmed_units, (4 / 2 + 2) * RATE, "user2 gets 100% of farming");

    f.unstake("user1", "atom2", a1_stake[1]);
    assert_eq!(f.ctr.total_stake[0], a1_stake[0], "token1 stake was reduced");
    assert_eq!(f.ctr.total_stake[1], a1_stake[1], "token2 is reduced");
    assert!(f.status("user1").is_none(), "u1 should be removed when unstaking everything");

    f.now = round(7);
    f.close("user2");
    assert_eq!(f.ctr.total_stake[0], 0, "token1");
    assert_eq!(f.ctr.total_stake[1], 0, "token2");
    assert!(f.status("user2").is_none(), "u1 should be removed when unstaking everything");
}

#[test]
fn farm_nft_boost() {
    let mut f = setup_contract(0);
    f.finalize();
    let a1_stake = vec![E24, 2 * E24];
    f.register_user_and_stake("user1", &a1_stake, -2);
    let sent_back = f
        .ctr
        .nft_on_transfer(&ctx("nft_cheddy", 0, f.now), &"user1".to_string(), "1".to_string())
        .unwrap();
    assert_eq!(sent_back, false);
    f.register_user_and_stake("user2", &a1_stake, -2);

    f.now = round(2);
    let a1 = f.status("user1").unwrap();
    let a2 = f.status("user2").unwrap();
    assert!(a1.farmed_units > 2 / 2 * RATE, "user1 should farm more than the 'normal' rate");
    assert!(a2.farmed_units < 2 / 2 * RATE, "user2 should farm less than the 'normal' rate");

    f.now = round(2) + 1000;
    f.ctr.withdraw_nft(&ctx("user1", 0, f.now), &"user1".to_string()).unwrap();

    f.now = round(3);
    let a1_4 = f.status("user1").unwrap();
    let a2_4 = f.status("user2").unwrap();
    assert_eq!(a1_4.farmed_units - a1.farmed_units, RATE / 2, "user1 farming rate is equal to user2");
    assert_eq!(a2_4.farmed_units - a2.farmed_units, RATE / 2, "user1 farming rate is equal to user2");
}
