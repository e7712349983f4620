use cheddar::cheddar_coin::vesting::VestingRecord;
use cheddar::cheddar_coin::{Contract, Error};
use cheddar::near::{CallContext, PromiseResult};

const OWNER_SUPPLY: u128 = 1_000_000_000_000_000_000_000_000_000_000;

fn ctx(predecessor: &str, deposit: u128, ts: u64) -> CallContext {
    CallContext {
        predecessor: predecessor.to_string(),
        signer: predecessor.to_string(),
        current_account: "alice".to_string(),
        block_timestamp: ts,
        attached_deposit: deposit,
    }
}

fn s(x: &str) -> String {
    x.to_string()
}

#[test]
fn test_new() {
    let mut contract = Contract::new(s("bob"));
    contract.mint(&s("bob"), OWNER_SUPPLY).unwrap();
    assert_eq!(contract.ft_total_supply(), OWNER_SUPPLY);
    assert_eq!(contract.ft_balance_of(&s("bob")), OWNER_SUPPLY);
}

#[test]
fn test_transfer() {
    let mut contract = Contract::new(s("charlie"));
    contract.mint(&s("charlie"), OWNER_SUPPLY).unwrap();
    let transfer_amount = OWNER_SUPPLY / 3;
    contract.ft_transfer(&ctx("charlie", 1, 0), &s("bob"), transfer_amount).unwrap();
    assert_eq!(contract.ft_balance_of(&s("charlie")), OWNER_SUPPLY - transfer_amount);
    assert_eq!(contract.ft_balance_of(&s("bob")), transfer_amount);
}

#[test]
fn cheddar_transfer_refusals() {
    let mut c = Contract::new(s("owner"));
    c.mint(&s("owner"), 100).unwrap();
    assert_eq!(c.ft_transfer(&ctx("owner", 0, 0), &s("bob"), 10), Err(Error::RequiresOneYocto));
    assert_eq!(c.ft_transfer(&ctx("owner", 1, 0), &s("owner"), 10), Err(Error::SameAccount));
    assert_eq!(c.ft_transfer(&ctx("owner", 1, 0), &s("bob"), 0), Err(Error::ZeroAmount));
    assert_eq!(c.ft_transfer(&ctx("owner", 1, 0), &s("bob"), 101), Err(Error::NotEnoughBalance));
    assert_eq!(c.ft_transfer(&ctx("nobody", 1, 0), &s("bob"), 1), Err(Error::NotRegistered));
    assert_eq!(c.ft_balance_of(&s("owner")), 100);
    assert_eq!(c.ft_total_supply(), 100);
}

#[test]
fn cheddar_minters() {
    let mut c = Contract::new(s("owner"));
    assert_eq!(c.ft_mint(&ctx("minter", 1, 0), &s("bob"), 5), Err(Error::NotMinter));
    assert_eq!(c.add_minter(&ctx("bob", 1, 0), s("minter")), Err(Error::NotOwner));
    c.add_minter(&ctx("owner", 1, 0), s("minter")).unwrap();
    assert_eq!(c.add_minter(&ctx("owner", 1, 0), s("minter")), Err(Error::AlreadyMinter));
    assert_eq!(c.get_minters().clone(), vec![s("owner"), s("minter")]);
    assert_eq!(c.ft_mint(&ctx("minter", 0, 0), &s("bob"), 5), Err(Error::RequiresDeposit));
    c.ft_mint(&ctx("minter", 1, 0), &s("bob"), 5).unwrap();
    assert_eq!(c.ft_balance_of(&s("bob")), 5);
    assert_eq!(c.ft_total_supply(), 5);
    c.remove_minter(&ctx("owner", 1, 0), &s("minter")).unwrap();
    assert_eq!(c.get_minters().clone(), vec![s("owner")]);
    assert_eq!(c.ft_mint(&ctx("minter", 1, 0), &s("bob"), 5), Err(Error::NotMinter));
}

#[test]
fn cheddar_burn_undoes_mint() {
    let mut c = Contract::new(s("owner"));
    c.mint(&s("bob"), 40).unwrap();
    c.mint(&s("bob"), 60).unwrap();
    c.self_burn(&ctx("bob", 1, 0), 60).unwrap();
    assert_eq!(c.ft_balance_of(&s("bob")), 40);
    assert_eq!(c.ft_total_supply(), 40);
    assert_eq!(c.self_burn(&ctx("bob", 1, 0), 41), Err(Error::NotEnoughBalance));
}

#[test]
fn cheddar_vesting() {
    let mut c = Contract::new(s("owner"));
    let m = ctx("owner", 1, 0);
    assert_eq!(c.mint_vested(&m, &s("bob"), 1000, 200, 100), Err(Error::CliffAfterEnd));
    assert_eq!(c.mint_vested(&m, &s("bob"), 0, 100, 200), Err(Error::ZeroVesting));
    c.mint_vested(&m, &s("bob"), 1000, 100, 200).unwrap();
    assert_eq!(c.mint_vested(&m, &s("bob"), 1000, 100, 200), Err(Error::AlreadyVested));
    assert_eq!(
        c.get_vesting_info(&s("bob")),
        Some(VestingRecord { amount: 1000, cliff_timestamp: 100, end_timestamp: 200 })
    );
    assert_eq!(c.get_locked_amount(&s("bob"), 50), 1000);
    assert_eq!(c.get_locked_amount(&s("bob"), 150), 500);
    assert_eq!(c.get_locked_amount(&s("bob"), 175), 250);
    assert_eq!(c.get_locked_amount(&s("bob"), 200), 0);
    assert_eq!(c.get_locked_amount(&s("carol"), 150), 0);
    // locked tokens can't be sent
    assert_eq!(c.ft_transfer(&ctx("bob", 1, 150), &s("carol"), 501), Err(Error::VestingLocked));
    c.ft_transfer(&ctx("bob", 1, 150), &s("carol"), 500).unwrap();
    assert_eq!(c.ft_balance_of(&s("bob")), 500);
    // past the cliff the vesting can't be cancelled any more... only while tokens are locked
    assert_eq!(c.cancel_vesting(&ctx("owner", 1, 250), &s("bob")), Err(Error::PastCliff));
    assert_eq!(c.cancel_vesting(&ctx("owner", 1, 150), &s("carol")), Err(Error::NotVested));
}

#[test]
fn cheddar_cancel_vesting_burns() {
    let mut c = Contract::new(s("owner"));
    c.mint_vested(&ctx("owner", 1, 0), &s("bob"), 1000, 100, 200).unwrap();
    assert_eq!(c.cancel_vesting(&ctx("bob", 1, 50), &s("bob")), Err(Error::NotOwner));
    c.cancel_vesting(&ctx("owner", 1, 50), &s("bob")).unwrap();
    assert_eq!(c.ft_balance_of(&s("bob")), 0);
    assert_eq!(c.ft_total_supply(), 0);
    assert_eq!(c.get_vesting_info(&s("bob")), None);
}

#[test]
fn cheddar_cancel_vesting_burns_only_locked() {
    let mut c = Contract::new(s("owner"));
    c.mint_vested(&ctx("owner", 1, 0), &s("bob"), 1000, 100, 200).unwrap();
    // half way between the cliff and the end, 500 are still locked
    c.cancel_vesting(&ctx("owner", 1, 150), &s("bob")).unwrap();
    assert_eq!(c.ft_balance_of(&s("bob")), 500);
    assert_eq!(c.ft_total_supply(), 500);
    assert_eq!(c.get_vesting_info(&s("bob")), None);
}

#[test]
fn cheddar_transfer_call_resolves() {
    let mut c = Contract::new(s("owner"));
    c.mint(&s("alice"), 100).unwrap();
    let call = c.ft_transfer_call(&ctx("alice", 1, 0), &s("farm"), 60, s("stake")).unwrap();
    assert_eq!(call.amount, 60);
    assert_eq!(call.receiver_id, s("farm"));
    assert_eq!(c.ft_balance_of(&s("farm")), 60);
    // the receiver reports 25 unused (a JSON U128 is a quoted decimal)
    let answer = PromiseResult::Successful(b"\"25\"".to_vec());
    assert_eq!(Contract::unused_amount(60, &answer), 25);
    let (used, burned) = c.ft_resolve_transfer_adjust(&s("alice"), &s("farm"), 60, &answer).unwrap();
    assert_eq!((used, burned), (35, 0));
    assert_eq!(c.ft_balance_of(&s("alice")), 65);
    assert_eq!(c.ft_balance_of(&s("farm")), 35);
    assert_eq!(c.ft_total_supply(), 100);
    // a failed call gives everything back; a malformed answer counts as all unused
    assert_eq!(Contract::unused_amount(60, &PromiseResult::Failed), 60);
    assert_eq!(Contract::unused_amount(60, &PromiseResult::Successful(b"oops".to_vec())), 60);
    assert_eq!(Contract::unused_amount(10, &PromiseResult::Successful(b"\"25\"".to_vec())), 10);
}

#[test]
fn cheddar_owner_and_metadata() {
    let mut c = Contract::new(s("owner"));
    assert_eq!(c.get_owner_id(), s("owner"));
    assert_eq!(c.set_owner(&ctx("bob", 1, 0), s("bob")), Err(Error::NotOwner));
    c.set_owner(&ctx("owner", 1, 0), s("bob")).unwrap();
    assert_eq!(c.get_owner(), s("bob"));
    assert_eq!(c.ft_metadata().decimals, 24);
    assert_eq!(c.ft_metadata().symbol, s("Cheddar"));
    c.set_metadata_icon(&ctx("bob", 1, 0), s("<svg/>")).unwrap();
    assert_eq!(c.ft_metadata().icon, Some(s("<svg/>")));
}

#[test]
fn cheddar_supply_is_sum_of_balances() {
    let mut c = Contract::new(s("owner"));
    let users = ["alice", "bob", "carol"];
    let sum = |c: &Contract| users.iter().map(|u| c.ft_balance_of(&s(u))).sum::<u128>();
    c.mint(&s("alice"), 1000).unwrap();
    c.mint(&s("bob"), 500).unwrap();
    assert_eq!(c.ft_total_supply(), sum(&c));
    c.ft_transfer(&ctx("alice", 1, 0), &s("carol"), 300).unwrap();
    assert_eq!(c.ft_total_supply(), sum(&c));
    c.internal_burn(&s("bob"), 200).unwrap();
    assert_eq!(c.ft_total_supply(), 1300);
    assert_eq!(c.ft_total_supply(), sum(&c));
}

#[test]
fn cheddar_set_owner_checks_account_rules() {
    let mut c = Contract::new(s("owner"));
    for bad in ["a", "-ab", "ab-", "a--b", "a.-b", "Ab", "a b", "a@b"] {
        assert_eq!(c.set_owner(&ctx("owner", 0, 0), s(bad)), Err(Error::InvalidAccount), "{}", bad);
    }
    for good in ["ab", "a-b", "a_b.c-d", "alice.near", "0x1"] {
        let mut c2 = Contract::new(s("owner"));
        assert_eq!(c2.set_owner(&ctx("owner", 0, 0), s(good)), Ok(()), "{}", good);
    }
    assert_eq!(c.set_owner(&ctx("bob", 0, 0), s("carol")), Err(Error::NotOwner));
}
