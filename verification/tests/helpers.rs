use cheddar::p3_farm_nft::helpers as p3_helpers;
use cheddar::p3_farm::helpers::min_stake as p3_min_stake;
use cheddar::p3_lib::constants::E24;
use cheddar::p4_farm_nft::helpers::{
    all_zeros, expected_cheddar_stake, extract_contract_token_ids, find_token_idx, min_stake,
    try_extract_contract_token_ids, try_min_stake,
};

#[test]
fn helpers_test_expected_cheddar() {
    let cheddar_rate = 555 * E24;
    assert_eq!(expected_cheddar_stake(10, cheddar_rate), 555 * (10 + 1) * E24);
    assert_eq!(expected_cheddar_stake(1, cheddar_rate), 555 * (1 + 1) * E24);
    assert_eq!(expected_cheddar_stake(0, cheddar_rate), 555 * E24);
    assert_eq!(expected_cheddar_stake(5, cheddar_rate), 555 * (5 + 1) * E24);
    assert_eq!(expected_cheddar_stake(30, cheddar_rate), 555 * (30 + 1) * E24);
    assert_eq!(p3_helpers::expected_cheddar_stake(10, cheddar_rate), 555 * (10 + 1) * E24);
    assert_eq!(p3_helpers::expected_cheddar_stake(1, cheddar_rate), 555 * (1 + 1) * E24);
    assert_eq!(p3_helpers::expected_cheddar_stake(0, cheddar_rate), 555 * E24);
    assert_eq!(p3_helpers::expected_cheddar_stake(5, cheddar_rate), 555 * (5 + 1) * E24);
    assert_eq!(p3_helpers::expected_cheddar_stake(30, cheddar_rate), 555 * (30 + 1) * E24);
}

#[test]
fn test_extract_nft_contract_and_token_ids() {
    assert_eq!(
        extract_contract_token_ids(&"nft_contract.near@token_id123".to_string()),
        ("nft_contract.near".to_string(), "token_id123".to_string())
    );
    assert_eq!(
        extract_contract_token_ids(&"nft_contract.testnet@token_id123".to_string()),
        ("nft_contract.testnet".to_string(), "token_id123".to_string())
    );
}

#[test]
fn extract_refuses_two_delimiters_and_bad_accounts() {
    assert!(try_extract_contract_token_ids(&"nft_contract.near@token_id123@1".to_string()).is_none());
    assert!(try_extract_contract_token_ids(&"no_delimiter".to_string()).is_none());
    assert!(try_extract_contract_token_ids(&"Bad Account@1".to_string()).is_none());
    assert_eq!(
        try_extract_contract_token_ids(&"nft_boost@1".to_string()),
        Some(("nft_boost".to_string(), "1".to_string()))
    );
}

#[test]
fn find_token_and_min_stake() {
    let tokens = vec!["a".to_string(), "b".to_string(), "c".to_string()];
    assert_eq!(find_token_idx(&"b".to_string(), &tokens), 1);
    let staked = vec![vec!["1".to_string(), "2".to_string()], vec!["3".to_string()]];
    // units of each collection: count * rate; the least is taken
    assert_eq!(min_stake(&staked, &vec![E24, 3 * E24]), 2 * E24);
    assert_eq!(min_stake(&staked, &vec![E24, E24 / 10]), E24 / 10);
    assert_eq!(try_min_stake(&staked, &vec![u128::MAX, 1]), None);
    assert!(!all_zeros(&staked));
    assert!(all_zeros(&vec![vec![], vec![]]));
    assert_eq!(min_stake(&vec![vec![], vec![]], &vec![]), u128::MAX);
}

#[test]
fn p3_min_stake_is_least_units_over_tokens() {
    // one large stake keeps all of its units
    assert_eq!(p3_min_stake(&vec![u128::MAX], &vec![E24]), Some(u128::MAX));
    assert_eq!(p3_min_stake(&vec![4 * E24, 10 * E24], &vec![E24, E24 / 10]), Some(E24));
    // an overflowing token gives no units
    assert_eq!(p3_min_stake(&vec![u128::MAX], &vec![2 * E24]), None);
}
