//! Helpers of the NFT farm.
use crate::near::PromiseResult;
use crate::p3_lib::constants::E24;
use crate::p3_lib::helpers::{contains_account, round_number_spec, safe_mul_spec};
use crate::p4_farm_nft::helpers::{expected_cheddar_stake_spec, min_stake_fits, min_stake_spec, staked_view, all_empty};
use crate::u256::{mul_div, U256};
use vstd::prelude::*;

verus! {

/// `units * rate / 1e24`, the tokens farmed for `units` at `rate`.
pub fn farmed_tokens(units: u128, rate: u128) -> (r: u128)
    requires
        safe_mul_spec(units, rate) <= u128::MAX,
    ensures
        r == safe_mul_spec(units, rate),
{
    mul_div(units, rate, E24)
}

/// Cheddar a user must have locked to stake one more NFT when `units` NFTs
/// are staked: `(units + 1) * cheddar_rate`, which must fit in 128 bits.
pub fn expected_cheddar_stake(units: usize, cheddar_rate: u128) -> (r: u128)
    requires
        expected_cheddar_stake_spec(units as int, cheddar_rate) <= u128::MAX,
    ensures
        r == expected_cheddar_stake_spec(units as int, cheddar_rate),
{
    crate::p4_farm_nft::helpers::expected_cheddar_stake(units, cheddar_rate)
}

/// Index of the NFT contract `acc` in `acc_v`; it must be listed.
pub fn find_acc_idx(acc: &String, acc_v: &Vec<String>) -> (r: Option<usize>)
    requires
        contains_account(acc_v@, acc@),
    ensures
        r matches Some(i) && i < acc_v@.len() && acc_v@[i as int]@ == acc@
            && forall|j: int| 0 <= j < i ==> #[trigger] acc_v@[j]@ != acc@,
{
    Some(crate::p3_lib::helpers::find_acc_idx(acc, acc_v))
}

/// Index of `token` in `token_v`; it must occur.
pub fn find_token_idx(token: &String, token_v: &Vec<String>) -> (r: Option<usize>)
    requires
        exists|j: int| 0 <= j < token_v@.len() && #[trigger] token_v@[j]@ == token@,
    ensures
        r matches Some(i) && i < token_v@.len() && token_v@[i as int]@ == token@
            && forall|j: int| 0 <= j < i ==> #[trigger] token_v@[j]@ != token@,
{
    Some(crate::p4_farm_nft::helpers::find_token_idx(token, token_v))
}

/// The staking units of the least staked NFT collection.
pub fn min_stake(staked: &Vec<Vec<String>>, stake_rates: &Vec<u128>) -> (r: u128)
    requires
        stake_rates@.len() <= staked@.len(),
        min_stake_fits(staked_view(staked@), stake_rates@),
    ensures
        r == min_stake_spec(staked_view(staked@), stake_rates@, stake_rates@.len() as int),
{
    crate::p4_farm_nft::helpers::min_stake(staked, stake_rates)
}

/// Whether no NFT of any collection is staked.
pub fn all_zeros(v: &Vec<Vec<String>>) -> (r: bool)
    ensures
        r == all_empty(staked_view(v@)),
{
    crate::p4_farm_nft::helpers::all_zeros(v)
}

/// Whether the promise of a callback failed; `None` when the callback did not
/// receive exactly one result.
pub fn promise_result_as_failed(promise_results_count: u64, result: &PromiseResult) -> (r: Option<bool>)
    ensures
        r == (if promise_results_count == 1 { Some(result is Failed) } else { None::<bool> }),
{
    crate::p4_farm_nft::helpers::promise_result_as_failed(promise_results_count, result)
}

/// Computes the round number of a timestamp in seconds.
pub fn round_number(start: u64, end: u64, now: u64) -> (r: u64)
    requires
        now < start || start <= end,
    ensures
        r == round_number_spec(start, end, now),
{
    crate::p3_lib::helpers::round_number(start, end, now)
}

/// The native NEAR token account.
pub fn near() -> (r: String)
    ensures
        r@ == crate::p3_lib::constants::NEAR_TOKEN@,
{
    crate::p3_lib::helpers::near()
}

/// 1e24 as a 256-bit value.
pub fn big_e24() -> (r: U256)
    ensures
        r.value() == E24,
{
    U256::from_u128(E24)
}

} // verus!
