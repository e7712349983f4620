//! NFT farm helpers: staking units, Cheddar requirements and boost ids.
use crate::near::{parse_account_id, spec_valid_account_id, PromiseResult};
use crate::p3_lib::constants::E24;
use crate::p3_lib::helpers::position;
use crate::u256::{mul_div, mul_div_spec};
use vstd::prelude::*;
use vstd::string::{StrSliceExecFns, StringExecFns, StringSliceAdditionalSpecFns};

verus! {

/// Separator of the `contract_id@token_id` pair of a boost NFT.
pub const NFT_DELIMETER: char = '@';

/// Cheddar a user must have staked to stake one more NFT when `num_nfts` are
/// already staked: `(num_nfts + 1) * cheddar_rate`.
pub open spec fn expected_cheddar_stake_spec(num_nfts: int, cheddar_rate: u128) -> int {
    (num_nfts + 1) * cheddar_rate
}

/// Computes `expected_cheddar_stake_spec`, `None` on overflow.
pub fn try_expected_cheddar_stake(num_nfts: usize, cheddar_rate: u128) -> (r: Option<u128>)
    ensures
        match r {
            Some(x) => x == expected_cheddar_stake_spec(num_nfts as int, cheddar_rate),
            None => expected_cheddar_stake_spec(num_nfts as int, cheddar_rate) > u128::MAX,
        },
{
    let n: u128 = num_nfts as u128;
    match n.checked_add(1) {
        None => None,
        Some(m) => m.checked_mul(cheddar_rate),
    }
}

/// Computing required amount of staked Cheddar based on the number of staked
/// NFTs and the Cheddar rate. The product must fit in 128 bits.
pub fn expected_cheddar_stake(num_nfts: usize, cheddar_rate: u128) -> (r: u128)
    requires
        expected_cheddar_stake_spec(num_nfts as int, cheddar_rate) <= u128::MAX,
    ensures
        r == expected_cheddar_stake_spec(num_nfts as int, cheddar_rate),
{
    match try_expected_cheddar_stake(num_nfts, cheddar_rate) {
        Some(x) => x,
        None => 0,
    }
}

/// Index of `token` in `token_v`. The token must occur.
pub fn find_token_idx(token: &String, token_v: &Vec<String>) -> (r: usize)
    requires
        exists|j: int| 0 <= j < token_v@.len() && #[trigger] token_v@[j]@ == token@,
    ensures
        r < token_v@.len(),
        token_v@[r as int]@ == token@,
        forall|j: int| 0 <= j < r ==> #[trigger] token_v@[j]@ != token@,
{
    match position(token, token_v) {
        Some(i) => i,
        None => 0,
    }
}

/// `i` is the position of the only `@` in `s`.
pub open spec fn single_delimiter_at(s: Seq<char>, i: int) -> bool {
    &&& 0 <= i < s.len()
    &&& s[i] == NFT_DELIMETER
    &&& forall|j: int| 0 <= j < s.len() && j != i ==> s[j] != NFT_DELIMETER
}

/// The `(contract_id, token_id)` pair of `contract_id@token_id`, when `s` has
/// exactly one `@` and the part before it is a valid account id.
pub open spec fn split_contract_token(s: Seq<char>) -> Option<(Seq<char>, Seq<char>)> {
    if exists|i: int| single_delimiter_at(s, i) {
        let i = choose|i: int| single_delimiter_at(s, i);
        let contract = s.subrange(0, i);
        if spec_valid_account_id(crate::p4_farm_nft::helpers::utf8_of(contract)) {
            Some((contract, s.subrange(i + 1, s.len() as int)))
        } else {
            None
        }
    } else {
        None
    }
}

/// UTF-8 bytes of a character sequence.
pub open spec fn utf8_of(s: Seq<char>) -> Seq<u8> {
    vstd::utf8::encode_utf8(s)
}

proof fn lemma_single_delimiter_unique(s: Seq<char>, i: int, k: int)
    requires
        single_delimiter_at(s, i),
        single_delimiter_at(s, k),
    ensures
        i == k,
{
}

/// Splits `contract_id@token_id`; `None` when the form is wrong or the
/// contract id is not a valid account id.
pub fn try_extract_contract_token_ids(contract_and_token_id: &String) -> (r: Option<(String, String)>)
    ensures
        match (r, split_contract_token(contract_and_token_id@)) {
            (Some((c, t)), Some((sc, st))) => c@ == sc && t@ == st,
            (None, None) => true,
            _ => false,
        },
{
    let s = contract_and_token_id.as_str();
    let n = s.unicode_len();
    let mut i: usize = 0;
    let mut found: Option<usize> = None;
    while i < n
        invariant
            n == s@.len(),
            s@ == contract_and_token_id@,
            i <= n,
            match found {
                None => forall|j: int| 0 <= j < i ==> s@[j] != NFT_DELIMETER,
                Some(k) => k < i && s@[k as int] == NFT_DELIMETER && forall|j: int|
                    0 <= j < i && j != k ==> s@[j] != NFT_DELIMETER,
            },
        decreases n - i,
    {
        if s.get_char(i) == NFT_DELIMETER {
            match found {
                None => {
                    found = Some(i);
                },
                Some(k) => {
                    proof {
                        assert forall|x: int| !single_delimiter_at(s@, x) by {
                            if single_delimiter_at(s@, x) {
                                if x != k as int {
                                    assert(s@[k as int] != NFT_DELIMETER);
                                } else {
                                    assert(s@[i as int] != NFT_DELIMETER);
                                }
                            }
                        }
                    }
                    return None;
                },
            }
        }
        i = i + 1;
    }
    match found {
        None => {
            proof {
                assert forall|x: int| !single_delimiter_at(s@, x) by {}
            }
            None
        },
        Some(k) => {
            proof {
                assert(single_delimiter_at(s@, k as int));
                let c = choose|x: int| single_delimiter_at(s@, x);
                lemma_single_delimiter_unique(s@, k as int, c);
            }
            let contract = s.substring_char(0, k);
            let token = s.substring_char(k + 1, n);
            match parse_account_id(contract) {
                None => None,
                Some(c) => Some((c, String::from_str(token))),
            }
        },
    }
}

/// Splits `contract_id@token_id` into the NFT contract id and the token id.
/// The string must have exactly one `@`, after a valid account id.
pub fn extract_contract_token_ids(contract_and_token_id: &String) -> (r: (String, String))
    requires
        split_contract_token(contract_and_token_id@) is Some,
    ensures
        split_contract_token(contract_and_token_id@) == Some((r.0@, r.1@)),
{
    match try_extract_contract_token_ids(contract_and_token_id) {
        Some(p) => p,
        None => (String::new(), String::new()),
    }
}

/// Staking units of `count` NFTs at `rate`: `count * 1e24 * rate / 1e24`.
pub open spec fn nft_units(count: int, rate: u128) -> int {
    mul_div_spec(count * E24, rate as int, E24 as int)
}

/// The smallest staking units over the first `n` NFT contracts, `u128::MAX` for none.
pub open spec fn min_stake_spec(staked: Seq<Seq<Seq<char>>>, rates: Seq<u128>, n: int) -> int
    decreases n,
{
    if n <= 0 {
        u128::MAX as int
    } else {
        let s = nft_units(staked[n - 1].len() as int, rates[n - 1]);
        let m = min_stake_spec(staked, rates, n - 1);
        if s < m { s } else { m }
    }
}

/// Whether `count * 1e24` and the units of `count` NFTs at `rate` fit in 128 bits.
pub open spec fn units_fit(count: int, rate: u128) -> bool {
    count * E24 <= u128::MAX && nft_units(count, rate) <= u128::MAX
}

/// Whether the units of every contract fit in 128 bits.
pub open spec fn min_stake_fits(staked: Seq<Seq<Seq<char>>>, rates: Seq<u128>) -> bool {
    forall|i: int| 0 <= i < rates.len() ==> #[trigger] units_fit(staked[i].len() as int, rates[i])
}

/// The view of staked NFT ids.
pub open spec fn staked_view(staked: Seq<Vec<String>>) -> Seq<Seq<Seq<char>>> {
    staked.map_values(|t: Vec<String>| t@.map_values(|s: String| s@))
}

proof fn lemma_nft_units(count: int, rate: u128)
    requires
        count >= 0,
    ensures
        nft_units(count, rate) == count * rate,
{
    let e: int = E24 as int;
    vstd::arithmetic::div_mod::lemma_div_multiples_vanish(count * rate, e);
    assert(count * e * rate == e * (count * rate)) by (nonlinear_arith);
}

/// Computes `min_stake_spec` over all contracts, `None` when a product overflows.
pub fn try_min_stake(staked: &Vec<Vec<String>>, stake_rates: &Vec<u128>) -> (r: Option<u128>)
    requires
        stake_rates@.len() <= staked@.len(),
    ensures
        match r {
            Some(m) => min_stake_fits(staked_view(staked@), stake_rates@)
                && m == min_stake_spec(staked_view(staked@), stake_rates@, stake_rates@.len() as int),
            None => !min_stake_fits(staked_view(staked@), stake_rates@),
        },
{
    let ghost sv = staked_view(staked@);
    let mut min: u128 = u128::MAX;
    let mut i: usize = 0;
    while i < stake_rates.len()
        invariant
            stake_rates@.len() <= staked@.len(),
            sv == staked_view(staked@),
            i <= stake_rates@.len(),
            min == min_stake_spec(sv, stake_rates@, i as int),
            forall|j: int| 0 <= j < i ==> #[trigger] units_fit(sv[j].len() as int, stake_rates@[j]),
        decreases stake_rates@.len() - i,
    {
        let rate = stake_rates[i];
        let count = staked[i].len() as u128;
        proof {
            assert(sv[i as int] == staked@[i as int]@.map_values(|s: String| s@));
            assert(sv[i as int].len() == count);
            lemma_nft_units(count as int, rate);
        }
        let units = match count.checked_mul(E24) {
            None => {
                proof {
                    assert(!units_fit(sv[i as int].len() as int, stake_rates@[i as int]));
                }
                return None;
            },
            Some(u) => u,
        };
        let s = match count.checked_mul(rate) {
            None => {
                proof {
                    assert(!units_fit(sv[i as int].len() as int, stake_rates@[i as int]));
                }
                return None;
            },
            Some(_) => mul_div(units, rate, E24),
        };
        proof {
            assert(units_fit(sv[i as int].len() as int, stake_rates@[i as int]));
            assert(s == nft_units(sv[i as int].len() as int, stake_rates@[i as int]));
        }
        if s < min {
            min = s;
        }
        i = i + 1;
    }
    Some(min)
}

/// The smallest staking units over the NFT contracts (the units of the least
/// staked collection).
pub fn min_stake(staked: &Vec<Vec<String>>, stake_rates: &Vec<u128>) -> (r: u128)
    requires
        stake_rates@.len() <= staked@.len(),
        min_stake_fits(staked_view(staked@), stake_rates@),
    ensures
        r == min_stake_spec(staked_view(staked@), stake_rates@, stake_rates@.len() as int),
{
    match try_min_stake(staked, stake_rates) {
        Some(m) => m,
        None => 0,
    }
}

/// No NFT of any contract is staked.
pub open spec fn all_empty(staked: Seq<Seq<Seq<char>>>) -> bool {
    forall|i: int| 0 <= i < staked.len() ==> #[trigger] staked[i].len() == 0
}

/// Whether no NFT of any contract is staked.
pub fn all_zeros(v: &Vec<Vec<String>>) -> (r: bool)
    ensures
        r == all_empty(staked_view(v@)),
{
    let mut i: usize = 0;
    while i < v.len()
        invariant
            i <= v@.len(),
            forall|j: int| 0 <= j < i ==> #[trigger] v@[j]@.len() == 0,
        decreases v@.len() - i,
    {
        if v[i].len() != 0 {
            proof {
                assert(staked_view(v@)[i as int] == v@[i as int]@.map_values(|s: String| s@));
            }
            return false;
        }
        i = i + 1;
    }
    proof {
        assert forall|j: int| 0 <= j < v@.len() implies #[trigger] staked_view(v@)[j].len() == 0 by {
            assert(staked_view(v@)[j] == v@[j]@.map_values(|s: String| s@));
        }
    }
    true
}

/// Whether the promise of a callback failed; `None` when the callback did not
/// receive exactly one result.
pub fn promise_result_as_failed(promise_results_count: u64, result: &PromiseResult) -> (r: Option<bool>)
    ensures
        r == (if promise_results_count == 1 { Some(result is Failed) } else { None::<bool> }),
{
    if promise_results_count != 1 {
        return None;
    }
    match result {
        PromiseResult::Failed => Some(true),
        _ => Some(false),
    }
}

} // verus!
