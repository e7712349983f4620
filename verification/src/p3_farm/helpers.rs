//! Helpers of the multi-token farm.
use crate::p3_lib::constants::E24;
use crate::p3_lib::helpers::safe_mul_spec;
use crate::u256::checked_mul_div;
use vstd::prelude::*;

verus! {

/// Starting value of the minimum in `min_stake`: the largest `u128`, so that
/// the result is the least units over the stake tokens.
pub const MIN_STAKE_START: u128 = 0xffff_ffff_ffff_ffff_ffff_ffff_ffff_ffff;

/// `units * rate / 1e24`, the tokens (or units) for `units` at `rate`.
pub fn farmed_tokens(units: u128, rate: u128) -> (r: Option<u128>)
    ensures
        match r {
            Some(x) => x == safe_mul_spec(units, rate),
            None => safe_mul_spec(units, rate) > u128::MAX,
        },
{
    checked_mul_div(units, rate, E24)
}

/// Whether the staking units of every staked token fit in 128 bits.
pub open spec fn units_fit(staked: Seq<u128>, rates: Seq<u128>) -> bool {
    forall|i: int| 0 <= i < rates.len() ==> #[trigger] safe_mul_spec(staked[i], rates[i]) <= u128::MAX
}

/// The least staking units over the first `n` staked tokens, starting from
/// `MIN_STAKE_START`.
pub open spec fn min_units(staked: Seq<u128>, rates: Seq<u128>, n: int) -> int
    decreases n,
{
    if n <= 0 {
        MIN_STAKE_START as int
    } else {
        let s = safe_mul_spec(staked[n - 1], rates[n - 1]);
        let m = min_units(staked, rates, n - 1);
        if s < m { s } else { m }
    }
}

/// The staking units of a vault: the least over its staked tokens; `None`
/// when one overflows.
pub fn min_stake(staked: &Vec<u128>, stake_rates: &Vec<u128>) -> (r: Option<u128>)
    requires
        stake_rates@.len() <= staked@.len(),
    ensures
        match r {
            Some(m) => units_fit(staked@, stake_rates@) && m == min_units(staked@, stake_rates@, stake_rates@.len() as int),
            None => !units_fit(staked@, stake_rates@),
        },
{
    let mut min: u128 = MIN_STAKE_START;
    let mut i: usize = 0;
    while i < stake_rates.len()
        invariant
            stake_rates@.len() <= staked@.len(),
            i <= stake_rates@.len(),
            min == min_units(staked@, stake_rates@, i as int),
            forall|j: int| 0 <= j < i ==> #[trigger] safe_mul_spec(staked@[j], stake_rates@[j]) <= u128::MAX,
        decreases stake_rates@.len() - i,
    {
        let s = match farmed_tokens(staked[i], stake_rates[i]) {
            None => return None,
            Some(s) => s,
        };
        if s < min {
            min = s;
        }
        i = i + 1;
    }
    Some(min)
}

/// Index of `acc` in `acc_v`; the account must be listed.
pub fn find_acc_idx(acc: &String, acc_v: &Vec<String>) -> (r: usize)
    requires
        crate::p3_lib::helpers::contains_account(acc_v@, acc@),
    ensures
        r < acc_v@.len(),
        acc_v@[r as int]@ == acc@,
        forall|j: int| 0 <= j < r ==> #[trigger] acc_v@[j]@ != acc@,
{
    crate::p3_lib::helpers::find_acc_idx(acc, acc_v)
}

/// Whether every balance is zero.
pub fn all_zeros(v: &Vec<u128>) -> (r: bool)
    ensures
        r == crate::p3_lib::helpers::all_zero_balances(v@),
{
    crate::p3_lib::helpers::check_all_zeros(v)
}

/// Sum of the first `n` balances.
pub open spec fn sum_upto(v: Seq<u128>, n: int) -> int
    decreases n,
{
    if n <= 0 { 0 } else { sum_upto(v, n - 1) + v[n - 1] }
}

/// Sum of all balances.
pub open spec fn seq_sum(v: Seq<u128>) -> int {
    sum_upto(v, v.len() as int)
}

proof fn lemma_sum_upto_mono(v: Seq<u128>, i: int, n: int)
    requires
        0 <= i <= n,
    ensures
        sum_upto(v, i) <= sum_upto(v, n),
    decreases n,
{
    if i < n {
        lemma_sum_upto_mono(v, i, n - 1);
    }
}

/// Sum of all balances; `None` when it exceeds 128 bits.
pub fn checked_sum(v: &Vec<u128>) -> (r: Option<u128>)
    ensures
        match r {
            Some(s) => s == seq_sum(v@),
            None => seq_sum(v@) > u128::MAX,
        },
{
    let mut s: u128 = 0;
    let mut i: usize = 0;
    while i < v.len()
        invariant
            i <= v@.len(),
            s == sum_upto(v@, i as int),
        decreases v@.len() - i,
    {
        match s.checked_add(v[i]) {
            None => {
                proof {
                    lemma_sum_upto_mono(v@, i as int + 1, v@.len() as int);
                }
                return None;
            },
            Some(t) => s = t,
        }
        i = i + 1;
    }
    Some(s)
}

} // verus!
