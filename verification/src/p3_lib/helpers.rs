//! Helpers shared by the multi-token farms.
use super::constants::{E24, NEAR_TOKEN, ROUND};
use crate::near::{lemma_plain_account_valid, parse_account_id, plain_account_bytes};
use crate::u256::{mul_div, mul_div_spec};
use vstd::prelude::*;
use vstd::string::StringSliceAdditionalSpecFns;

verus! {

/// The round a timestamp (in seconds) falls in: 0 before `start`, counting up
/// by one every `ROUND` seconds, and stopping at `end`, where a partial last
/// round counts as a full one.
pub open spec fn round_number_spec(start: u64, end: u64, now: u64) -> int {
    if now < start {
        0
    } else if now >= end {
        (end - start) / (ROUND as int) + if end % ROUND != 0 { 1int } else { 0int }
    } else {
        (now - start) / (ROUND as int)
    }
}

/// `units * rate / 1e24`.
pub open spec fn safe_mul_spec(units: u128, rate: u128) -> int {
    mul_div_spec(units as int, rate as int, E24 as int)
}

/// Whether every entry is zero.
pub open spec fn all_zero_balances(v: Seq<u128>) -> bool {
    forall|i: int| 0 <= i < v.len() ==> v[i] == 0
}

/// The account name of the native NEAR token.
pub fn near() -> (r: String)
    ensures
        r@ == NEAR_TOKEN@,
{
    proof {
        reveal_strlit("near");
        vstd::string::is_ascii_spec_bytes(NEAR_TOKEN);
        assert(NEAR_TOKEN.spec_bytes() =~= seq![110u8, 101u8, 97u8, 114u8]);
        assert(plain_account_bytes(NEAR_TOKEN.spec_bytes()));
        lemma_plain_account_valid(NEAR_TOKEN.spec_bytes());
    }
    let id = parse_account_id(NEAR_TOKEN);
    match id {
        Some(id) => id,
        None => String::new(),
    }
}

/// `units * rate / 1e24` with a 256-bit intermediate product.
pub fn safe_mul(units: u128, rate: u128) -> (r: u128)
    requires
        safe_mul_spec(units, rate) <= u128::MAX,
    ensures
        r == safe_mul_spec(units, rate),
{
    mul_div(units, rate, E24)
}

/// Position of `acc` in `acc_v`, if any.
pub fn position(acc: &String, acc_v: &Vec<String>) -> (r: Option<usize>)
    ensures
        match r {
            Some(i) => i < acc_v@.len() && acc_v@[i as int]@ == acc@ && forall|j: int|
                0 <= j < i ==> #[trigger] acc_v@[j]@ != acc@,
            None => forall|j: int| 0 <= j < acc_v@.len() ==> #[trigger] acc_v@[j]@ != acc@,
        },
{
    let mut i: usize = 0;
    while i < acc_v.len()
        invariant
            i <= acc_v@.len(),
            forall|j: int| 0 <= j < i ==> #[trigger] acc_v@[j]@ != acc@,
        decreases acc_v@.len() - i,
    {
        if acc_v[i] == *acc {
            return Some(i);
        }
        i = i + 1;
    }
    None
}

/// Whether `acc` occurs in `acc_v`.
pub open spec fn contains_account(acc_v: Seq<String>, acc: Seq<char>) -> bool {
    exists|j: int| 0 <= j < acc_v.len() && #[trigger] acc_v[j]@ == acc
}

/// Index of the first occurrence of `acc` in `acc_v`. The account must occur.
pub fn find_acc_idx(acc: &String, acc_v: &Vec<String>) -> (r: usize)
    requires
        contains_account(acc_v@, acc@),
    ensures
        r < acc_v@.len(),
        acc_v@[r as int]@ == acc@,
        forall|j: int| 0 <= j < r ==> #[trigger] acc_v@[j]@ != acc@,
{
    match position(acc, acc_v) {
        Some(i) => i,
        None => {
            proof {
                let j = choose|j: int| 0 <= j < acc_v@.len() && #[trigger] acc_v@[j]@ == acc@;
            }
            0
        },
    }
}

/// Whether every balance is zero.
pub fn check_all_zeros(v: &Vec<u128>) -> (r: bool)
    ensures
        r == all_zero_balances(v@),
{
    let mut i: usize = 0;
    while i < v.len()
        invariant
            i <= v@.len(),
            forall|j: int| 0 <= j < i ==> v@[j] == 0,
        decreases v@.len() - i,
    {
        if v[i] != 0 {
            return false;
        }
        i = i + 1;
    }
    true
}

/// Computes the round number of the timestamp `now` (in seconds).
/// Past `end` the round count stops at the last round.
pub fn round_number(start: u64, end: u64, now: u64) -> (r: u64)
    requires
        now < start || start <= end,
    ensures
        r == round_number_spec(start, end, now),
{
    if now < start {
        return 0;
    }
    let mut now = now;
    let mut adjust: u64 = 0;
    if now >= end {
        now = end;
        if now % ROUND != 0 {
            adjust = 1;
        }
    }
    proof {
        assert((now - start) / (ROUND as int) <= now - start) by {
            vstd::arithmetic::div_mod::lemma_div_is_ordered_by_denominator((now - start) as int, 1, ROUND as int);
        }
    }
    let r: u64 = (now - start) / ROUND;
    if adjust == 1 {
        proof {
            assert(r < u64::MAX) by {
                vstd::arithmetic::div_mod::lemma_div_is_ordered((now - start) as int, u64::MAX as int, ROUND as int);
                assert(u64::MAX as int / 60 < u64::MAX);
            }
        }
    }
    r + adjust
}


/// The round number never goes down as time passes, and it never exceeds
/// the number of rounds of the whole farm.
pub proof fn law_round_number_monotone(start: u64, end: u64, t1: u64, t2: u64)
    requires
        start <= end,
        t1 <= t2,
    ensures
        0 <= round_number_spec(start, end, t1),
        round_number_spec(start, end, t1) <= round_number_spec(start, end, t2),
        round_number_spec(start, end, t2) <= round_number_spec(start, end, end),
{
    let r = ROUND as int;
    if start <= t1 && t1 < end {
        vstd::arithmetic::div_mod::lemma_div_pos_is_pos(t1 - start, r);
        if t2 < end {
            vstd::arithmetic::div_mod::lemma_div_is_ordered(t1 - start, t2 - start, r);
        } else {
            vstd::arithmetic::div_mod::lemma_div_is_ordered(t1 - start, end - start, r);
        }
    }
    if start <= t2 && t2 < end {
        vstd::arithmetic::div_mod::lemma_div_is_ordered(t2 - start, end - start, r);
    }
    vstd::arithmetic::div_mod::lemma_div_pos_is_pos(end - start, r);
}

} // verus!
