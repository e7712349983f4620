//! The reward accumulator of the "Scalable Reward Distribution" algorithm the
//! farms use: a running sum of the emission per staked unit, scaled by
//! `ACC_OVERFLOW`. A vault that holds `units` between two readings `a0 <= a1`
//! of the accumulator has farmed `units * (a1 - a0) / ACC_OVERFLOW`.
use crate::p3_lib::constants::ACC_OVERFLOW;
use vstd::prelude::*;

verus! {

/// The accumulator at `round`, given its value `acc` at `acc_round`, the
/// emission per round and the total staked units; `None` when an intermediate
/// value leaves the `u128` range or `round` lies before `acc_round` (the
/// computation panics there).
pub open spec fn next_reward_acc(acc: u128, acc_round: u64, emission: u128, units: u128, round: u64) -> Option<u128> {
    if acc_round == round || units == 0 {
        Some(acc)
    } else if round < acc_round {
        None
    } else {
        let x = (round - acc_round) * emission;
        if x > u128::MAX {
            None
        } else if x * ACC_OVERFLOW > u128::MAX {
            None
        } else if acc + (x * ACC_OVERFLOW) / (units as int) > u128::MAX {
            None
        } else {
            Some((acc + (x * ACC_OVERFLOW) / (units as int)) as u128)
        }
    }
}

/// Computes `next_reward_acc`.
pub fn compute_next_reward_acc(acc: u128, acc_round: u64, emission: u128, units: u128, round: u64) -> (r: Option<u128>)
    ensures
        r == next_reward_acc(acc, acc_round, emission, units, round),
{
    if acc_round == round || units == 0 {
        return Some(acc);
    }
    if round < acc_round {
        return None;
    }
    let rounds = (round - acc_round) as u128;
    match rounds.checked_mul(emission) {
        None => None,
        Some(x) => match x.checked_mul(ACC_OVERFLOW) {
            None => None,
            Some(y) => acc.checked_add(y / units),
        },
    }
}

/// Units farmed by holding `units` while the accumulator went from `from` to
/// `to`, with `from <= to`; `None` when the product leaves the `u128` range.
pub open spec fn farmed_between(units: u128, from: u128, to: u128) -> Option<u128> {
    if units * (to - from) > u128::MAX {
        None
    } else {
        Some((units * (to - from) / (ACC_OVERFLOW as int)) as u128)
    }
}

/// Computes `farmed_between`.
pub fn compute_farmed_between(units: u128, from: u128, to: u128) -> (r: Option<u128>)
    requires
        from <= to,
    ensures
        r == farmed_between(units, from, to),
{
    match units.checked_mul(to - from) {
        None => None,
        Some(x) => Some(x / ACC_OVERFLOW),
    }
}

/// Adding a round never makes the accumulator go down.
pub proof fn lemma_reward_acc_grows(acc: u128, acc_round: u64, emission: u128, units: u128, round: u64)
    requires
        next_reward_acc(acc, acc_round, emission, units, round) is Some,
    ensures
        next_reward_acc(acc, acc_round, emission, units, round)->0 >= acc,
{
    if !(acc_round == round || units == 0) {
        let x = (round - acc_round) * emission;
        assert(x * ACC_OVERFLOW >= 0) by (nonlinear_arith) requires x >= 0;
        vstd::arithmetic::div_mod::lemma_div_pos_is_pos(x * ACC_OVERFLOW, units as int);
    }
}

/// Over the same interval of the accumulator, a vault with more stake farms at
/// least as much as a vault with less.
pub proof fn law_farming_grows_with_stake(s1: u128, s2: u128, from: u128, to: u128)
    requires
        from <= to,
        s1 <= s2,
        farmed_between(s2, from, to) is Some,
    ensures
        farmed_between(s1, from, to) is Some,
        farmed_between(s1, from, to)->0 <= farmed_between(s2, from, to)->0,
{
    assert(s1 * (to - from) <= s2 * (to - from)) by (nonlinear_arith)
        requires s1 <= s2, from <= to, s1 >= 0;
    vstd::arithmetic::div_mod::lemma_div_is_ordered(s1 * (to - from), s2 * (to - from), ACC_OVERFLOW as int);
}

/// A vault holding at most the total stake farms at most the emission of the
/// rounds that passed: `rounds * rate`. No staker gets more than the farm emits.
pub proof fn law_farmed_at_most_emission(acc: u128, acc_round: u64, rate: u128, total_stake: u128, round: u64, staked: u128)
    requires
        staked <= total_stake,
        acc_round <= round,
        next_reward_acc(acc, acc_round, rate, total_stake, round) is Some,
        farmed_between(staked, acc, next_reward_acc(acc, acc_round, rate, total_stake, round)->0) is Some,
    ensures
        farmed_between(staked, acc, next_reward_acc(acc, acc_round, rate, total_stake, round)->0)->0
            <= (round - acc_round) * rate,
{
    let acc_ovf = ACC_OVERFLOW as int;
    lemma_reward_acc_grows(acc, acc_round, rate, total_stake, round);
    let a1 = next_reward_acc(acc, acc_round, rate, total_stake, round)->0;
    if acc_round == round || total_stake == 0 {
        assert(a1 == acc);
        assert(staked * (a1 - acc) == 0) by (nonlinear_arith) requires a1 == acc;
    } else {
        let x = (round - acc_round) * rate;
        let d = (x * acc_ovf) / (total_stake as int);
        assert(a1 - acc == d);
        assert(x >= 0) by (nonlinear_arith) requires round >= acc_round, rate >= 0, x == (round - acc_round) * rate;
        assert(d * total_stake <= x * acc_ovf) by {
            vstd::arithmetic::div_mod::lemma_fundamental_div_mod(x * acc_ovf, total_stake as int);
            vstd::arithmetic::div_mod::lemma_mod_bound(x * acc_ovf, total_stake as int);
        }
        assert(d >= 0) by {
            assert(x * acc_ovf >= 0) by (nonlinear_arith) requires x >= 0, acc_ovf > 0;
            vstd::arithmetic::div_mod::lemma_div_pos_is_pos(x * acc_ovf, total_stake as int);
        }
        assert(staked * d <= x * acc_ovf) by (nonlinear_arith)
            requires d * total_stake <= x * acc_ovf, staked <= total_stake, d >= 0, staked >= 0;
        vstd::arithmetic::div_mod::lemma_div_is_ordered(staked * d, x * acc_ovf, acc_ovf);
        vstd::arithmetic::div_mod::lemma_div_multiples_vanish(x, acc_ovf);
        assert(x * acc_ovf == acc_ovf * x) by (nonlinear_arith);
    }
}

} // verus!
