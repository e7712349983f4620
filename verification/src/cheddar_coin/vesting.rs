//! Vesting schedules of minted Cheddar.
use super::util::fraction_of;
use crate::u256::mul_div_spec;
use vstd::prelude::*;

verus! {

/// Timestamp in nanoseconds.
pub type Timestamp = u64;

/// A vesting schedule: `amount` is locked until `cliff_timestamp`, then
/// unlocks linearly until `end_timestamp`.
#[derive(Clone, Copy, PartialEq, Eq, Debug)]
pub struct VestingRecord {
    /// amount locked in the vesting schedule
    pub amount: u128,
    /// timestamp (nanoseconds) when the linear release starts
    pub cliff_timestamp: Timestamp,
    /// timestamp (nanoseconds) when everything is released
    pub end_timestamp: Timestamp,
}

impl View for VestingRecord {
    type V = VestingRecord;

    open spec fn view(&self) -> VestingRecord {
        *self
    }
}

/// Amount still locked by `v` at time `now`.
pub open spec fn locked_at(v: VestingRecord, now: u64) -> int {
    if now < v.cliff_timestamp {
        v.amount as int
    } else if now >= v.end_timestamp {
        0
    } else {
        mul_div_spec(v.amount as int, v.end_timestamp - now, v.end_timestamp - v.cliff_timestamp)
    }
}

proof fn lemma_fraction_le(a: int, n: int, d: int)
    requires
        a >= 0,
        0 <= n <= d,
        d > 0,
    ensures
        0 <= mul_div_spec(a, n, d) <= a,
{
    assert(a * n <= a * d) by (nonlinear_arith)
        requires a >= 0, n <= d;
    assert(a * n >= 0) by (nonlinear_arith)
        requires a >= 0, n >= 0;
    vstd::arithmetic::div_mod::lemma_div_is_ordered(a * n, a * d, d);
    vstd::arithmetic::div_mod::lemma_div_multiples_vanish(a, d);
    assert(d * a == a * d) by (nonlinear_arith);
    vstd::arithmetic::div_mod::lemma_div_pos_is_pos(a * n, d);
}

impl VestingRecord {
    /// A vesting schedule; the amount must be positive and the cliff no later
    /// than the end.
    pub fn new(amount: u128, cliff_timestamp: Timestamp, end_timestamp: Timestamp) -> (r: Self)
        requires
            amount > 0,
            cliff_timestamp <= end_timestamp,
        ensures
            r == (VestingRecord { amount, cliff_timestamp, end_timestamp }),
    {
        VestingRecord { amount, cliff_timestamp, end_timestamp }
    }

    /// The amount of tokens still locked at `block_timestamp`.
    pub fn compute_amount_locked(&self, block_timestamp: u64) -> (r: u128)
        ensures
            r == locked_at(*self, block_timestamp),
    {
        if block_timestamp < self.cliff_timestamp {
            self.amount
        } else if block_timestamp >= self.end_timestamp {
            0
        } else {
            let time_left = self.end_timestamp - block_timestamp;
            let total_time = self.end_timestamp - self.cliff_timestamp;
            proof {
                lemma_fraction_le(self.amount as int, time_left as int, total_time as int);
            }
            fraction_of(self.amount, time_left as u128, total_time as u128)
        }
    }
}

/// The locked amount never exceeds the vested amount, and it only decreases as
/// time passes: all of it before the cliff, none of it from the end on.
pub proof fn law_locked_amount_decreases(v: VestingRecord, t1: u64, t2: u64)
    requires
        v.cliff_timestamp <= v.end_timestamp,
        t1 <= t2,
    ensures
        0 <= locked_at(v, t1) <= v.amount,
        locked_at(v, t2) <= locked_at(v, t1),
        t1 < v.cliff_timestamp ==> locked_at(v, t1) == v.amount,
        t1 >= v.end_timestamp ==> locked_at(v, t1) == 0,
{
    let total = v.end_timestamp - v.cliff_timestamp;
    if v.cliff_timestamp <= t1 && t1 < v.end_timestamp {
        lemma_fraction_le(v.amount as int, v.end_timestamp - t1, total);
    }
    if v.cliff_timestamp <= t2 && t2 < v.end_timestamp {
        lemma_fraction_le(v.amount as int, v.end_timestamp - t2, total);
        if v.cliff_timestamp <= t1 {
            let a = v.amount as int;
            assert(a * (v.end_timestamp - t2) <= a * (v.end_timestamp - t1)) by (nonlinear_arith)
                requires a >= 0, v.end_timestamp - t2 <= v.end_timestamp - t1;
            vstd::arithmetic::div_mod::lemma_div_is_ordered(
                a * (v.end_timestamp - t2),
                a * (v.end_timestamp - t1),
                total,
            );
        }
    }
}

} // verus!
