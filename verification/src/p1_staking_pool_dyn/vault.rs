//! Per-user vault of the dynamic staking pool.
use super::constants::E24;
use vstd::prelude::*;

verus! {

#[derive(Clone, Copy, PartialEq, Eq, Debug, Default)]
pub struct Vault {
    /// round of the last ping
    pub previous: u64,
    /// amount of NEAR locked in this vault
    pub staked: u128,
    /// accumulated rewards
    pub rewards: u128,
}

impl View for Vault {
    type V = Vault;

    open spec fn view(&self) -> Vault {
        *self
    }
}

impl Vault {
    /// Nothing staked and no rewards.
    pub open spec fn empty(self) -> bool {
        self.rewards == 0 && self.staked == 0
    }

    /// Whether nothing is staked and there are no rewards.
    pub fn is_empty(&self) -> (r: bool)
        ensures
            r == self.empty(),
    {
        self.rewards == 0 && self.staked == 0
    }
}

/// Rewards of `staked` NEAR over `delta` rounds at `rate` per whole NEAR per round.
pub open spec fn round_rewards(delta: int, rate: u128, staked: u128) -> int {
    delta * rate * (staked / E24)
}

/// The vault pinged at round `now` of a farm over rounds `[start, end)` at
/// `rate`, and what the ping answers; `None` when the vault was never
/// registered (previous round 0) or the rewards overflow.
pub open spec fn ping_spec(v: Vault, now: u64, start: u64, end: u64, rate: u128) -> Option<(Vault, u128)> {
    if v.empty() {
        Some((v, 0u128))
    } else if v.previous == 0 {
        None
    } else if now < start {
        Some((v, 0u128))
    } else {
        let n = if now >= end { end } else { now };
        let p1 = if v.previous < start { start } else { v.previous };
        let p = if p1 > n { n } else { p1 };
        let delta = n - p;
        if delta > 0 {
            let farmed = round_rewards(delta, rate, v.staked);
            if farmed > u128::MAX || v.rewards + farmed > u128::MAX {
                None
            } else {
                let nv = Vault { previous: n, rewards: (v.rewards + farmed) as u128, ..v };
                Some((nv, nv.rewards))
            }
        } else {
            let nv = Vault { previous: p, ..v };
            Some((nv, nv.rewards))
        }
    }
}

/// Computes `ping_spec` on `v`; `None` leaves `v` unchanged.
pub fn ping(v: &mut Vault, now: u64, start: u64, end: u64, rate: u128) -> (r: Option<u128>)
    ensures
        match ping_spec(*old(v), now, start, end, rate) {
            None => r is None && *final(v) == *old(v),
            Some((nv, x)) => r == Some(x) && *final(v) == nv,
        },
{
    if v.is_empty() {
        return Some(0);
    }
    if v.previous == 0 {
        return None;
    }
    if now < start {
        return Some(0);
    }
    let n = if now >= end { end } else { now };
    let p1 = if v.previous < start { start } else { v.previous };
    let p = if p1 > n { n } else { p1 };
    let delta = n - p;
    if delta > 0 {
        let whole = v.staked / E24;
        let farmed: u128 = if whole == 0 {
            proof {
                assert(delta * rate * whole == 0) by (nonlinear_arith)
                    requires whole == 0;
            }
            0
        } else {
            match (delta as u128).checked_mul(rate) {
                None => {
                    proof {
                        assert(delta * rate * whole >= delta * rate) by (nonlinear_arith)
                            requires whole >= 1, delta * rate >= 0;
                    }
                    return None;
                },
                Some(x) => match x.checked_mul(whole) {
                    None => return None,
                    Some(f) => f,
                },
            }
        };
        let total = match v.rewards.checked_add(farmed) {
            None => return None,
            Some(t) => t,
        };
        v.previous = n;
        v.rewards = total;
        Some(total)
    } else {
        v.previous = p;
        Some(v.rewards)
    }
}

} // verus!
