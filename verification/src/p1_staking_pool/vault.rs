//! Per-user vault of the epoch based staking pool and its reward update.
use super::contract::{Contract, Error, PoolView};
use crate::u256::{checked_mul_div, mul_div_spec};
use vstd::prelude::*;

verus! {

/// Minimum stake: 0.01 NEAR.
pub const MIN_STAKE: u128 = 10_000_000_000_000_000_000_000;

/// Stake and rewards of one user.
#[derive(Clone, Copy, PartialEq, Eq, Debug, Default)]
pub struct Vault {
    /// epoch of the last reward update; 0 for a vault never registered
    pub previous: u64,
    /// amount of NEAR locked in this vault
    pub staked: u128,
    /// accumulated rewards
    pub rewards: u128,
}

impl View for Vault {
    type V = Vault;

    open spec fn view(&self) -> Vault {
        *self
    }
}

/// The share of `delta` epochs of emission at `rate` that `staked` out of
/// `total` earns.
pub open spec fn epoch_rewards(delta: int, rate: u128, staked: u128, total: u128) -> int {
    mul_div_spec(delta * rate, staked as int, total as int)
}

/// The vault with its rewards brought to epoch `now` at emission `rate`
/// shared by `total` staked. Refused for a vault never registered, for a
/// time before the last update, for an empty pool, and when the amounts
/// leave the `u128` range (`delta * rate` included).
pub open spec fn vault_ping_spec(v: Vault, rate: u128, total: u128, now: u64) -> Result<Vault, Error> {
    if v.previous == 0 {
        Err(Error::WrongState)
    } else if now < v.previous {
        Err(Error::ArithmeticOverflow)
    } else if now == v.previous {
        Ok(v)
    } else if total == 0 || (now - v.previous) * rate > u128::MAX {
        Err(Error::ArithmeticOverflow)
    } else if v.rewards + epoch_rewards(now - v.previous, rate, v.staked, total) > u128::MAX {
        Err(Error::ArithmeticOverflow)
    } else {
        Ok(Vault { rewards: (v.rewards + epoch_rewards(now - v.previous, rate, v.staked, total)) as u128, previous: now, ..v })
    }
}

impl Vault {
    /// Updates the rewards for the epochs passed since the last update and
    /// returns the total rewards.
    pub fn ping(&mut self, emission_rate: u128, total_stake: u128, now: u64) -> (r: Result<u128, Error>)
        ensures
            match vault_ping_spec(*old(self), emission_rate, total_stake, now) {
                Ok(v) => r == Ok::<u128, Error>(v.rewards) && *final(self) == v,
                Err(e) => r == Err::<u128, Error>(e) && *final(self) == *old(self),
            },
    {
        if self.previous == 0 {
            return Err(Error::WrongState);
        }
        if now < self.previous {
            return Err(Error::ArithmeticOverflow);
        }
        let delta = now - self.previous;
        if delta > 0 {
            if total_stake == 0 {
                return Err(Error::ArithmeticOverflow);
            }
            let dr = match (delta as u128).checked_mul(emission_rate) {
                None => return Err(Error::ArithmeticOverflow),
                Some(x) => x,
            };
            let add = match checked_mul_div(dr, self.staked, total_stake) {
                None => return Err(Error::ArithmeticOverflow),
                Some(x) => x,
            };
            if add > u128::MAX - self.rewards {
                return Err(Error::ArithmeticOverflow);
            }
            self.rewards = self.rewards + add;
            self.previous = now;
        }
        Ok(self.rewards)
    }
}

impl PoolView {
    /// The farm's reward update of vault `v` at epoch `now`: nothing before
    /// `farming_end`, refused after it, the vault's own update at it.
    pub open spec fn ping_spec(self, v: Vault, now: u64) -> Result<Vault, Error> {
        if v.previous == 0 {
            Err(Error::WrongState)
        } else if now < self.farming_end {
            Ok(v)
        } else if now > self.farming_end {
            Err(Error::FarmingClosed)
        } else {
            vault_ping_spec(v, self.emission_rate, self.total_stake, now)
        }
    }

    /// Adding `amount` to vault `v` at epoch `now`, after its reward update.
    pub open spec fn stake_vault_spec(self, v: Vault, amount: u128, now: u64) -> Result<Vault, Error> {
        match self.ping_spec(v, now) {
            Err(e) => Err(e),
            Ok(pv) => if pv.staked + amount > u128::MAX {
                Err(Error::ArithmeticOverflow)
            } else {
                Ok(Vault { staked: (pv.staked + amount) as u128, ..pv })
            },
        }
    }

    /// Taking `amount` out of vault `v` at epoch `now`: refused beyond the
    /// stake, and when less than `MIN_STAKE` would stay.
    pub open spec fn unstake_vault_spec(self, v: Vault, amount: u128, now: u64) -> Result<Vault, Error> {
        if v.staked < amount {
            Err(Error::NotEnoughStake)
        } else {
            match self.ping_spec(v, now) {
                Err(e) => Err(e),
                Ok(pv) => if pv.staked - amount < MIN_STAKE {
                    Err(Error::MinBalance)
                } else {
                    Ok(Vault { staked: (pv.staked - amount) as u128, ..pv })
                },
            }
        }
    }
}

impl Contract {
    /// The vault of `a`.
    pub fn get_vault(&self, a: &String) -> (r: Result<Vault, Error>)
        requires
            self.wf(),
        ensures
            self@.vaults.contains_key(a@) ==> r == Ok::<Vault, Error>(self@.vaults[a@]),
            !self@.vaults.contains_key(a@) ==> r == Err::<Vault, Error>(Error::NoAccount),
    {
        match self.vaults.get(a) {
            Some(v) => Ok(*v),
            None => Err(Error::NoAccount),
        }
    }

    /// Brings the rewards of `v` to epoch `now`; rewards are only counted at
    /// `farming_end` itself.
    pub fn ping(&self, v: &mut Vault, now: u64) -> (r: Result<(), Error>)
        ensures
            match self@.ping_spec(*old(v), now) {
                Ok(nv) => r is Ok && *final(v) == nv,
                Err(e) => r == Err::<(), Error>(e) && *final(v) == *old(v),
            },
    {
        if v.previous == 0 {
            return Err(Error::WrongState);
        }
        // if farming doesn't started, ignore the rewards update
        if now < self.farming_end {
            return Ok(());
        }
        if now > self.farming_end {
            return Err(Error::FarmingClosed);
        }
        match v.ping(self.emission_rate, self.total_stake, now) {
            Err(e) => Err(e),
            Ok(_) => Ok(()),
        }
    }

    /// Updates the rewards of `v`, then adds `amount` to its stake.
    pub fn _stake(&self, amount: u128, v: &mut Vault, now: u64) -> (r: Result<(), Error>)
        ensures
            match self@.stake_vault_spec(*old(v), amount, now) {
                Ok(nv) => r is Ok && *final(v) == nv,
                Err(e) => r == Err::<(), Error>(e) && *final(v) == *old(v),
            },
    {
        let mut pv = *v;
        match self.ping(&mut pv, now) {
            Err(e) => return Err(e),
            Ok(_) => {},
        }
        if amount > u128::MAX - pv.staked {
            return Err(Error::ArithmeticOverflow);
        }
        pv.staked = pv.staked + amount;
        *v = pv;
        Ok(())
    }

    /// Updates the rewards of `v`, then takes `amount` out of its stake,
    /// which must keep at least `MIN_STAKE`.
    pub fn _unstake(&self, amount: u128, v: &mut Vault, now: u64) -> (r: Result<(), Error>)
        ensures
            match self@.unstake_vault_spec(*old(v), amount, now) {
                Ok(nv) => r is Ok && *final(v) == nv,
                Err(e) => r == Err::<(), Error>(e) && *final(v) == *old(v),
            },
    {
        if v.staked < amount {
            return Err(Error::NotEnoughStake);
        }
        let mut pv = *v;
        match self.ping(&mut pv, now) {
            Err(e) => return Err(e),
            Ok(_) => {},
        }
        let left = pv.staked - amount;
        if left < MIN_STAKE {
            return Err(Error::MinBalance);
        }
        pv.staked = left;
        *v = pv;
        Ok(())
    }
}

} // verus!
