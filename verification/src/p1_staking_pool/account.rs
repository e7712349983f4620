//! Per-user vault of the epoch based staking pool.
use super::contract::Error;
use vstd::prelude::*;

verus! {

/// Length of one epoch step, in epochs: `current_epoch` counts whole epochs.
pub const EPOCH_DURATION: u64 = 1;

/// Reward rates are given per 1,000,000 staked units.
pub const REWARD_RATE_BASE: u128 = 1_000_000;

/// Stake and rewards of one user, in epochs.
#[derive(Clone, Copy, PartialEq, Eq, Debug, Default)]
pub struct Valut {
    /// epoch up to which the vault is settled
    pub epoch: u64,
    /// amount locked in the current epoch
    pub locked: u128,
    /// amount locked from the next epoch on
    pub locked_new: u128,
    /// accumulated rewards
    pub rewards: u128,
}

/// One epoch step: rewards for the locked amount, then the new stake is locked.
pub open spec fn valut_step(v: Valut, reward_rate: u128) -> Valut {
    Valut {
        epoch: (v.epoch + EPOCH_DURATION) as u64,
        locked: (v.locked + v.locked_new) as u128,
        locked_new: 0,
        rewards: (v.rewards + v.locked * reward_rate / (REWARD_RATE_BASE as int)) as u128,
    }
}

/// Whether one epoch step stays within machine integers.
pub open spec fn valut_step_fits(v: Valut, reward_rate: u128) -> bool {
    &&& v.epoch + EPOCH_DURATION <= u64::MAX
    &&& v.locked + v.locked_new <= u128::MAX
    &&& v.locked * reward_rate <= u128::MAX
    &&& v.rewards + v.locked * reward_rate / (REWARD_RATE_BASE as int) <= u128::MAX
}

/// The vault after it is brought up to `epoch`.
pub open spec fn valut_ping_spec(v: Valut, epoch: u64, reward_rate: u128) -> Valut
    decreases epoch - v.epoch,
{
    if v.epoch < epoch {
        valut_ping_spec(valut_step(v, reward_rate), epoch, reward_rate)
    } else {
        v
    }
}

/// Whether every step of bringing the vault up to `epoch` stays within machine integers.
pub open spec fn valut_ping_fits(v: Valut, epoch: u64, reward_rate: u128) -> bool
    decreases epoch - v.epoch,
{
    if v.epoch < epoch {
        valut_step_fits(v, reward_rate) && valut_ping_fits(valut_step(v, reward_rate), epoch, reward_rate)
    } else {
        true
    }
}

impl Valut {
    /// Update state and rewards for locked tokens in past epochs.
    /// `reward_rate` is the amount of rewards for 1,000,000 staked units per epoch.
    pub fn ping(&mut self, epoch: u64, reward_rate: u128)
        requires
            valut_ping_fits(*old(self), epoch, reward_rate),
        ensures
            *final(self) == valut_ping_spec(*old(self), epoch, reward_rate),
    {
        while self.epoch < epoch
            invariant
                valut_ping_fits(*self, epoch, reward_rate),
                valut_ping_spec(*self, epoch, reward_rate) == valut_ping_spec(*old(self), epoch, reward_rate),
            decreases epoch - self.epoch,
        {
            self.epoch = self.epoch + EPOCH_DURATION;
            self.rewards = self.rewards + self.locked * reward_rate / REWARD_RATE_BASE;
            self.locked = self.locked + self.locked_new;
            self.locked_new = 0;
        }
    }

    /// Brings the vault up to `epoch` and stakes `amount` from the next epoch on.
    pub fn stake(&mut self, amount: u128, epoch: u64, reward_rate: u128)
        requires
            valut_ping_fits(*old(self), epoch, reward_rate),
            valut_ping_spec(*old(self), epoch, reward_rate).locked_new + amount <= u128::MAX,
        ensures
            *final(self) == (Valut {
                locked_new: (valut_ping_spec(*old(self), epoch, reward_rate).locked_new + amount) as u128,
                ..valut_ping_spec(*old(self), epoch, reward_rate)
            }),
    {
        self.ping(epoch, reward_rate);
        self.locked_new = self.locked_new + amount;
    }

    /// Brings the vault up to `epoch` and unstakes `amount`, taken from the
    /// stake waiting for the next epoch first, then from the locked stake.
    /// Refused, with the vault unchanged, beyond the whole stake.
    pub fn unstake(&mut self, amount: u128, epoch: u64, reward_rate: u128) -> (r: Result<(), Error>)
        requires
            valut_ping_fits(*old(self), epoch, reward_rate),
        ensures
            match valut_unstake_spec(*old(self), amount, epoch, reward_rate) {
                Ok(v) => r is Ok && *final(self) == v,
                Err(e) => r == Err::<(), Error>(e) && *final(self) == *old(self),
            },
    {
        let mut v = *self;
        v.ping(epoch, reward_rate);
        if v.locked_new >= amount {
            v.locked_new = v.locked_new - amount;
        } else {
            let rest = amount - v.locked_new;
            if v.locked < rest {
                return Err(Error::NotEnoughStake);
            }
            v.locked_new = 0;
            v.locked = v.locked - rest;
        }
        *self = v;
        Ok(())
    }
}

/// The vault after unstaking `amount` at `epoch`.
pub open spec fn valut_unstake_spec(v: Valut, amount: u128, epoch: u64, reward_rate: u128) -> Result<Valut, Error> {
    let p = valut_ping_spec(v, epoch, reward_rate);
    if p.locked_new >= amount {
        Ok(Valut { locked_new: (p.locked_new - amount) as u128, ..p })
    } else if p.locked < amount - p.locked_new {
        Err(Error::NotEnoughStake)
    } else {
        Ok(Valut { locked_new: 0, locked: (p.locked - (amount - p.locked_new)) as u128, ..p })
    }
}

/// Bringing a vault up to an epoch it already reached changes nothing, and
/// bringing it up twice is the same as once.
pub proof fn law_valut_ping_idempotent(v: Valut, epoch: u64, reward_rate: u128)
    ensures
        v.epoch >= epoch ==> valut_ping_spec(v, epoch, reward_rate) == v,
        valut_ping_spec(valut_ping_spec(v, epoch, reward_rate), epoch, reward_rate)
            == valut_ping_spec(v, epoch, reward_rate),
    decreases epoch - v.epoch,
{
    if v.epoch < epoch {
        law_valut_ping_idempotent(valut_step(v, reward_rate), epoch, reward_rate);
    }
}

/// Pinging never lowers the rewards, and after a ping nothing waits to be locked
/// when an epoch passed.
pub proof fn law_valut_rewards_grow(v: Valut, epoch: u64, reward_rate: u128)
    requires
        valut_ping_fits(v, epoch, reward_rate),
    ensures
        valut_ping_spec(v, epoch, reward_rate).rewards >= v.rewards,
        valut_ping_spec(v, epoch, reward_rate).locked + valut_ping_spec(v, epoch, reward_rate).locked_new
            == v.locked + v.locked_new,
        v.epoch < epoch ==> valut_ping_spec(v, epoch, reward_rate).locked_new == 0,
    decreases epoch - v.epoch,
{
    if v.epoch < epoch {
        law_valut_rewards_grow(valut_step(v, reward_rate), epoch, reward_rate);
        vstd::arithmetic::div_mod::lemma_div_pos_is_pos(v.locked * reward_rate, REWARD_RATE_BASE as int);
        assert(v.locked * reward_rate >= 0) by (nonlinear_arith);
    }
}

/// Unstaking is refused exactly when it asks for more than the whole stake
/// (waiting and locked); otherwise the whole stake goes down by the amount
/// and the rewards are those of the update.
pub proof fn law_valut_unstake_takes_amount(v: Valut, amount: u128, epoch: u64, reward_rate: u128)
    ensures
        ({
            let p = valut_ping_spec(v, epoch, reward_rate);
            &&& valut_unstake_spec(v, amount, epoch, reward_rate) is Err <==> amount > p.locked + p.locked_new
            &&& valut_unstake_spec(v, amount, epoch, reward_rate) matches Ok(n) ==> {
                &&& n.locked + n.locked_new + amount == p.locked + p.locked_new
                &&& n.rewards == p.rewards
                &&& n.epoch == p.epoch
            }
        }),
{
}

} // verus!
