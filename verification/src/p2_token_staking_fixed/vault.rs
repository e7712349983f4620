//! Vault is information per user about their balances in the farm.
use super::{Action, Contract, ContractView, Error, STORAGE_COST};
use crate::farming::{compute_farmed_between, farmed_between};
use crate::storage::{StorageBalance, StorageBalanceBounds};
use crate::near::CallContext;
use vstd::prelude::*;

verus! {

#[derive(Clone, Copy, PartialEq, Eq)]
pub struct Vault {
    /// Contract.reward_acc value when the last ping was called and rewards calculated
    pub reward_acc: u128,
    /// amount of staking token locked in this vault
    pub staked: u128,
    /// Amount of accumulated, not withdrawn rewards from staking;
    pub farmed: u128,
}

impl View for Vault {
    type V = Vault;

    open spec fn view(&self) -> Vault {
        *self
    }
}

/// The vault after a ping at `round` with accumulator `acc`, and the farmed
/// amount the ping returns; `None` when the reward leaves the `u128` range.
pub open spec fn ping_spec(v: Vault, acc: u128, round: u64) -> Option<(Vault, u128)> {
    if round == 0 {
        Some((v, 0))
    } else if v.reward_acc == acc {
        Some((v, v.farmed))
    } else if v.reward_acc > acc {
        Some((Vault { reward_acc: acc, ..v }, v.farmed))
    } else {
        match farmed_between(v.staked, v.reward_acc, acc) {
            None => None,
            Some(f) => if v.farmed + f > u128::MAX {
                None
            } else {
                let nv = Vault { reward_acc: acc, farmed: (v.farmed + f) as u128, ..v };
                Some((nv, nv.farmed))
            },
        }
    }
}

impl Vault {
    /// Update rewards for locked tokens in past rounds and returns the total
    /// account rewards. `acc` is the contract's reward accumulator at `round`.
    /// Returns `None`, and leaves the vault unchanged, when the reward leaves
    /// the `u128` range.
    pub fn ping(&mut self, reward_acc: u128, round: u64) -> (r: Option<u128>)
        ensures
            match ping_spec(*old(self), reward_acc, round) {
                None => r is None && *final(self) == *old(self),
                Some((nv, f)) => r == Some(f) && *final(self) == nv,
            },
    {
        // if farming didn't start, ignore the rewards update
        if round == 0 {
            return Some(0);
        }
        // ping in the same round
        if self.reward_acc == reward_acc {
            return Some(self.farmed);
        }
        // using a new farm iteration: reset
        if self.reward_acc > reward_acc {
            self.reward_acc = reward_acc;
            return Some(self.farmed);
        }
        match compute_farmed_between(self.staked, self.reward_acc, reward_acc) {
            None => None,
            Some(farmed) => match self.farmed.checked_add(farmed) {
                None => None,
                Some(total) => {
                    self.farmed = total;
                    self.reward_acc = reward_acc;
                    Some(total)
                },
            },
        }
    }
}

impl Contract {
    /// Returns the registered vault.
    pub fn get_vault(&self, account_id: &String) -> (r: Result<Vault, Error>)
        requires
            self.wf(),
        ensures
            match r {
                Ok(v) => self@.vaults.contains_key(account_id@) && v == self@.vaults[account_id@],
                Err(e) => !self@.vaults.contains_key(account_id@) && e == Error::NoAccount,
            },
    {
        match self.vaults.get(account_id) {
            Some(v) => Ok(*v),
            None => Err(Error::NoAccount),
        }
    }

    /// Brings the reward accumulator to the current round and pings the vault.
    /// Returns `false`, and changes nothing, when a value leaves the `u128` range.
    pub fn ping_all(&mut self, v: &mut Vault, round: u64) -> (r: bool)
        requires
            old(self).wf(),
        ensures
            final(self).wf(),
            match old(self)@.ping_all(*old(v), round) {
                None => !r && final(self)@ == old(self)@ && *final(v) == *old(v),
                Some((c, nv)) => r && final(self)@ == c && *final(v) == nv,
            },
    {
        let new_acc = match self.compute_reward_acc(round) {
            None => return false,
            Some(a) => a,
        };
        let (acc, acc_round) = if self.total_stake == 0 || new_acc != self.reward_acc {
            (new_acc, round)
        } else {
            (self.reward_acc, self.reward_acc_round)
        };
        let mut nv = *v;
        match nv.ping(acc, round) {
            None => false,
            Some(_) => {
                self.reward_acc = acc;
                self.reward_acc_round = acc_round;
                *v = nv;
                true
            },
        }
    }

    /// Updates the rewards accumulator to `round`.
    pub fn update_reward_acc(&mut self, round: u64) -> (r: bool)
        requires
            old(self).wf(),
        ensures
            final(self).wf(),
            match old(self)@.synced(round) {
                None => !r && final(self)@ == old(self)@,
                Some(c) => r && final(self)@ == c,
            },
    {
        match self.compute_reward_acc(round) {
            None => false,
            Some(new_acc) => {
                // we should advance with rounds if the total stake is zero, otherwise we
                // have a jump and don't compute properly the accumulator.
                if self.total_stake == 0 || new_acc != self.reward_acc {
                    self.reward_acc = new_acc;
                    self.reward_acc_round = round;
                }
                true
            },
        }
    }

    /// Computes the rewards accumulator at `round`.
    /// NOTE: the algorithm will not farm anything if `rate * ACC_OVERFLOW / total_stake < 1`.
    pub fn compute_reward_acc(&self, round: u64) -> (r: Option<u128>)
        ensures
            r == self@.acc_at(round),
    {
        crate::farming::compute_next_reward_acc(
            self.reward_acc,
            self.reward_acc_round,
            self.rate,
            self.total_stake,
            round,
        )
    }

    /// Callback on receiving staking tokens (NEP-141 `ft_on_transfer`):
    /// stakes them. Returns the unused amount, zero.
    pub fn ft_on_transfer(&mut self, ctx: &CallContext, sender_id: &String, amount: u128, msg: &String) -> (r: Result<u128, Error>)
        requires
            old(self).wf(),
        ensures
            final(self).wf(),
            match old(self)@.stake_spec(ctx.predecessor@, sender_id@, amount, ctx.block_timestamp) {
                Ok(st) => r == Ok::<u128, Error>(0) && final(self)@ == st,
                Err(e) => r == Err::<u128, Error>(e) && final(self)@ == old(self)@,
            },
    {
        if !self.is_active {
            return Err(Error::NotActive);
        }
        if ctx.predecessor != self.staking_token {
            return Err(Error::WrongToken);
        }
        if amount == 0 {
            return Err(Error::ZeroAmount);
        }
        let mut v = match self.get_vault(sender_id) {
            Ok(v) => v,
            Err(e) => return Err(e),
        };
        let staked = match v.staked.checked_add(amount) {
            None => return Err(Error::ArithmeticOverflow),
            Some(s) => s,
        };
        let total = match self.total_stake.checked_add(amount) {
            None => return Err(Error::ArithmeticOverflow),
            Some(t) => t,
        };
        let round = self.current_round(ctx.block_timestamp);
        // firstly update the past rewards
        if !self.ping_all(&mut v, round) {
            return Err(Error::ArithmeticOverflow);
        }
        v.staked = staked;
        self.vaults.insert(sender_id.clone(), v);
        self.total_stake = total;
        Ok(0)
    }

    /// Registers a new account (NEP-145 `storage_deposit`). A deposit for an
    /// already registered account is refunded.
    pub fn storage_deposit(&mut self, ctx: &CallContext, account_id: Option<String>, registration_only: Option<bool>) -> (r: Result<(StorageBalance, Vec<Action>), Error>)
        requires
            old(self).wf(),
        ensures
            final(self).wf(),
            ({
                let a = match account_id { Some(a) => a@, None => ctx.predecessor@ };
                let registered = old(self)@.vaults.contains_key(a);
                match r {
                    Ok((b, actions)) => {
                        &&& b == (StorageBalance { total: STORAGE_COST, available: 0 })
                        &&& registered ==> final(self)@ == old(self)@ && actions@ == (if ctx.attached_deposit > 0 {
                            seq![Action::TransferNear { receiver: ctx.predecessor, amount: ctx.attached_deposit }]
                        } else { seq![] })
                        &&& !registered ==> ctx.attached_deposit >= STORAGE_COST
                            && old(self)@.accounts_registered < u64::MAX
                            && final(self)@ == old(self)@.with_new_account(a)
                            && actions@ == (if ctx.attached_deposit > STORAGE_COST {
                            seq![Action::TransferNear { receiver: ctx.predecessor, amount: (ctx.attached_deposit - STORAGE_COST) as u128 }]
                        } else { seq![] })
                    },
                    Err(e) => !registered && final(self)@ == old(self)@ && (
                        if ctx.attached_deposit < STORAGE_COST { e == Error::DepositBelowStorageCost }
                        else { e == Error::ArithmeticOverflow && old(self)@.accounts_registered == u64::MAX }),
                }
            }),
    {
        let amount = ctx.attached_deposit;
        let account_id = match account_id {
            Some(a) => a,
            None => ctx.predecessor.clone(),
        };
        if self.vaults.contains_key(&account_id) {
            // the account is already registered, refunding the deposit
            let mut actions = Vec::new();
            if amount > 0 {
                actions.push(Action::TransferNear { receiver: ctx.predecessor.clone(), amount });
            }
            Ok((storage_balance(), actions))
        } else {
            if amount < STORAGE_COST {
                return Err(Error::DepositBelowStorageCost);
            }
            if self.accounts_registered == u64::MAX {
                return Err(Error::ArithmeticOverflow);
            }
            self.create_account(account_id, 0);
            let refund = amount - STORAGE_COST;
            let mut actions = Vec::new();
            if refund > 0 {
                actions.push(Action::TransferNear { receiver: ctx.predecessor.clone(), amount: refund });
            }
            Ok((storage_balance(), actions))
        }
    }

    /// Close the account (`close()` or `storage_unregister(true)`) to withdraw
    /// the deposited NEAR: this method always fails.
    pub fn storage_withdraw(&mut self, amount: Option<u128>) -> (r: Result<StorageBalance, Error>)
        ensures
            r == Err::<StorageBalance, Error>(Error::StorageWithdrawNotPossible),
            *final(self) == *old(self),
    {
        Err(Error::StorageWithdrawNotPossible)
    }

    /// When `force == Some(true)` it closes the account. Otherwise this is a noop.
    pub fn storage_unregister(&mut self, ctx: &CallContext, force: Option<bool>) -> (r: Result<(bool, Vec<Action>), Error>)
        requires
            old(self).wf(),
        ensures
            final(self).wf(),
            if ctx.attached_deposit != 1 {
                r == Err::<(bool, Vec<Action>), Error>(Error::RequiresOneYocto) && final(self)@ == old(self)@
            } else if !old(self)@.is_active {
                r == Err::<(bool, Vec<Action>), Error>(Error::NotActive) && final(self)@ == old(self)@
            } else if force == Some(true) {
                match old(self)@.close_spec(ctx.predecessor, ctx.attached_deposit, ctx.block_timestamp) {
                    Ok((st, acts)) => r matches Ok((closed, actions)) && closed && actions@ == acts && final(self)@ == st,
                    Err(e) => r == Err::<(bool, Vec<Action>), Error>(e) && final(self)@ == old(self)@,
                }
            } else {
                r matches Ok((closed, actions)) && !closed && actions@.len() == 0 && final(self)@ == old(self)@
            },
    {
        if ctx.attached_deposit != 1 {
            return Err(Error::RequiresOneYocto);
        }
        if !self.is_active {
            return Err(Error::NotActive);
        }
        if force == Some(true) {
            match self.close(ctx) {
                Ok(actions) => Ok((true, actions)),
                Err(e) => Err(e),
            }
        } else {
            Ok((false, Vec::new()))
        }
    }

    /// Min and max balance are always the storage cost.
    pub fn storage_balance_bounds(&self) -> (r: StorageBalanceBounds)
        ensures
            r == (StorageBalanceBounds { min: STORAGE_COST, max: Some(STORAGE_COST) }),
    {
        StorageBalanceBounds { min: STORAGE_COST, max: Some(STORAGE_COST) }
    }

    /// The storage balance of a registered account, `None` otherwise.
    pub fn storage_balance_of(&self, account_id: &String) -> (r: Option<StorageBalance>)
        requires
            self.wf(),
        ensures
            r == (if self@.vaults.contains_key(account_id@) { Some(StorageBalance { total: STORAGE_COST, available: 0 }) } else { None }),
    {
        if self.vaults.contains_key(account_id) {
            return Some(storage_balance());
        }
        None
    }
}

/// The storage balance of a registered account: the whole cost is used.
pub fn storage_balance() -> (r: StorageBalance)
    ensures
        r == (StorageBalance { total: STORAGE_COST, available: 0 }),
{
    StorageBalance { total: STORAGE_COST, available: 0 }
}

} // verus!

verus! {

/// A second ping in the same round, with the same accumulator, farms nothing
/// more: the status is the same however often it is read.
pub proof fn law_ping_idempotent(v: Vault, acc: u128, round: u64)
    requires
        ping_spec(v, acc, round) is Some,
    ensures
        ({
            let (v1, f1) = ping_spec(v, acc, round)->0;
            ping_spec(v1, acc, round) == Some((v1, f1))
        }),
{
}

} // verus!
