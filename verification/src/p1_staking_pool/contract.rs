//! The epoch based staking pool: users stake NEAR and farm Cheddar emitted
//! at a fixed rate per epoch, shared in proportion to the stake.
use super::vault::{Vault, MIN_STAKE};
use crate::account_map::AccountMap;
use crate::near::{CallContext, PromiseResult};
use vstd::prelude::*;

verus! {

/// Why a call is refused. A refused call fails as a whole (on chain it
/// panics): calls return the reason and leave the state as it was.
#[derive(Clone, Copy, PartialEq, Eq, Debug)]
pub enum Error {
    /// "can only be called by the owner"
    NotOwner,
    /// "Farming is not open"
    NotOpen,
    /// "E01: min stake amount is 0.01 NEAR"
    MinStake,
    /// "E02: the remaining stake is below the minimum"
    MinBalance,
    /// "E10: account not found"
    NoAccount,
    /// "E30: not enough staked tokens"
    NotEnoughStake,
    /// "E25: expected 1 promise result from withdraw"
    UnexpectedPromiseResults,
    /// "Requires attached deposit of exactly 1 yoctoNEAR"
    RequiresOneYocto,
    /// "Wrong state. Previously registered epoch can't be zero"
    WrongState,
    /// "Farming only possible between farming_start and farming_end epoch"
    FarmingClosed,
    /// an arithmetic operation overflowed
    ArithmeticOverflow,
}

/// Cross-contract work a call asks for.
#[derive(PartialEq, Eq, Debug)]
pub enum Action {
    /// Send native NEAR.
    TransferNear { receiver: String, amount: u128 },
    /// `ft_transfer` of `amount` Cheddar to `user`, then
    /// `withdraw_callback(user, amount)`.
    TransferCheddar { user: String, amount: u128 },
}

/// Pool parameters shown to users.
pub struct ContractParams {
    pub owner_id: String,
    pub token_contract: String,
    pub emission_rate: u128,
    pub is_open: bool,
}

pub struct Contract {
    pub owner_id: String,
    /// farm token
    pub cheddar_id: String,
    /// whether staking is open
    pub is_active: bool,
    /// user vaults
    pub vaults: AccountMap<Vault>,
    /// Cheddar farmed per epoch, shared by all users in proportion to their stake
    pub emission_rate: u128,
    pub total_stake: u128,
    pub farming_start: u64,
    pub farming_end: u64,
}

/// The contract state as mathematical values.
pub struct PoolView {
    pub owner_id: Seq<char>,
    pub cheddar_id: Seq<char>,
    pub is_active: bool,
    pub vaults: Map<Seq<char>, Vault>,
    pub emission_rate: u128,
    pub total_stake: u128,
    pub farming_start: u64,
    pub farming_end: u64,
}

impl View for Contract {
    type V = PoolView;

    open spec fn view(&self) -> PoolView {
        PoolView {
            owner_id: self.owner_id@,
            cheddar_id: self.cheddar_id@,
            is_active: self.is_active,
            vaults: self.vaults@,
            emission_rate: self.emission_rate,
            total_stake: self.total_stake,
            farming_start: self.farming_start,
            farming_end: self.farming_end,
        }
    }
}

/// The epoch of block time `block_timestamp` for epochs of `epoch_len`
/// nanoseconds: the number of epochs started, rounded up.
pub open spec fn epoch_of(block_timestamp: u64, epoch_len: u64) -> int {
    (block_timestamp + epoch_len - 1) / (epoch_len as int)
}

/// The epoch of a block time, rounded up.
pub fn current_epoch(block_timestamp: u64, epoch_len: u64) -> (r: u64)
    requires
        epoch_len > 0,
        block_timestamp + epoch_len - 1 <= u64::MAX,
    ensures
        r == epoch_of(block_timestamp, epoch_len),
{
    (block_timestamp + (epoch_len - 1)) / epoch_len
}

impl PoolView {
    /// Staking `amount` for `a` at epoch `now`. A new account starts at `now`
    /// without entering the total stake; an existing one is counted in the
    /// total before its reward update.
    pub open spec fn stake_spec(self, a: Seq<char>, amount: u128, now: u64) -> Result<(Self, u128), Error> {
        if !self.is_active {
            Err(Error::NotOpen)
        } else if amount < MIN_STAKE {
            Err(Error::MinStake)
        } else if self.vaults.contains_key(a) {
            if self.total_stake + amount > u128::MAX {
                Err(Error::ArithmeticOverflow)
            } else {
                let c1 = PoolView { total_stake: (self.total_stake + amount) as u128, ..self };
                match c1.stake_vault_spec(self.vaults[a], amount, now) {
                    Err(e) => Err(e),
                    Ok(nv) => Ok((PoolView { vaults: c1.vaults.insert(a, nv), ..c1 }, nv.staked)),
                }
            }
        } else {
            Ok((PoolView { vaults: self.vaults.insert(a, Vault { previous: now, staked: amount, rewards: 0 }), ..self }, amount))
        }
    }

    /// Unstaking `amount` of `a` at epoch `now`.
    pub open spec fn unstake_spec(self, a: Seq<char>, attached: u128, amount: u128, now: u64) -> Result<(Self, u128), Error> {
        if attached != 1 {
            Err(Error::RequiresOneYocto)
        } else if !self.vaults.contains_key(a) {
            Err(Error::NoAccount)
        } else {
            match self.unstake_vault_spec(self.vaults[a], amount, now) {
                Err(e) => Err(e),
                Ok(nv) => if self.total_stake < amount {
                    Err(Error::ArithmeticOverflow)
                } else {
                    Ok((
                        PoolView { total_stake: (self.total_stake - amount) as u128, vaults: self.vaults.insert(a, nv), ..self },
                        nv.staked,
                    ))
                },
            }
        }
    }

    /// Closing the account of `a` at epoch `now`: the vault after its reward
    /// update is removed, and its rewards are taken off the total stake.
    pub open spec fn close_spec(self, a: Seq<char>, attached: u128, now: u64) -> Result<(Self, Vault), Error> {
        if attached != 1 {
            Err(Error::RequiresOneYocto)
        } else if !self.vaults.contains_key(a) {
            Err(Error::NoAccount)
        } else {
            match self.ping_spec(self.vaults[a], now) {
                Err(e) => Err(e),
                Ok(v) => if self.total_stake < v.rewards {
                    Err(Error::ArithmeticOverflow)
                } else {
                    Ok((PoolView { vaults: self.vaults.remove(a), total_stake: (self.total_stake - v.rewards) as u128, ..self }, v))
                },
            }
        }
    }

    /// Withdrawing the rewards of `a` at epoch `now`.
    pub open spec fn withdraw_crop_spec(self, a: Seq<char>, now: u64) -> Result<(Self, u128), Error> {
        if !self.vaults.contains_key(a) {
            Err(Error::NoAccount)
        } else {
            match self.ping_spec(self.vaults[a], now) {
                Err(e) => Err(e),
                Ok(v) => Ok((PoolView { vaults: self.vaults.insert(a, Vault { rewards: 0, ..v }), ..self }, v.rewards)),
            }
        }
    }
}

impl Contract {
    /// Well-formed vault map.
    pub open spec fn wf(&self) -> bool {
        self.vaults.wf()
    }

    /// Initializes the pool; farming is counted in epochs.
    pub fn new(owner_id: String, cheddar_id: String, emission_rate: u128, farming_start: u64, farming_end: u64) -> (r: Contract)
        ensures
            r.wf(),
            r@ == (PoolView {
                owner_id: owner_id@,
                cheddar_id: cheddar_id@,
                is_active: true,
                vaults: Map::empty(),
                emission_rate,
                total_stake: 0,
                farming_start,
                farming_end,
            }),
    {
        Contract {
            owner_id,
            cheddar_id,
            is_active: true,
            vaults: AccountMap::new(),
            emission_rate,
            total_stake: 0,
            farming_start,
            farming_end,
        }
    }

    /// Opens or closes the farming. Owner only.
    pub fn set_active(&mut self, ctx: &CallContext, is_open: bool) -> (r: Result<(), Error>)
        requires
            old(self).wf(),
        ensures
            final(self).wf(),
            ctx.predecessor@ == old(self)@.owner_id ==> r is Ok && final(self)@ == (PoolView { is_active: is_open, ..old(self)@ }),
            ctx.predecessor@ != old(self)@.owner_id ==> r == Err::<(), Error>(Error::NotOwner) && final(self)@ == old(self)@,
    {
        if ctx.predecessor != self.owner_id {
            return Err(Error::NotOwner);
        }
        self.is_active = is_open;
        Ok(())
    }

    /// Pool parameters.
    pub fn get_contract_params(&self) -> (r: ContractParams)
        ensures
            r.owner_id@ == self@.owner_id,
            r.token_contract@ == self@.cheddar_id,
            r.emission_rate == self.emission_rate,
            r.is_open == self.is_active,
    {
        ContractParams {
            owner_id: self.owner_id.clone(),
            token_contract: self.cheddar_id.clone(),
            emission_rate: self.emission_rate,
            is_open: self.is_active,
        }
    }

    /// Staked NEAR and farmed Cheddar of `account_id` at epoch `now`; zeros
    /// for an unknown account.
    pub fn status(&self, account_id: &String, now: u64) -> (r: Result<(u128, u128), Error>)
        requires
            self.wf(),
        ensures
            !self@.vaults.contains_key(account_id@) ==> r == Ok::<(u128, u128), Error>((0, 0)),
            self@.vaults.contains_key(account_id@) ==> match self@.ping_spec(self@.vaults[account_id@], now) {
                Ok(v) => r == Ok::<(u128, u128), Error>((self@.vaults[account_id@].staked, v.rewards)),
                Err(e) => r == Err::<(u128, u128), Error>(e),
            },
    {
        match self.vaults.get(account_id) {
            None => Ok((0, 0)),
            Some(v) => {
                let mut v = *v;
                let staked = v.staked;
                match self.ping(&mut v, now) {
                    Err(e) => Err(e),
                    Ok(_) => Ok((staked, v.rewards)),
                }
            },
        }
    }

    /// Stakes the attached NEAR at epoch `now` and returns the caller's stake.
    pub fn stake(&mut self, ctx: &CallContext, now: u64) -> (r: Result<u128, Error>)
        requires
            old(self).wf(),
        ensures
            final(self).wf(),
            match old(self)@.stake_spec(ctx.predecessor@, ctx.attached_deposit, now) {
                Ok((s, staked)) => r == Ok::<u128, Error>(staked) && final(self)@ == s,
                Err(e) => r == Err::<u128, Error>(e) && final(self)@ == old(self)@,
            },
    {
        if !self.is_active {
            return Err(Error::NotOpen);
        }
        let amount = ctx.attached_deposit;
        if amount < MIN_STAKE {
            return Err(Error::MinStake);
        }
        let aid = &ctx.predecessor;
        match self.vaults.get(aid) {
            Some(v) => {
                let mut vault = *v;
                if amount > u128::MAX - self.total_stake {
                    return Err(Error::ArithmeticOverflow);
                }
                self.total_stake = self.total_stake + amount;
                match self._stake(amount, &mut vault, now) {
                    Err(e) => {
                        self.total_stake = self.total_stake - amount;
                        return Err(e);
                    },
                    Ok(_) => {},
                }
                self.vaults.insert(aid.clone(), vault);
                Ok(vault.staked)
            },
            None => {
                self.vaults.insert(aid.clone(), Vault { previous: now, staked: amount, rewards: 0 });
                Ok(amount)
            },
        }
    }

    /// Unstakes `amount` at epoch `now` and sends it back to the caller.
    /// Returns the stake left. Requires 1 yoctoNEAR.
    pub fn unstake(&mut self, ctx: &CallContext, amount: u128, now: u64) -> (r: Result<(u128, Action), Error>)
        requires
            old(self).wf(),
        ensures
            final(self).wf(),
            match old(self)@.unstake_spec(ctx.predecessor@, ctx.attached_deposit, amount, now) {
                Ok((s, left)) => r matches Ok((l, a)) && l == left && final(self)@ == s
                    && a == Action::TransferNear { receiver: ctx.predecessor, amount },
                Err(e) => r matches Err(x) && x == e && final(self)@ == old(self)@,
            },
    {
        if ctx.attached_deposit != 1 {
            return Err(Error::RequiresOneYocto);
        }
        let aid = &ctx.predecessor;
        let mut vault = match self.get_vault(aid) {
            Err(e) => return Err(e),
            Ok(v) => v,
        };
        match self._unstake(amount, &mut vault, now) {
            Err(e) => return Err(e),
            Ok(_) => {},
        }
        if self.total_stake < amount {
            return Err(Error::ArithmeticOverflow);
        }
        self.total_stake = self.total_stake - amount;
        self.vaults.insert(aid.clone(), vault);
        Ok((vault.staked, Action::TransferNear { receiver: aid.clone(), amount }))
    }

    /// Unstakes everything at epoch `now` and closes the account: all NEAR
    /// goes back and the farmed Cheddar is sent. Returns the farmed Cheddar.
    /// Requires 1 yoctoNEAR.
    pub fn close(&mut self, ctx: &CallContext, now: u64) -> (r: Result<(u128, Vec<Action>), Error>)
        requires
            old(self).wf(),
        ensures
            final(self).wf(),
            match old(self)@.close_spec(ctx.predecessor@, ctx.attached_deposit, now) {
                Ok((s, v)) => r matches Ok((rewards, actions)) && rewards == v.rewards && final(self)@ == s
                    && actions@ == seq![
                        Action::TransferNear { receiver: ctx.predecessor, amount: v.staked },
                        Action::TransferCheddar { user: ctx.predecessor, amount: v.rewards },
                    ],
                Err(e) => r matches Err(x) && x == e && final(self)@ == old(self)@,
            },
    {
        if ctx.attached_deposit != 1 {
            return Err(Error::RequiresOneYocto);
        }
        let aid = &ctx.predecessor;
        let mut vault = match self.get_vault(aid) {
            Err(e) => return Err(e),
            Ok(v) => v,
        };
        match self.ping(&mut vault, now) {
            Err(e) => return Err(e),
            Ok(_) => {},
        }
        if self.total_stake < vault.rewards {
            return Err(Error::ArithmeticOverflow);
        }
        self.vaults.remove(aid);
        self.total_stake = self.total_stake - vault.rewards;
        let callback = self.withdraw_cheddar(aid, vault.rewards);
        let mut actions = Vec::new();
        actions.push(Action::TransferNear { receiver: aid.clone(), amount: vault.staked });
        actions.push(callback);
        Ok((vault.rewards, actions))
    }

    /// Withdraws all farmed Cheddar at epoch `now`. Returns the amount.
    pub fn withdraw_crop(&mut self, ctx: &CallContext, now: u64) -> (r: Result<(u128, Action), Error>)
        requires
            old(self).wf(),
        ensures
            final(self).wf(),
            match old(self)@.withdraw_crop_spec(ctx.predecessor@, now) {
                Ok((s, rewards)) => r matches Ok((x, a)) && x == rewards && final(self)@ == s
                    && a == Action::TransferCheddar { user: ctx.predecessor, amount: rewards },
                Err(e) => r matches Err(x) && x == e && final(self)@ == old(self)@,
            },
    {
        let aid = &ctx.predecessor;
        let mut vault = match self.get_vault(aid) {
            Err(e) => return Err(e),
            Ok(v) => v,
        };
        match self.ping(&mut vault, now) {
            Err(e) => return Err(e),
            Ok(_) => {},
        }
        let rewards = vault.rewards;
        vault.rewards = 0;
        self.vaults.insert(aid.clone(), vault);
        Ok((rewards, self.withdraw_cheddar(aid, rewards)))
    }

    /// The transfer of `amount` Cheddar to `a`, followed by `withdraw_callback`.
    fn withdraw_cheddar(&self, a: &String, amount: u128) -> (r: Action)
        ensures
            r == (Action::TransferCheddar { user: *a, amount }),
    {
        Action::TransferCheddar { user: a.clone(), amount }
    }

    /// After a Cheddar transfer to `sender_id`: when it failed, the amount is
    /// credited back to the vault's rewards.
    pub fn withdraw_callback(&mut self, sender_id: &String, amount: u128, promise_results_count: u64, result: &PromiseResult) -> (r: Result<(), Error>)
        requires
            old(self).wf(),
            !(*result is NotReady),
        ensures
            final(self).wf(),
            ({
                let o = old(self)@;
                let a = sender_id@;
                if promise_results_count != 1 {
                    r == Err::<(), Error>(Error::UnexpectedPromiseResults) && final(self)@ == o
                } else if !(*result is Failed) {
                    r is Ok && final(self)@ == o
                } else if !o.vaults.contains_key(a) {
                    r == Err::<(), Error>(Error::NoAccount) && final(self)@ == o
                } else if o.vaults[a].rewards + amount > u128::MAX {
                    r == Err::<(), Error>(Error::ArithmeticOverflow) && final(self)@ == o
                } else {
                    r is Ok && final(self)@ == (PoolView {
                        vaults: o.vaults.insert(a, Vault { rewards: (o.vaults[a].rewards + amount) as u128, ..o.vaults[a] }),
                        ..o
                    })
                }
            }),
    {
        if promise_results_count != 1 {
            return Err(Error::UnexpectedPromiseResults);
        }
        match result {
            PromiseResult::Failed => {
                let mut v = match self.get_vault(sender_id) {
                    Err(e) => return Err(e),
                    Ok(v) => v,
                };
                if amount > u128::MAX - v.rewards {
                    return Err(Error::ArithmeticOverflow);
                }
                v.rewards = v.rewards + amount;
                self.vaults.insert(sender_id.clone(), v);
                Ok(())
            },
            _ => Ok(()),
        }
    }
}

/// An unstake that goes through leaves at least `MIN_STAKE` staked and
/// takes exactly the amount off the vault and off the total stake.
pub proof fn law_unstake_leaves_min_stake(c: PoolView, a: Seq<char>, attached: u128, amount: u128, now: u64)
    requires
        c.unstake_spec(a, attached, amount, now) is Ok,
    ensures
        ({
            let (n, left) = c.unstake_spec(a, attached, amount, now)->Ok_0;
            &&& left >= MIN_STAKE
            &&& n.vaults[a].staked == left
            &&& left + amount == c.vaults[a].staked
            &&& n.total_stake + amount == c.total_stake
        }),
{
}

} // verus!
