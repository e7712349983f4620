//! The dynamic staking pool: users stake NEAR and farm Cheddar at a fixed
//! rate per whole staked NEAR and round, between the farm's start and end.
use super::constants::{MIN_STAKE, ONE_YOCTO, ROUND};
use super::util::{current_round, round_from_unix, round_to_unix};
use super::vault::{ping, ping_spec, Vault};
use crate::account_map::AccountMap;
use crate::near::{CallContext, PromiseResult};
use vstd::prelude::*;

verus! {

/// Why a call is refused. A refused call fails as a whole (on chain it
/// panics): calls return the reason and leave the state as it was.
#[derive(Clone, Copy, PartialEq, Eq, Debug)]
pub enum Error {
    /// "can only be called by the owner"
    NotOwner,
    /// "Farming is not open"
    NotOpen,
    /// "E01: min stake amount is 0.01 NEAR"
    MinStake,
    /// "Requires attached deposit of exactly 1 yoctoNEAR"
    RequiresOneYocto,
    /// "Invalid amount"
    InvalidAmount,
    /// "Invalid amount, you have not that much staked"
    NotEnoughStake,
    /// "Wrong state. Previously registered epoch can't be zero"
    WrongState,
    /// "amount must be positive": nothing to withdraw or send
    NothingToSend,
    /// "E25: expected 1 promise result from withdraw"
    UnexpectedPromiseResults,
    /// "cheddar transfer failed"
    CheddarTransferFailed,
    /// an arithmetic operation overflowed
    ArithmeticOverflow,
}

/// Cross-contract work a call asks for.
#[derive(PartialEq, Eq)]
pub enum Action {
    /// Send native NEAR.
    TransferNear { receiver: String, amount: u128 },
    /// `mint` of `amount` Cheddar to `user`, then `mint_callback(user, amount)`
    /// and `mint_callback_finally(user, amount)`.
    MintCheddar { user: String, amount: u128 },
}

/// Farm parameters shown to users.
pub struct ContractParams {
    pub owner_id: String,
    pub token_contract: String,
    pub rewards_per_day: u128,
    pub is_open: bool,
    pub farming_start: u64,
    pub farming_end: u64,
    pub total_rewards: u128,
    pub total_stake: u128,
}

pub struct Contract {
    pub owner_id: String,
    /// farm token
    pub cheddar_id: String,
    /// whether staking is open
    pub is_active: bool,
    /// user vaults
    pub vaults: AccountMap<Vault>,
    /// Cheddar per round per whole staked NEAR
    pub rate: u128,
    pub total_stake: u128,
    /// round when the farming starts
    pub farming_start: u64,
    /// first round with no farming
    pub farming_end: u64,
    /// total farmed and withdrawn rewards
    pub total_rewards: u128,
}

/// The contract state as mathematical values.
pub struct PoolView {
    pub owner_id: Seq<char>,
    pub cheddar_id: Seq<char>,
    pub is_active: bool,
    pub vaults: Map<Seq<char>, Vault>,
    pub rate: u128,
    pub total_stake: u128,
    pub farming_start: u64,
    pub farming_end: u64,
    pub total_rewards: u128,
}

impl View for Contract {
    type V = PoolView;

    open spec fn view(&self) -> PoolView {
        PoolView {
            owner_id: self.owner_id@,
            cheddar_id: self.cheddar_id@,
            is_active: self.is_active,
            vaults: self.vaults@,
            rate: self.rate,
            total_stake: self.total_stake,
            farming_start: self.farming_start,
            farming_end: self.farming_end,
            total_rewards: self.total_rewards,
        }
    }
}

impl PoolView {
    /// The vault of `a`, empty when there is none.
    pub open spec fn vault_of(self, a: Seq<char>) -> Vault {
        if self.vaults.contains_key(a) { self.vaults[a] } else { Vault { previous: 0, staked: 0, rewards: 0 } }
    }

    /// The vaults after saving `v` for `a`: an empty vault is removed.
    pub open spec fn saved(self, a: Seq<char>, v: Vault) -> Map<Seq<char>, Vault> {
        if v.empty() { self.vaults.remove(a) } else { self.vaults.insert(a, v) }
    }

    /// Pinging the vault of `a` at block time `now` (nanoseconds).
    pub open spec fn ping_at(self, a: Seq<char>, now: u64) -> Option<(Vault, u128)> {
        ping_spec(self.vault_of(a), now / ROUND, self.farming_start, self.farming_end, self.rate)
    }

    /// Staking `amount` NEAR for `a` at `now`.
    pub open spec fn stake_spec(self, a: Seq<char>, amount: u128, now: u64) -> Result<(Self, u128), Error> {
        if !self.is_active {
            Err(Error::NotOpen)
        } else if amount < MIN_STAKE {
            Err(Error::MinStake)
        } else if self.total_stake + amount > u128::MAX {
            Err(Error::ArithmeticOverflow)
        } else {
            let v = self.vault_of(a);
            let nv: Option<Vault> = if v.empty() {
                if v.staked + amount > u128::MAX {
                    None
                } else {
                    let r = now / ROUND;
                    Some(Vault { staked: (v.staked + amount) as u128, previous: if r > self.farming_start { r as u64 } else { self.farming_start }, ..v })
                }
            } else {
                match self.ping_at(a, now) {
                    None => None,
                    Some((pv, _)) => if pv.staked + amount > u128::MAX {
                        None
                    } else {
                        Some(Vault { staked: (pv.staked + amount) as u128, ..pv })
                    },
                }
            };
            match nv {
                None => if !v.empty() && v.previous == 0 { Err(Error::WrongState) } else { Err(Error::ArithmeticOverflow) },
                Some(nv) => Ok((
                    PoolView { total_stake: (self.total_stake + amount) as u128, vaults: self.saved(a, nv), ..self },
                    nv.staked,
                )),
            }
        }
    }

    /// Closing the account of `a` at `now`: all NEAR back and the rewards minted.
    pub open spec fn close_spec(self, a: Seq<char>, attached: u128, now: u64) -> Result<(Self, u128, u128), Error> {
        if attached != 1 {
            Err(Error::RequiresOneYocto)
        } else {
            match self.ping_at(a, now) {
                None => if !self.vault_of(a).empty() && self.vault_of(a).previous == 0 { Err(Error::WrongState) } else { Err(Error::ArithmeticOverflow) },
                Some((v, _)) => if self.total_stake < v.staked {
                    Err(Error::ArithmeticOverflow)
                } else if v.staked == 0 || v.rewards == 0 {
                    Err(Error::NothingToSend)
                } else {
                    Ok((
                        PoolView {
                            vaults: self.saved(a, Vault { staked: 0, rewards: 0, ..v }),
                            total_stake: (self.total_stake - v.staked) as u128,
                            ..self
                        },
                        v.staked,
                        v.rewards,
                    ))
                },
            }
        }
    }
}

impl Contract {
    /// Well-formed vault map.
    pub open spec fn wf(&self) -> bool {
        self.vaults.wf()
    }

    /// Initializes the pool; `farming_start` and `farming_end` are unix
    /// timestamps, `reward_rate` is Cheddar per round per whole NEAR.
    pub fn new(owner_id: String, cheddar_id: String, reward_rate: u128, farming_start: u64, farming_end: u64) -> (r: Contract)
        ensures
            r.wf(),
            r@ == (PoolView {
                owner_id: owner_id@,
                cheddar_id: cheddar_id@,
                is_active: true,
                vaults: Map::empty(),
                rate: reward_rate,
                total_stake: 0,
                farming_start,
                farming_end,
                total_rewards: 0,
            }),
    {
        Contract {
            owner_id,
            cheddar_id,
            is_active: true,
            vaults: AccountMap::new(),
            rate: reward_rate,
            total_stake: 0,
            farming_start: round_from_unix(farming_start),
            farming_end: round_from_unix(farming_end),
            total_rewards: 0,
        }
    }

    /// The owner opens or closes staking.
    pub fn set_active(&mut self, ctx: &CallContext, is_open: bool) -> (r: Result<(), Error>)
        requires
            old(self).wf(),
        ensures
            final(self).wf(),
            ctx.predecessor@ != old(self)@.owner_id ==> r == Err::<(), Error>(Error::NotOwner) && final(self)@ == old(self)@,
            ctx.predecessor@ == old(self)@.owner_id ==> r is Ok && final(self)@ == (PoolView { is_active: is_open, ..old(self)@ }),
    {
        if ctx.predecessor != self.owner_id {
            return Err(Error::NotOwner);
        }
        self.is_active = is_open;
        Ok(())
    }

    /// The owner moves the farming period (unix timestamps).
    pub fn set_start_end(&mut self, ctx: &CallContext, farming_start: u64, farming_end: u64) -> (r: Result<(), Error>)
        requires
            old(self).wf(),
        ensures
            final(self).wf(),
            ctx.predecessor@ != old(self)@.owner_id ==> r == Err::<(), Error>(Error::NotOwner) && final(self)@ == old(self)@,
            ctx.predecessor@ == old(self)@.owner_id ==> r is Ok
                && final(self)@ == (PoolView { farming_start, farming_end, ..old(self)@ }),
    {
        if ctx.predecessor != self.owner_id {
            return Err(Error::NotOwner);
        }
        self.farming_start = round_from_unix(farming_start);
        self.farming_end = round_from_unix(farming_end);
        Ok(())
    }

    /// Pool parameters; the daily rewards must fit in 128 bits.
    pub fn get_contract_params(&self) -> (r: ContractParams)
        requires
            self.rate * 86400 <= u128::MAX,
        ensures
            r.owner_id@ == self@.owner_id,
            r.token_contract@ == self@.cheddar_id,
            r.rewards_per_day == self@.rate * 86400,
            r.is_open == self@.is_active,
            r.farming_start == self@.farming_start,
            r.farming_end == self@.farming_end,
            r.total_rewards == self@.total_rewards,
            r.total_stake == self@.total_stake,
    {
        ContractParams {
            owner_id: self.owner_id.clone(),
            token_contract: self.cheddar_id.clone(),
            rewards_per_day: self.rate * 60 * 60 * 24,
            is_open: self.is_active,
            farming_start: round_to_unix(self.farming_start),
            farming_end: round_to_unix(self.farming_end),
            total_rewards: self.total_rewards,
            total_stake: self.total_stake,
        }
    }

    fn get_vault_or_default(&self, a: &String) -> (r: Vault)
        requires
            self.wf(),
        ensures
            r == self@.vault_of(a@),
    {
        match self.vaults.get(a) {
            Some(v) => *v,
            None => Vault { previous: 0, staked: 0, rewards: 0 },
        }
    }

    fn save_vault(&mut self, a: &String, v: Vault)
        requires
            old(self).wf(),
        ensures
            final(self).wf(),
            final(self)@ == (PoolView { vaults: old(self)@.saved(a@, v), ..old(self)@ }),
    {
        if v.is_empty() {
            let _ = self.vaults.remove(a);
        } else {
            self.vaults.insert(a.clone(), v);
        }
    }

    /// Staked NEAR, rewards and the current round (as a unix timestamp) of
    /// `account_id` at block time `now`.
    pub fn status(&self, account_id: &String, now: u64) -> (r: Result<(u128, u128, u64), Error>)
        requires
            self.wf(),
        ensures
            match self@.ping_at(account_id@, now) {
                None => r is Err,
                Some((_, rewards)) => r == Ok::<(u128, u128, u64), Error>((self@.vault_of(account_id@).staked, rewards, now / ROUND)),
            },
    {
        let mut v = self.get_vault_or_default(account_id);
        let staked = v.staked;
        match ping(&mut v, current_round(now), self.farming_start, self.farming_end, self.rate) {
            None => Err(if v.previous == 0 { Error::WrongState } else { Error::ArithmeticOverflow }),
            Some(rewards) => Ok((staked, rewards, round_to_unix(current_round(now)))),
        }
    }

    /// Stakes the attached NEAR; returns the caller's stake.
    pub fn stake(&mut self, ctx: &CallContext) -> (r: Result<u128, Error>)
        requires
            old(self).wf(),
        ensures
            final(self).wf(),
            match old(self)@.stake_spec(ctx.predecessor@, ctx.attached_deposit, ctx.block_timestamp) {
                Err(e) => r == Err::<u128, Error>(e) && final(self)@ == old(self)@,
                Ok((s, staked)) => r == Ok::<u128, Error>(staked) && final(self)@ == s,
            },
    {
        if !self.is_active {
            return Err(Error::NotOpen);
        }
        let amount = ctx.attached_deposit;
        if amount < MIN_STAKE {
            return Err(Error::MinStake);
        }
        if amount > u128::MAX - self.total_stake {
            return Err(Error::ArithmeticOverflow);
        }
        let aid = &ctx.predecessor;
        let mut vault = self.get_vault_or_default(aid);
        if vault.is_empty() {
            if amount > u128::MAX - vault.staked {
                return Err(Error::ArithmeticOverflow);
            }
            vault.staked = vault.staked + amount;
            let r = current_round(ctx.block_timestamp);
            vault.previous = if r > self.farming_start { r } else { self.farming_start };
        } else {
            match ping(&mut vault, current_round(ctx.block_timestamp), self.farming_start, self.farming_end, self.rate) {
                None => return Err(if vault.previous == 0 { Error::WrongState } else { Error::ArithmeticOverflow }),
                Some(_) => {},
            }
            if amount > u128::MAX - vault.staked {
                return Err(Error::ArithmeticOverflow);
            }
            vault.staked = vault.staked + amount;
        }
        self.total_stake = self.total_stake + amount;
        self.save_vault(aid, vault);
        Ok(vault.staked)
    }

    /// Unstakes everything and closes the caller's account: all NEAR goes
    /// back and the rewards are minted. Requires 1 yoctoNEAR. Refused with
    /// `NothingToSend` when there is no stake or no reward to mint. An `Err` stands for a failed call (the call panics): nothing of it persists.
    pub fn close(&mut self, ctx: &CallContext) -> (r: Result<Vec<Action>, Error>)
        requires
            old(self).wf(),
        ensures
            final(self).wf(),
            match old(self)@.close_spec(ctx.predecessor@, ctx.attached_deposit, ctx.block_timestamp) {
                Err(e) => r matches Err(x) && x == e && final(self)@ == old(self)@,
                Ok((s, near, cheddar)) => r matches Ok(a) && final(self)@ == s && a@ == seq![
                    Action::TransferNear { receiver: ctx.predecessor, amount: near },
                    Action::MintCheddar { user: ctx.predecessor, amount: cheddar },
                ],
            },
    {
        if ctx.attached_deposit != ONE_YOCTO {
            return Err(Error::RequiresOneYocto);
        }
        let aid = &ctx.predecessor;
        let mut vault = self.get_vault_or_default(aid);
        match ping(&mut vault, current_round(ctx.block_timestamp), self.farming_start, self.farming_end, self.rate) {
            None => return Err(if vault.previous == 0 { Error::WrongState } else { Error::ArithmeticOverflow }),
            Some(_) => {},
        }
        let rewards = vault.rewards;
        let to_transfer = vault.staked;
        if self.total_stake < to_transfer {
            return Err(Error::ArithmeticOverflow);
        }
        if to_transfer == 0 || rewards == 0 {
            return Err(Error::NothingToSend);
        }
        vault.staked = 0;
        vault.rewards = 0;
        self.save_vault(aid, vault);
        self.total_stake = self.total_stake - to_transfer;
        let mut actions = Vec::new();
        actions.push(Action::TransferNear { receiver: aid.clone(), amount: to_transfer });
        actions.push(Action::MintCheddar { user: aid.clone(), amount: rewards });
        proof {
            assert(actions@ =~= seq![
                Action::TransferNear { receiver: ctx.predecessor, amount: to_transfer },
                Action::MintCheddar { user: ctx.predecessor, amount: rewards },
            ]);
        }
        Ok(actions)
    }

    /// Unstakes `amount` NEAR and sends it back; unstaking all but less than
    /// the minimum stake closes the account. Returns the stake left after the
    /// call (`None` when the account was closed) and the actions. Requires 1
    /// yoctoNEAR.
    pub fn unstake(&mut self, ctx: &CallContext, amount: u128) -> (r: Result<(Option<u128>, Vec<Action>), Error>)
        requires
            old(self).wf(),
        ensures
            final(self).wf(),
            ({
                let o = old(self)@;
                let a = ctx.predecessor@;
                let v = o.vault_of(a);
                if ctx.attached_deposit != 1 {
                    r matches Err(e) && e == Error::RequiresOneYocto && final(self)@ == o
                } else if amount == 0 {
                    r matches Err(e) && e == Error::InvalidAmount && final(self)@ == o
                } else if !(v.staked > 0 && amount <= v.staked + MIN_STAKE) {
                    r matches Err(e) && e == Error::NotEnoughStake && final(self)@ == o
                } else if v.staked >= MIN_STAKE && amount >= v.staked - MIN_STAKE {
                    match o.close_spec(a, ctx.attached_deposit, ctx.block_timestamp) {
                        Err(e) => r matches Err(x) && x == e && final(self)@ == o,
                        Ok((s, near, cheddar)) => r matches Ok((None, acts)) && final(self)@ == s && acts@ == seq![
                            Action::TransferNear { receiver: ctx.predecessor, amount: near },
                            Action::MintCheddar { user: ctx.predecessor, amount: cheddar },
                        ],
                    }
                } else if v.staked < amount {
                    r matches Err(e) && e == Error::NotEnoughStake && final(self)@ == o
                } else {
                    match o.ping_at(a, ctx.block_timestamp) {
                        None => r is Err && final(self)@ == o,
                        Some((pv, _)) => if o.total_stake < amount {
                            r matches Err(e) && e == Error::ArithmeticOverflow && final(self)@ == o
                        } else {
                            r matches Ok((Some(x), acts)) && x == pv.staked - amount
                                && acts@ == seq![Action::TransferNear { receiver: ctx.predecessor, amount }]
                                && final(self)@ == (PoolView {
                                    vaults: o.saved(a, Vault { staked: (pv.staked - amount) as u128, ..pv }),
                                    total_stake: (o.total_stake - amount) as u128,
                                    ..o
                                })
                        },
                    }
                }
            }),
    {
        if ctx.attached_deposit != ONE_YOCTO {
            return Err(Error::RequiresOneYocto);
        }
        if amount == 0 {
            return Err(Error::InvalidAmount);
        }
        let aid = &ctx.predecessor;
        let mut vault = self.get_vault_or_default(aid);
        if !(vault.staked > 0 && (amount <= vault.staked || amount - vault.staked <= MIN_STAKE)) {
            return Err(Error::NotEnoughStake);
        }
        if vault.staked >= MIN_STAKE && amount >= vault.staked - MIN_STAKE {
            return match self.close(ctx) {
                Err(e) => Err(e),
                Ok(actions) => Ok((None, actions)),
            };
        }
        if vault.staked < amount {
            return Err(Error::NotEnoughStake);
        }
        match ping(&mut vault, current_round(ctx.block_timestamp), self.farming_start, self.farming_end, self.rate) {
            None => return Err(if vault.previous == 0 { Error::WrongState } else { Error::ArithmeticOverflow }),
            Some(_) => {},
        }
        if self.total_stake < amount {
            return Err(Error::ArithmeticOverflow);
        }
        vault.staked = vault.staked - amount;
        self.total_stake = self.total_stake - amount;
        let left = vault.staked;
        self.save_vault(aid, vault);
        let mut actions = Vec::new();
        actions.push(Action::TransferNear { receiver: aid.clone(), amount });
        proof {
            assert(actions@ =~= seq![Action::TransferNear { receiver: ctx.predecessor, amount }]);
        }
        Ok((Some(left), actions))
    }

    /// Mints all rewards of the caller; the account stays open.
    pub fn withdraw_crop(&mut self, ctx: &CallContext) -> (r: Result<Action, Error>)
        requires
            old(self).wf(),
        ensures
            final(self).wf(),
            ({
                let o = old(self)@;
                let a = ctx.predecessor@;
                match o.ping_at(a, ctx.block_timestamp) {
                    None => r is Err && final(self)@ == o,
                    Some((v, _)) => if v.rewards == 0 {
                        r matches Err(e) && e == Error::NothingToSend && final(self)@ == o
                    } else {
                        r matches Ok(x) && x == Action::MintCheddar { user: ctx.predecessor, amount: v.rewards }
                            && final(self)@ == (PoolView { vaults: o.saved(a, Vault { rewards: 0, ..v }), ..o })
                    },
                }
            }),
    {
        let aid = &ctx.predecessor;
        let mut vault = self.get_vault_or_default(aid);
        match ping(&mut vault, current_round(ctx.block_timestamp), self.farming_start, self.farming_end, self.rate) {
            None => return Err(if vault.previous == 0 { Error::WrongState } else { Error::ArithmeticOverflow }),
            Some(_) => {},
        }
        if vault.rewards == 0 {
            return Err(Error::NothingToSend);
        }
        let rewards = vault.rewards;
        vault.rewards = 0;
        self.save_vault(aid, vault);
        Ok(Action::MintCheddar { user: aid.clone(), amount: rewards })
    }

    /// After the mint of `amount` rewards for `user`: counted as withdrawn on
    /// success, given back to the vault on failure.
    pub fn mint_callback(&mut self, user: &String, amount: u128, promise_results_count: u64, result: &PromiseResult) -> (r: Result<(), Error>)
        requires
            old(self).wf(),
            !(*result is NotReady),
        ensures
            final(self).wf(),
            ({
                let o = old(self)@;
                let v = o.vault_of(user@);
                if promise_results_count != 1 {
                    r == Err::<(), Error>(Error::UnexpectedPromiseResults) && final(self)@ == o
                } else if *result is Successful {
                    if o.total_rewards + amount > u128::MAX {
                        r == Err::<(), Error>(Error::ArithmeticOverflow) && final(self)@ == o
                    } else {
                        r is Ok && final(self)@ == (PoolView { total_rewards: (o.total_rewards + amount) as u128, ..o })
                    }
                } else if v.rewards + amount > u128::MAX {
                    r == Err::<(), Error>(Error::ArithmeticOverflow) && final(self)@ == o
                } else {
                    r is Ok && final(self)@ == (PoolView { vaults: o.saved(user@, Vault { rewards: (v.rewards + amount) as u128, ..v }), ..o })
                }
            }),
    {
        if promise_results_count != 1 {
            return Err(Error::UnexpectedPromiseResults);
        }
        match result {
            PromiseResult::Successful(_) => {
                if amount > u128::MAX - self.total_rewards {
                    return Err(Error::ArithmeticOverflow);
                }
                self.total_rewards = self.total_rewards + amount;
                Ok(())
            },
            _ => {
                let mut vault = self.get_vault_or_default(user);
                if amount > u128::MAX - vault.rewards {
                    return Err(Error::ArithmeticOverflow);
                }
                vault.rewards = vault.rewards + amount;
                self.save_vault(user, vault);
                Ok(())
            },
        }
    }

    /// Last step of a reward withdrawal: refused when the user still has
    /// rewards (the mint failed); answers `amount` otherwise.
    pub fn mint_callback_finally(&self, user: &String, amount: u128) -> (r: Result<u128, Error>)
        requires
            self.wf(),
        ensures
            self@.vault_of(user@).rewards != 0 ==> r == Err::<u128, Error>(Error::CheddarTransferFailed),
            self@.vault_of(user@).rewards == 0 ==> r == Ok::<u128, Error>(amount),
    {
        let vault = self.get_vault_or_default(user);
        if vault.rewards != 0 {
            return Err(Error::CheddarTransferFailed);
        }
        Ok(amount)
    }
}

/// Staking moves the same amount into the user's stake and the total stake.
pub proof fn law_stake_adds_to_total(c: PoolView, a: Seq<char>, amount: u128, now: u64)
    requires
        c.stake_spec(a, amount, now) is Ok,
    ensures
        ({
            let (n, staked) = c.stake_spec(a, amount, now)->Ok_0;
            &&& n.total_stake == c.total_stake + amount
            &&& staked == n.vault_of(a).staked
            &&& staked == c.vault_of(a).staked + amount
        }),
{
}

} // verus!
