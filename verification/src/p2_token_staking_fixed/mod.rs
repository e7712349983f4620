//! P2 rewards distribution contract implementing the "Scalable Reward
//! Distribution on the Ethereum Blockchain" algorithm: users stake one NEP-141
//! token and farm Cheddar; every round a fixed amount of Cheddar is farmed and
//! shared by the users in proportion to their stake.
pub mod util;
pub mod vault;
pub mod laws;

use crate::account_map::AccountMap;
use crate::farming::next_reward_acc;
use crate::near::{CallContext, PromiseResult};
use crate::p3_lib::constants::{ACC_OVERFLOW, ROUND, SECOND};
use crate::p3_lib::helpers::{round_number, round_number_spec};
use vault::{ping_spec, Vault};
use vstd::prelude::*;

verus! {

/// Storage deposit required to register an account: 0.05 NEAR.
pub const STORAGE_COST: u128 = 50_000_000_000_000_000_000_000;
pub const ONE_YOCTO: u128 = 1;

/// Why a call is refused. A refused call fails as a whole (on chain it
/// panics): calls return the reason and leave the state as it was.
#[derive(Clone, Copy, PartialEq, Eq, Debug)]
pub enum Error {
    /// "contract is not active"
    NotActive,
    /// "can only be called by the owner"
    NotOwner,
    /// "E10: account not found. Register the account."
    NoAccount,
    /// "E30: not enough staked tokens"
    NotEnoughStake,
    /// "Requires attached deposit of exactly 1 yoctoNEAR"
    RequiresOneYocto,
    /// "Only <staking token> token transfers are accepted"
    WrongToken,
    /// "staked amount must be positive"
    ZeroAmount,
    /// "The attached deposit is less than the minimum storage balance"
    DepositBelowStorageCost,
    /// "Storage withdraw not possible, close the account instead"
    StorageWithdrawNotPossible,
    /// "zero collected fees"
    ZeroCollectedFees,
    /// "Start must be after end, end at there must be at least one round difference"
    EndNotAfterStart,
    /// "E25: expected 1 promise result from withdraw"
    UnexpectedPromiseResults,
    /// an arithmetic operation overflowed
    ArithmeticOverflow,
}

/// Cross-contract work a call asks for; the caller of the library performs it.
#[derive(PartialEq, Eq)]
pub enum Action {
    /// Send native NEAR.
    TransferNear { receiver: String, amount: u128 },
    /// `ft_transfer` of `transferred` staking tokens to `user` (memo "unstaking"),
    /// then `return_tokens_callback(user, amount)`.
    ReturnTokens { user: String, amount: u128, transferred: u128 },
    /// `ft_mint` of `amount` Cheddar to `user` (memo "farming"), then
    /// `mint_callback(user, amount)`.
    MintCheddar { user: String, amount: u128 },
    /// `ft_transfer` of the collected fee to the treasury (memo "fee withdraw").
    TransferFee { treasury: String, amount: u128 },
}

/// Farm parameters and totals shown to users.
pub struct ContractParams {
    pub owner_id: String,
    pub farming_token: String,
    pub staked_token: String,
    pub farming_rate: u128,
    pub is_active: bool,
    pub farming_start: u64,
    pub farming_end: u64,
    pub total_staked: u128,
    pub total_farmed: u128,
    pub fee_rate: u128,
    pub accounts_registered: u64,
}

pub struct Contract {
    pub owner_id: String,
    /// farm token
    pub cheddar: String,
    /// NEP-141 token for staking
    pub staking_token: String,
    /// if farming is opened
    pub is_active: bool,
    /// user vaults
    pub vaults: AccountMap<Vault>,
    /// amount of $CHEDDAR farmed during each round.
    pub rate: u128,
    /// unix timestamp (seconds) when the farming starts.
    pub farming_start: u64,
    /// unix timestamp (seconds) when the farming ends (first time with no farming).
    pub farming_end: u64,
    /// total number of harvested $CHEDDAR
    pub total_harvested: u128,
    /// rewards accumulator: running sum of staked rewards per token.
    pub reward_acc: u128,
    /// round number when the accumulator was previously updated.
    pub reward_acc_round: u64,
    /// total amount of currently staked tokens.
    pub total_stake: u128,
    /// total number of accounts currently registered.
    pub accounts_registered: u64,
    /// Fee rate in basis points, charged from the staked tokens on withdraw.
    pub fee_rate: u128,
    /// amount of fee collected (in staking token).
    pub fee_collected: u128,
    /// Treasury address - a destination for the collected fees.
    pub treasury: String,
}

/// The contract state as mathematical values.
pub struct ContractView {
    pub owner_id: Seq<char>,
    pub cheddar: Seq<char>,
    pub staking_token: Seq<char>,
    pub is_active: bool,
    pub vaults: Map<Seq<char>, Vault>,
    pub rate: u128,
    pub farming_start: u64,
    pub farming_end: u64,
    pub total_harvested: u128,
    pub reward_acc: u128,
    pub reward_acc_round: u64,
    pub total_stake: u128,
    pub accounts_registered: u64,
    pub fee_rate: u128,
    pub fee_collected: u128,
    pub treasury: Seq<char>,
}

impl View for Contract {
    type V = ContractView;

    open spec fn view(&self) -> ContractView {
        ContractView {
            owner_id: self.owner_id@,
            cheddar: self.cheddar@,
            staking_token: self.staking_token@,
            is_active: self.is_active,
            vaults: self.vaults@,
            rate: self.rate,
            farming_start: self.farming_start,
            farming_end: self.farming_end,
            total_harvested: self.total_harvested,
            reward_acc: self.reward_acc,
            reward_acc_round: self.reward_acc_round,
            total_stake: self.total_stake,
            accounts_registered: self.accounts_registered,
            fee_rate: self.fee_rate,
            fee_collected: self.fee_collected,
            treasury: self.treasury@,
        }
    }
}

/// Fee charged when `amount` staking tokens are returned: `amount * fee_rate / 10_000`.
pub open spec fn fee_of(amount: u128, fee_rate: u128) -> int {
    amount * fee_rate / 10_000
}

impl ContractView {
    /// The round a block timestamp (nanoseconds) falls in.
    pub open spec fn round_at(self, now_ns: u64) -> u64 {
        round_number_spec(self.farming_start, self.farming_end, (now_ns / SECOND) as u64) as u64
    }

    /// The reward accumulator at `round`.
    pub open spec fn acc_at(self, round: u64) -> Option<u128> {
        next_reward_acc(self.reward_acc, self.reward_acc_round, self.rate, self.total_stake, round)
    }

    /// The state with the reward accumulator brought to `round`.
    pub open spec fn synced(self, round: u64) -> Option<Self> {
        match self.acc_at(round) {
            None => None,
            Some(a) => Some(
                if self.total_stake == 0 || a != self.reward_acc {
                    ContractView { reward_acc: a, reward_acc_round: round, ..self }
                } else {
                    self
                },
            ),
        }
    }

    /// The state synced to `round` and the vault `v` pinged with it.
    pub open spec fn ping_all(self, v: Vault, round: u64) -> Option<(Self, Vault)> {
        match self.synced(round) {
            None => None,
            Some(c) => match ping_spec(v, c.reward_acc, round) {
                None => None,
                Some((nv, _)) => Some((c, nv)),
            },
        }
    }

    /// The state after a new account registers with `staked` tokens.
    pub open spec fn with_new_account(self, a: Seq<char>) -> Self {
        ContractView {
            vaults: self.vaults.insert(a, Vault { reward_acc: self.reward_acc, staked: 0, farmed: 0 }),
            accounts_registered: (self.accounts_registered + 1) as u64,
            ..self
        }
    }

    /// Staking `amount` tokens received from `token` for `sender` at time `now`.
    pub open spec fn stake_spec(self, token: Seq<char>, sender: Seq<char>, amount: u128, now: u64) -> Result<Self, Error> {
        if !self.is_active {
            Err(Error::NotActive)
        } else if token != self.staking_token {
            Err(Error::WrongToken)
        } else if amount == 0 {
            Err(Error::ZeroAmount)
        } else if !self.vaults.contains_key(sender) {
            Err(Error::NoAccount)
        } else if self.vaults[sender].staked + amount > u128::MAX || self.total_stake + amount > u128::MAX {
            Err(Error::ArithmeticOverflow)
        } else {
            match self.ping_all(self.vaults[sender], self.round_at(now)) {
                None => Err(Error::ArithmeticOverflow),
                Some((c, nv)) => Ok(ContractView {
                    vaults: c.vaults.insert(sender, Vault { staked: (nv.staked + amount) as u128, ..nv }),
                    total_stake: (c.total_stake + amount) as u128,
                    ..c
                }),
            }
        }
    }

    /// Returning `amount` staked tokens to `user`: the fee is kept by the contract.
    pub open spec fn return_tokens_spec(self, user: String, amount: u128) -> Option<(Self, Action)> {
        let fee = fee_of(amount, self.fee_rate);
        if amount * self.fee_rate > u128::MAX || self.fee_collected + fee > u128::MAX || fee > amount {
            None
        } else {
            Some((
                ContractView { fee_collected: (self.fee_collected + fee) as u128, ..self },
                Action::ReturnTokens { user, amount, transferred: (amount - fee) as u128 },
            ))
        }
    }

    /// Minting `cheddar` rewards for `user` and returning `tokens` staked tokens.
    pub open spec fn mint_cheddar_spec(self, user: String, cheddar: u128, tokens: u128) -> Option<(Self, Seq<Action>)> {
        let mint = if cheddar != 0 { seq![Action::MintCheddar { user, amount: cheddar }] } else { seq![] };
        if tokens == 0 {
            Some((self, mint))
        } else {
            match self.return_tokens_spec(user, tokens) {
                None => None,
                Some((s, a)) => Some((s, mint.push(a))),
            }
        }
    }

    /// Closing the account of `a` at time `now`: all staked tokens and farmed
    /// Cheddar go back to the user.
    pub open spec fn close_spec(self, a: String, attached: u128, now: u64) -> Result<(Self, Seq<Action>), Error> {
        if !self.is_active {
            Err(Error::NotActive)
        } else if attached != 1 {
            Err(Error::RequiresOneYocto)
        } else if !self.vaults.contains_key(a@) {
            Err(Error::NoAccount)
        } else {
            match self.ping_all(self.vaults[a@], self.round_at(now)) {
                None => Err(Error::ArithmeticOverflow),
                Some((c, v)) => if v.staked == 0 && v.farmed == 0 {
                    Ok((
                        ContractView { vaults: c.vaults.remove(a@), ..c },
                        seq![Action::TransferNear { receiver: a, amount: STORAGE_COST }],
                    ))
                } else if c.total_stake < v.staked || c.accounts_registered == 0 {
                    Err(Error::ArithmeticOverflow)
                } else {
                    let c2 = ContractView {
                        total_stake: (c.total_stake - v.staked) as u128,
                        vaults: c.vaults.remove(a@),
                        accounts_registered: (c.accounts_registered - 1) as u64,
                        ..c
                    };
                    match c2.mint_cheddar_spec(a, v.farmed, v.staked) {
                        None => Err(Error::ArithmeticOverflow),
                        Some((c3, actions)) => Ok((c3, actions)),
                    }
                }
            }
        }
    }

    /// Unstaking `amount` tokens of `a` at time `now`; unstaking everything closes
    /// the account. Also returns the tokens left staked.
    pub open spec fn unstake_spec(self, a: String, attached: u128, amount: u128, now: u64) -> Result<(Self, Seq<Action>, u128), Error> {
        if !self.is_active {
            Err(Error::NotActive)
        } else if attached != 1 {
            Err(Error::RequiresOneYocto)
        } else if !self.vaults.contains_key(a@) {
            Err(Error::NoAccount)
        } else if amount > self.vaults[a@].staked {
            Err(Error::NotEnoughStake)
        } else if amount == self.vaults[a@].staked {
            match self.close_spec(a, attached, now) {
                Err(e) => Err(e),
                Ok((s, actions)) => Ok((s, actions, 0)),
            }
        } else {
            match self.ping_all(self.vaults[a@], self.round_at(now)) {
                None => Err(Error::ArithmeticOverflow),
                Some((c, v)) => if c.total_stake < amount {
                    Err(Error::ArithmeticOverflow)
                } else {
                    let nv = Vault { staked: (v.staked - amount) as u128, ..v };
                    let c2 = ContractView {
                        vaults: c.vaults.insert(a@, nv),
                        total_stake: (c.total_stake - amount) as u128,
                        ..c
                    };
                    match c2.return_tokens_spec(a, amount) {
                        None => Err(Error::ArithmeticOverflow),
                        Some((c3, act)) => Ok((c3, seq![act], nv.staked)),
                    }
                }
            }
        }
    }

    /// Harvesting the farmed Cheddar of `a` at time `now`.
    pub open spec fn withdraw_crop_spec(self, a: String, now: u64) -> Result<(Self, Seq<Action>), Error> {
        if !self.is_active {
            Err(Error::NotActive)
        } else if !self.vaults.contains_key(a@) {
            Err(Error::NoAccount)
        } else {
            match self.ping_all(self.vaults[a@], self.round_at(now)) {
                None => Err(Error::ArithmeticOverflow),
                Some((c, v)) => Ok((
                    ContractView { vaults: c.vaults.insert(a@, Vault { farmed: 0, ..v }), ..c },
                    if v.farmed != 0 { seq![Action::MintCheddar { user: a, amount: v.farmed }] } else { seq![] },
                )),
            }
        }
    }

    /// The state after a failed transfer or mint is rolled back into the vault of `user`.
    pub open spec fn recover_state_spec(self, user: Seq<char>, cheddar: u128, staked: u128) -> Option<Self> {
        if self.vaults.contains_key(user) {
            let v = self.vaults[user];
            if v.staked + staked > u128::MAX || v.farmed + cheddar > u128::MAX {
                None
            } else {
                Some(ContractView {
                    vaults: self.vaults.insert(user, Vault {
                        staked: (v.staked + staked) as u128,
                        farmed: (v.farmed + cheddar) as u128,
                        ..v
                    }),
                    ..self
                })
            }
        } else if self.accounts_registered == u64::MAX {
            None
        } else {
            Some(ContractView {
                vaults: self.vaults.insert(user, Vault { reward_acc: self.reward_acc, staked, farmed: cheddar }),
                accounts_registered: (self.accounts_registered + 1) as u64,
                ..self
            })
        }
    }
}

impl Contract {
    /// The vault map is well formed and the farming period is not empty.
    pub open spec fn wf(&self) -> bool {
        &&& self.vaults.wf()
        &&& self.farming_start < self.farming_end
    }

    /// Initializes the farm.
    /// * `farming_start` & `farming_end` are unix timestamps (in seconds).
    /// * `reward_rate` is the amount of yoctoCheddar farmed per round.
    /// * `fee_rate`: the fee parameter (in basis points).
    pub fn new(
        owner_id: String,
        cheddar: String,
        staked_token: String,
        farming_start: u64,
        farming_end: u64,
        reward_rate: u128,
        fee_rate: u32,
        treasury: String,
    ) -> (r: Result<Contract, Error>)
        ensures
            match r {
                Ok(c) => farming_end > farming_start && c.wf() && c@ == (ContractView {
                    owner_id: owner_id@,
                    cheddar: cheddar@,
                    staking_token: staked_token@,
                    is_active: true,
                    vaults: Map::empty(),
                    rate: reward_rate,
                    farming_start,
                    farming_end,
                    total_harvested: 0,
                    reward_acc: 0,
                    reward_acc_round: 0,
                    total_stake: 0,
                    accounts_registered: 0,
                    fee_rate: fee_rate as u128,
                    fee_collected: 0,
                    treasury: treasury@,
                }),
                Err(e) => farming_end <= farming_start && e == Error::EndNotAfterStart,
            },
    {
        if farming_end <= farming_start {
            return Err(Error::EndNotAfterStart);
        }
        Ok(Contract {
            owner_id,
            cheddar,
            staking_token: staked_token,
            is_active: true,
            vaults: AccountMap::new(),
            rate: reward_rate,
            total_harvested: 0,
            farming_start,
            farming_end,
            reward_acc: 0,
            reward_acc_round: 0,
            total_stake: 0,
            accounts_registered: 0,
            fee_rate: fee_rate as u128,
            fee_collected: 0,
            treasury,
        })
    }

    /// Farm parameters at time `now` (nanoseconds); fails when the total farmed
    /// leaves the `u128` range.
    pub fn get_contract_params(&self, now: u64) -> (r: Result<ContractParams, Error>)
        requires
            self.wf(),
        ensures
            match r {
                Ok(p) => {
                    &&& p.owner_id@ == self.owner_id@ && p.farming_token@ == self.cheddar@
                    &&& p.staked_token@ == self.staking_token@ && p.farming_rate == self.rate
                    &&& p.is_active == self.is_active && p.farming_start == self.farming_start
                    &&& p.farming_end == self.farming_end && p.total_staked == self.total_stake
                    &&& p.total_farmed == self@.round_at(now) * self.rate
                    &&& p.fee_rate == self.fee_rate && p.accounts_registered == self.accounts_registered
                },
                Err(e) => e == Error::ArithmeticOverflow && self@.round_at(now) * self.rate > u128::MAX,
            },
    {
        let r = self.current_round(now);
        let total_farmed = match (r as u128).checked_mul(self.rate) {
            None => return Err(Error::ArithmeticOverflow),
            Some(t) => t,
        };
        Ok(ContractParams {
            owner_id: self.owner_id.clone(),
            farming_token: self.cheddar.clone(),
            staked_token: self.staking_token.clone(),
            farming_rate: self.rate,
            is_active: self.is_active,
            farming_start: self.farming_start,
            farming_end: self.farming_end,
            total_staked: self.total_stake,
            total_farmed,
            fee_rate: self.fee_rate,
            accounts_registered: self.accounts_registered,
        })
    }

    /// Returns the amount of staked tokens, the farmed Cheddar and the
    /// timestamp of the current round, at time `now` (nanoseconds).
    /// An unregistered account has `(0, 0, 0)`.
    pub fn status(&self, account_id: &String, now: u64) -> (r: Result<(u128, u128, u64), Error>)
        requires
            self.wf(),
        ensures
            ({
                let round = self@.round_at(now);
                let r0: int = if round > 1 { round - 1 } else { 0 };
                if !self@.vaults.contains_key(account_id@) {
                    r == Ok::<(u128, u128, u64), Error>((0, 0, 0))
                } else {
                    match self@.acc_at(round) {
                        None => r == Err::<(u128, u128, u64), Error>(Error::ArithmeticOverflow),
                        Some(acc) => match ping_spec(self@.vaults[account_id@], acc, round) {
                            None => r == Err::<(u128, u128, u64), Error>(Error::ArithmeticOverflow),
                            Some((_, farmed)) => if self.farming_start + r0 * ROUND > u64::MAX {
                                r == Err::<(u128, u128, u64), Error>(Error::ArithmeticOverflow)
                            } else {
                                r == Ok::<(u128, u128, u64), Error>((
                                    self@.vaults[account_id@].staked,
                                    farmed,
                                    (self.farming_start + r0 * ROUND) as u64,
                                ))
                            },
                        },
                    }
                }
            }),
    {
        match self.vaults.get(account_id) {
            None => Ok((0, 0, 0)),
            Some(v) => {
                let mut v = *v;
                let r = self.current_round(now);
                let acc = match self.compute_reward_acc(r) {
                    None => return Err(Error::ArithmeticOverflow),
                    Some(a) => a,
                };
                let farmed = match v.ping(acc, r) {
                    None => return Err(Error::ArithmeticOverflow),
                    Some(f) => f,
                };
                // round starts from 1 when now >= farming_start
                let r0: u64 = if r > 1 { r - 1 } else { 0 };
                let ts = match r0.checked_mul(ROUND) {
                    None => return Err(Error::ArithmeticOverflow),
                    Some(x) => match self.farming_start.checked_add(x) {
                        None => return Err(Error::ArithmeticOverflow),
                        Some(t) => t,
                    },
                };
                Ok((v.staked, farmed, ts))
            },
        }
    }

    /// Unstakes `amount` tokens and transfers them back to the user (minus the
    /// fee). Unstaking everything closes the account. Returns the amount left
    /// staked, 0 when the account closes. Requires 1 yoctoNEAR attached.
    pub fn unstake(&mut self, ctx: &CallContext, amount: u128) -> (r: Result<(u128, Vec<Action>), Error>)
        requires
            old(self).wf(),
        ensures
            final(self).wf(),
            match old(self)@.unstake_spec(ctx.predecessor, ctx.attached_deposit, amount, ctx.block_timestamp) {
                Ok((s, acts, left)) => r matches Ok((l, actions)) && l == left && actions@ == acts && final(self)@ == s,
                Err(e) => r == Err::<(u128, Vec<Action>), Error>(e) && final(self)@ == old(self)@,
            },
    {
        if !self.is_active {
            return Err(Error::NotActive);
        }
        if ctx.attached_deposit != ONE_YOCTO {
            return Err(Error::RequiresOneYocto);
        }
        let a = ctx.predecessor.clone();
        let mut v = match self.get_vault(&a) {
            Ok(v) => v,
            Err(e) => return Err(e),
        };
        if amount > v.staked {
            return Err(Error::NotEnoughStake);
        }
        if amount == v.staked {
            // unstake all => close -- simplify UX
            return match self.close(ctx) {
                Ok(actions) => Ok((0, actions)),
                Err(e) => Err(e),
            };
        }
        let pre_acc = self.reward_acc;
        let pre_acc_round = self.reward_acc_round;
        let round = self.current_round(ctx.block_timestamp);
        if !self.ping_all(&mut v, round) {
            return Err(Error::ArithmeticOverflow);
        }
        if self.total_stake < amount {
            self.restore_acc(pre_acc, pre_acc_round);
            return Err(Error::ArithmeticOverflow);
        }
        match self.return_tokens_check(amount) {
            None => {
                self.restore_acc(pre_acc, pre_acc_round);
                return Err(Error::ArithmeticOverflow);
            },
            Some(_) => {},
        }
        v.staked = v.staked - amount;
        self.total_stake = self.total_stake - amount;
        self.vaults.insert(a.clone(), v);
        let action = self.return_tokens(a, amount);
        let mut actions = Vec::new();
        actions.push(action);
        Ok((v.staked, actions))
    }

    /// Puts the reward accumulator back to a previous reading.
    fn restore_acc(&mut self, acc: u128, acc_round: u64)
        requires
            old(self).wf(),
        ensures
            final(self).wf(),
            final(self)@ == (ContractView { reward_acc: acc, reward_acc_round: acc_round, ..old(self)@ }),
    {
        self.reward_acc = acc;
        self.reward_acc_round = acc_round;
    }

    /// Unstakes everything and closes the account: all staked tokens and
    /// farmed Cheddar go back to the user; an empty account only gets its
    /// storage deposit back. Requires 1 yoctoNEAR attached.
    pub fn close(&mut self, ctx: &CallContext) -> (r: Result<Vec<Action>, Error>)
        requires
            old(self).wf(),
        ensures
            final(self).wf(),
            match old(self)@.close_spec(ctx.predecessor, ctx.attached_deposit, ctx.block_timestamp) {
                Ok((s, acts)) => r matches Ok(actions) && actions@ == acts && final(self)@ == s,
                Err(e) => r == Err::<Vec<Action>, Error>(e) && final(self)@ == old(self)@,
            },
    {
        if !self.is_active {
            return Err(Error::NotActive);
        }
        if ctx.attached_deposit != ONE_YOCTO {
            return Err(Error::RequiresOneYocto);
        }
        let a = ctx.predecessor.clone();
        let mut v = match self.get_vault(&a) {
            Ok(v) => v,
            Err(e) => return Err(e),
        };
        let pre_acc = self.reward_acc;
        let pre_acc_round = self.reward_acc_round;
        let round = self.current_round(ctx.block_timestamp);
        if !self.ping_all(&mut v, round) {
            return Err(Error::ArithmeticOverflow);
        }
        // if the user doesn't stake anything and has no rewards then we can make a
        // shortcut and remove the account and return the storage deposit.
        if v.staked == 0 && v.farmed == 0 {
            self.vaults.remove(&a);
            let mut actions = Vec::new();
            actions.push(Action::TransferNear { receiver: a, amount: STORAGE_COST });
            return Ok(actions);
        }
        if self.total_stake < v.staked || self.accounts_registered == 0 {
            self.restore_acc(pre_acc, pre_acc_round);
            return Err(Error::ArithmeticOverflow);
        }
        if v.staked != 0 {
            match self.return_tokens_check(v.staked) {
                None => {
                    self.restore_acc(pre_acc, pre_acc_round);
                    return Err(Error::ArithmeticOverflow);
                },
                Some(_) => {},
            }
        }
        self.total_stake = self.total_stake - v.staked;
        // the vault is removed; a callback recovers it if minting fails
        self.vaults.remove(&a);
        self.accounts_registered = self.accounts_registered - 1;
        Ok(self.mint_cheddar(a, v.farmed, v.staked))
    }

    /// Withdraws all farmed Cheddar to the user; the account stays open.
    pub fn withdraw_crop(&mut self, ctx: &CallContext) -> (r: Result<Vec<Action>, Error>)
        requires
            old(self).wf(),
        ensures
            final(self).wf(),
            match old(self)@.withdraw_crop_spec(ctx.predecessor, ctx.block_timestamp) {
                Ok((s, acts)) => r matches Ok(actions) && actions@ == acts && final(self)@ == s,
                Err(e) => r == Err::<Vec<Action>, Error>(e) && final(self)@ == old(self)@,
            },
    {
        if !self.is_active {
            return Err(Error::NotActive);
        }
        let a = ctx.predecessor.clone();
        let mut v = match self.get_vault(&a) {
            Ok(v) => v,
            Err(e) => return Err(e),
        };
        let round = self.current_round(ctx.block_timestamp);
        if !self.ping_all(&mut v, round) {
            return Err(Error::ArithmeticOverflow);
        }
        let rewards = v.farmed;
        // zero the rewards to block double-withdraw-cheddar
        v.farmed = 0;
        self.vaults.insert(a.clone(), v);
        Ok(self.mint_cheddar(a, rewards, 0))
    }

    /// Returns the amount of collected fees which are not withdrawn yet.
    pub fn get_collected_fee(&self) -> (r: u128)
        ensures
            r == self.fee_collected,
    {
        self.fee_collected
    }

    /// Withdraws all collected fees to the treasury. Fails when nothing was collected.
    pub fn withdraw_fee(&mut self) -> (r: Result<Vec<Action>, Error>)
        requires
            old(self).wf(),
        ensures
            final(self).wf(),
            match r {
                Ok(actions) => old(self).fee_collected > 0
                    && final(self)@ == (ContractView { fee_collected: 0, ..old(self)@ })
                    && actions@ == seq![Action::TransferFee { treasury: old(self).treasury, amount: old(self).fee_collected }],
                Err(e) => old(self).fee_collected == 0 && e == Error::ZeroCollectedFees && final(self)@ == old(self)@,
            },
    {
        if self.fee_collected == 0 {
            return Err(Error::ZeroCollectedFees);
        }
        let fee = self.fee_collected;
        self.fee_collected = 0;
        let mut actions = Vec::new();
        actions.push(Action::TransferFee { treasury: self.treasury.clone(), amount: fee });
        Ok(actions)
    }

    /// Opens or closes the contract. Owner only.
    pub fn set_active(&mut self, ctx: &CallContext, is_open: bool) -> (r: Result<(), Error>)
        requires
            old(self).wf(),
        ensures
            final(self).wf(),
            match r {
                Ok(_) => ctx.predecessor@ == old(self).owner_id@
                    && final(self)@ == (ContractView { is_active: is_open, ..old(self)@ }),
                Err(e) => ctx.predecessor@ != old(self).owner_id@ && e == Error::NotOwner
                    && final(self)@ == old(self)@,
            },
    {
        if ctx.predecessor != self.owner_id {
            return Err(Error::NotOwner);
        }
        self.is_active = is_open;
        Ok(())
    }

    /// Whether `return_tokens(amount)` stays within the `u128` range.
    fn return_tokens_check(&self, amount: u128) -> (r: Option<u128>)
        ensures
            r is Some <==> self@.return_tokens_spec(self.treasury, amount) is Some,
            r matches Some(fee) ==> fee == fee_of(amount, self.fee_rate),
    {
        match amount.checked_mul(self.fee_rate) {
            None => None,
            Some(x) => {
                let fee = x / 10_000;
                if fee > amount {
                    return None;
                }
                match self.fee_collected.checked_add(fee) {
                    None => None,
                    Some(_) => Some(fee),
                }
            },
        }
    }

    /// Charges the fee and asks to transfer the staked tokens back to the user.
    fn return_tokens(&mut self, user: String, amount: u128) -> (r: Action)
        requires
            old(self).wf(),
            old(self)@.return_tokens_spec(user, amount) is Some,
        ensures
            final(self).wf(),
            old(self)@.return_tokens_spec(user, amount) == Some((final(self)@, r)),
    {
        let fee = amount * self.fee_rate / 10_000;
        self.fee_collected = self.fee_collected + fee;
        Action::ReturnTokens { user, amount, transferred: amount - fee }
    }

    /// Callback of the return of staked tokens: on failure the tokens are put
    /// back into the user's vault (recreated if it was closed).
    pub fn return_tokens_callback(&mut self, user: &String, amount: u128, result: &PromiseResult) -> (r: Result<(), Error>)
        requires
            old(self).wf(),
            !(result is NotReady),
        ensures
            final(self).wf(),
            match result {
                PromiseResult::Failed => match old(self)@.recover_state_spec(user@, 0, amount) {
                    Some(s) => r is Ok && final(self)@ == s,
                    None => r == Err::<(), Error>(Error::ArithmeticOverflow) && final(self)@ == old(self)@,
                },
                _ => r is Ok && final(self)@ == old(self)@,
            },
    {
        match result {
            PromiseResult::Failed => self.recover_state(user, 0, amount),
            _ => Ok(()),
        }
    }

    /// Asks to mint `cheddar_amount` rewards for the user and to return `tokens`
    /// staked tokens. Callers set the vault rewards to zero first: the
    /// callbacks re-add them on failure.
    fn mint_cheddar(&mut self, a: String, cheddar_amount: u128, tokens: u128) -> (r: Vec<Action>)
        requires
            old(self).wf(),
            old(self)@.mint_cheddar_spec(a, cheddar_amount, tokens) is Some,
        ensures
            final(self).wf(),
            old(self)@.mint_cheddar_spec(a, cheddar_amount, tokens) == Some((final(self)@, r@)),
    {
        let mut actions = Vec::new();
        if cheddar_amount != 0 {
            actions.push(Action::MintCheddar { user: a.clone(), amount: cheddar_amount });
        }
        if tokens != 0 {
            let act = self.return_tokens(a, tokens);
            actions.push(act);
        }
        actions
    }

    /// Callback of the Cheddar mint: counts the harvest on success, puts the
    /// rewards back into the user's vault on failure.
    pub fn mint_callback(&mut self, user: &String, amount: u128, promise_results_count: u64, result: &PromiseResult) -> (r: Result<(), Error>)
        requires
            old(self).wf(),
            !(result is NotReady),
        ensures
            final(self).wf(),
            if promise_results_count > 2 {
                r == Err::<(), Error>(Error::UnexpectedPromiseResults) && final(self)@ == old(self)@
            } else {
                match result {
                    PromiseResult::Failed => match old(self)@.recover_state_spec(user@, amount, 0) {
                        Some(s) => r is Ok && final(self)@ == s,
                        None => r == Err::<(), Error>(Error::ArithmeticOverflow) && final(self)@ == old(self)@,
                    },
                    _ => if old(self).total_harvested + amount > u128::MAX {
                        r == Err::<(), Error>(Error::ArithmeticOverflow) && final(self)@ == old(self)@
                    } else {
                        r is Ok && final(self)@ == (ContractView {
                            total_harvested: (old(self).total_harvested + amount) as u128,
                            ..old(self)@
                        })
                    },
                }
            },
    {
        if promise_results_count > 2 {
            return Err(Error::UnexpectedPromiseResults);
        }
        match result {
            PromiseResult::Failed => self.recover_state(user, amount, 0),
            _ => match self.total_harvested.checked_add(amount) {
                None => Err(Error::ArithmeticOverflow),
                Some(t) => {
                    self.total_harvested = t;
                    Ok(())
                },
            },
        }
    }

    /// Puts `cheddar` rewards and `staked` tokens back into the vault of `user`,
    /// recreating it if it was closed.
    fn recover_state(&mut self, user: &String, cheddar: u128, staked: u128) -> (r: Result<(), Error>)
        requires
            old(self).wf(),
        ensures
            final(self).wf(),
            match old(self)@.recover_state_spec(user@, cheddar, staked) {
                Some(s) => r is Ok && final(self)@ == s,
                None => r == Err::<(), Error>(Error::ArithmeticOverflow) && final(self)@ == old(self)@,
            },
    {
        let v = match self.vaults.get(user) {
            Some(v2) => {
                let mut v = *v2;
                match (v.staked.checked_add(staked), v.farmed.checked_add(cheddar)) {
                    (Some(s), Some(f)) => {
                        v.staked = s;
                        v.farmed = f;
                    },
                    _ => return Err(Error::ArithmeticOverflow),
                }
                v
            },
            None => {
                // the vault was closed by another transaction: recreate it
                if self.accounts_registered == u64::MAX {
                    return Err(Error::ArithmeticOverflow);
                }
                self.accounts_registered = self.accounts_registered + 1;
                Vault { reward_acc: self.reward_acc, staked, farmed: cheddar }
            },
        };
        self.vaults.insert(user.clone(), v);
        Ok(())
    }

    /// Returns the round number at block time `now` (nanoseconds): 0 up to
    /// `farming_start`, then one more per `ROUND` seconds, stopping at
    /// `farming_end`.
    pub fn current_round(&self, now: u64) -> (r: u64)
        requires
            self.wf(),
        ensures
            r == self@.round_at(now),
    {
        round_number(self.farming_start, self.farming_end, now / SECOND)
    }

    /// Creates a new account with `staked` tokens.
    fn create_account(&mut self, user: String, staked: u128)
        requires
            old(self).wf(),
            old(self).accounts_registered < u64::MAX,
        ensures
            final(self).wf(),
            final(self)@ == (ContractView {
                vaults: old(self)@.vaults.insert(user@, Vault { reward_acc: old(self).reward_acc, staked, farmed: 0 }),
                accounts_registered: (old(self).accounts_registered + 1) as u64,
                ..old(self)@
            }),
    {
        self.vaults.insert(user, Vault { reward_acc: self.reward_acc, staked, farmed: 0 });
        self.accounts_registered = self.accounts_registered + 1;
    }
}

} // verus!
