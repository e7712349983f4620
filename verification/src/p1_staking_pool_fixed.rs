//! The fixed-emission NEAR staking pool: users stake NEAR and farm Cheddar.
//! Every round of the farming period `emission_rate` yoctoCheddar are farmed,
//! shared by the stakers of that round in proportion to their stake. The pool
//! keeps a reward accumulator: the Cheddar farmed per staked yoctoNEAR since
//! the farming started, scaled by `ACC_SCALE`; a vault farms its stake times
//! the growth of the accumulator since its last ping. Rounds and the minimum
//! stake are those of the dynamic pool.
use crate::account_map::AccountMap;
use crate::near::{CallContext, PromiseResult};
use crate::p1_staking_pool_dyn::constants::{MIN_STAKE, ONE_YOCTO, ROUND, SEC_PER_ROUND};
use crate::p1_staking_pool_dyn::util::{current_round, round_from_unix, round_to_unix};
use crate::u256::{checked_mul_div, mul_div_spec};
use vstd::prelude::*;

verus! {

/// Scale of the reward accumulator.
pub const ACC_SCALE: u128 = 1_000_000_000_000_000_000_000_000;

/// Why a call is refused. A refused call fails as a whole (on chain it
/// panics): calls return the reason and leave the state as it was.
#[derive(Clone, Copy, PartialEq, Eq, Debug, Structural)]
pub enum Error {
    /// "can only be called by the owner"
    NotOwner,
    /// "Farming is not open"
    NotOpen,
    /// Less than `MIN_STAKE` attached ("min stake amount is 0.01 NEAR").
    MinStake,
    /// An unstake would leave less than `MIN_STAKE` staked.
    MinBalance,
    /// The caller has no vault.
    NoAccount,
    /// More is unstaked than is staked.
    NotEnoughStake,
    /// "Requires attached deposit of exactly 1 yoctoNEAR"
    RequiresOneYocto,
    /// A callback did not get exactly one promise result.
    UnexpectedPromiseResults,
    /// A value leaves the range of its type (the computation panics there).
    ArithmeticOverflow,
}

/// What a call asks the runtime to do.
#[derive(Clone, PartialEq, Eq, Debug)]
pub enum Action {
    /// Send `amount` yoctoNEAR to `receiver`.
    TransferNear { receiver: String, amount: u128 },
    /// `ft_transfer` of `amount` Cheddar to `receiver` (1 yoctoNEAR attached),
    /// then `withdraw_callback(receiver, amount)`.
    TransferCheddar { receiver: String, amount: u128 },
}

/// Pool parameters shown to users; farming bounds in unix seconds.
pub struct ContractParams {
    pub owner_id: String,
    pub token_contract: String,
    pub emission_rate: u128,
    pub is_open: bool,
    pub farming_start: u64,
    pub farming_end: u64,
}

/// A user's stake and farmed Cheddar.
#[derive(Clone, Copy, PartialEq, Eq, Debug)]
pub struct Vault {
    /// the pool's reward accumulator at the last ping
    pub reward_acc: u128,
    /// amount of NEAR locked in this vault
    pub staked: u128,
    /// farmed Cheddar not sent yet
    pub rewards: u128,
}

impl View for Vault {
    type V = Vault;

    open spec fn view(&self) -> Vault {
        *self
    }
}

pub struct Contract {
    pub owner_id: String,
    /// farm token
    pub cheddar_id: String,
    /// if farming is opened
    pub is_active: bool,
    /// user vaults
    pub vaults: AccountMap<Vault>,
    /// amount of $CHEDDAR farmed each round, shared by the stakers in
    /// proportion to their NEAR stake
    pub emission_rate: u128,
    pub total_stake: u128,
    /// total stake accumulated for the next round
    pub stake_acc: u128,
    /// round number when the farming starts
    pub farming_start: u64,
    /// round number when the farming ends (first round with no farming)
    pub farming_end: u64,
    /// Cheddar farmed per staked yoctoNEAR, times `ACC_SCALE`
    pub reward_acc: u128,
    /// the farming round the accumulator was last brought to
    pub reward_acc_round: u64,
}

/// The pool state as mathematical values.
pub struct PoolView {
    pub owner_id: Seq<char>,
    pub cheddar_id: Seq<char>,
    pub is_active: bool,
    pub vaults: Map<Seq<char>, Vault>,
    pub emission_rate: u128,
    pub total_stake: u128,
    pub stake_acc: u128,
    pub farming_start: u64,
    pub farming_end: u64,
    pub reward_acc: u128,
    pub reward_acc_round: u64,
}

impl View for Contract {
    type V = PoolView;

    open spec fn view(&self) -> PoolView {
        PoolView {
            owner_id: self.owner_id@,
            cheddar_id: self.cheddar_id@,
            is_active: self.is_active,
            vaults: self.vaults@,
            emission_rate: self.emission_rate,
            total_stake: self.total_stake,
            stake_acc: self.stake_acc,
            farming_start: self.farming_start,
            farming_end: self.farming_end,
            reward_acc: self.reward_acc,
            reward_acc_round: self.reward_acc_round,
        }
    }
}

/// The vault brought to the accumulator reading `acc`: it farms its stake
/// times the growth of the accumulator; `None` when the reward leaves the
/// `u128` range.
pub open spec fn vault_ping_spec(v: Vault, acc: u128) -> Option<Vault> {
    if acc <= v.reward_acc {
        Some(v)
    } else {
        let f = mul_div_spec(v.staked as int, acc - v.reward_acc, ACC_SCALE as int);
        if f > u128::MAX || v.rewards + f > u128::MAX {
            None
        } else {
            Some(Vault { reward_acc: acc, rewards: (v.rewards + f) as u128, ..v })
        }
    }
}

/// Computes `vault_ping_spec`.
fn vault_ping(v: Vault, acc: u128) -> (r: Option<Vault>)
    ensures
        r == vault_ping_spec(v, acc),
{
    if acc <= v.reward_acc {
        return Some(v);
    }
    match checked_mul_div(v.staked, acc - v.reward_acc, ACC_SCALE) {
        None => None,
        Some(f) => match v.rewards.checked_add(f) {
            None => None,
            Some(t) => Some(Vault { reward_acc: acc, rewards: t, ..v }),
        },
    }
}

/// A staker holding `staked` of the `total` stake farms, over rounds that
/// emit `x`, at most `x`; and more stake never farms less.
pub proof fn law_share_within_emission(x: u128, total: u128, s1: u128, s2: u128)
    requires
        total > 0,
        s1 <= s2 <= total,
    ensures
        ({
            let inc = mul_div_spec(x as int, ACC_SCALE as int, total as int);
            &&& mul_div_spec(s2 as int, inc, ACC_SCALE as int) <= x
            &&& mul_div_spec(s1 as int, inc, ACC_SCALE as int) <= mul_div_spec(s2 as int, inc, ACC_SCALE as int)
        }),
{
    let sc = ACC_SCALE as int;
    let y = x * sc;
    let inc = y / (total as int);
    assert(y >= 0) by (nonlinear_arith) requires x >= 0, sc > 0, y == x * sc;
    vstd::arithmetic::div_mod::lemma_div_pos_is_pos(y, total as int);
    assert(inc * total <= y) by {
        vstd::arithmetic::div_mod::lemma_fundamental_div_mod(y, total as int);
        vstd::arithmetic::div_mod::lemma_mod_bound(y, total as int);
    }
    assert(s1 * inc <= s2 * inc && s2 * inc <= y) by (nonlinear_arith)
        requires s1 <= s2, s2 <= total, inc >= 0, inc * total <= y, s1 >= 0;
    vstd::arithmetic::div_mod::lemma_div_is_ordered(s2 * inc, y, sc);
    vstd::arithmetic::div_mod::lemma_div_is_ordered(s1 * inc, s2 * inc, sc);
    vstd::arithmetic::div_mod::lemma_div_multiples_vanish(x as int, sc);
    assert(x * sc == sc * x) by (nonlinear_arith);
}

impl PoolView {
    /// The farming round of block round `round`: clamped to the farming period.
    pub open spec fn farm_round(self, round: u64) -> u64 {
        if round < self.farming_start {
            self.farming_start
        } else if round > self.farming_end {
            self.farming_end
        } else {
            round
        }
    }

    /// The accumulator at block round `round`: each farming round since the
    /// last update adds `emission_rate * ACC_SCALE / total_stake` (nothing
    /// while nothing is staked). `None` when a value leaves the `u128` range.
    pub open spec fn acc_at(self, round: u64) -> Option<u128> {
        let r = self.farm_round(round);
        if r <= self.reward_acc_round || self.total_stake == 0 {
            Some(self.reward_acc)
        } else {
            let x = (r - self.reward_acc_round) * self.emission_rate;
            if x > u128::MAX {
                None
            } else {
                let inc = mul_div_spec(x, ACC_SCALE as int, self.total_stake as int);
                if self.reward_acc + inc > u128::MAX {
                    None
                } else {
                    Some((self.reward_acc + inc) as u128)
                }
            }
        }
    }

    /// The state with the accumulator brought to block round `round`.
    pub open spec fn synced(self, round: u64) -> Option<Self> {
        match self.acc_at(round) {
            None => None,
            Some(a) => Some(PoolView {
                reward_acc: a,
                reward_acc_round: if self.farm_round(round) > self.reward_acc_round { self.farm_round(round) } else { self.reward_acc_round },
                ..self
            }),
        }
    }

    /// The state synced at block time `now` (nanoseconds) and the vault `v`
    /// pinged with it.
    pub open spec fn ping_at(self, v: Vault, now: u64) -> Option<(Self, Vault)> {
        match self.synced(now / ROUND) {
            None => None,
            Some(c) => match vault_ping_spec(v, c.reward_acc) {
                None => None,
                Some(nv) => Some((c, nv)),
            },
        }
    }

    /// Staking `amount` NEAR for `a` at block time `now`: returns the new
    /// state and the stake of `a`.
    pub open spec fn stake_spec(self, a: Seq<char>, amount: u128, now: u64) -> Result<(Self, u128), Error> {
        if !self.is_active {
            Err(Error::NotOpen)
        } else if amount < MIN_STAKE {
            Err(Error::MinStake)
        } else if self.total_stake + amount > u128::MAX {
            Err(Error::ArithmeticOverflow)
        } else if self.vaults.contains_key(a) {
            match self.ping_at(self.vaults[a], now) {
                None => Err(Error::ArithmeticOverflow),
                Some((c, nv)) => if nv.staked + amount > u128::MAX {
                    Err(Error::ArithmeticOverflow)
                } else {
                    let v2 = Vault { staked: (nv.staked + amount) as u128, ..nv };
                    Ok((PoolView {
                        vaults: c.vaults.insert(a, v2),
                        total_stake: (c.total_stake + amount) as u128,
                        ..c
                    }, v2.staked))
                },
            }
        } else {
            match self.synced(now / ROUND) {
                None => Err(Error::ArithmeticOverflow),
                Some(c) => Ok((PoolView {
                    vaults: c.vaults.insert(a, Vault { reward_acc: c.reward_acc, staked: amount, rewards: 0 }),
                    total_stake: (c.total_stake + amount) as u128,
                    ..c
                }, amount)),
            }
        }
    }

    /// Closing the account of `a` at block time `now`: its NEAR goes back and
    /// its rewards are sent. Returns the new state, the NEAR sent and the
    /// rewards sent.
    pub open spec fn close_spec(self, a: Seq<char>, now: u64) -> Result<(Self, u128, u128), Error> {
        if !self.vaults.contains_key(a) {
            Err(Error::NoAccount)
        } else {
            match self.ping_at(self.vaults[a], now) {
                None => Err(Error::ArithmeticOverflow),
                Some((c, v)) => if c.total_stake < v.staked {
                    Err(Error::ArithmeticOverflow)
                } else {
                    Ok((PoolView {
                        vaults: c.vaults.remove(a),
                        total_stake: (c.total_stake - v.staked) as u128,
                        ..c
                    }, v.staked, v.rewards))
                },
            }
        }
    }
}

impl Contract {
    /// The vault map is well formed.
    pub open spec fn wf(&self) -> bool {
        self.vaults.wf()
    }

    /// Computes `acc_at`.
    fn acc_now(&self, round: u64) -> (r: Option<u128>)
        ensures
            r == self@.acc_at(round),
    {
        let r = if round < self.farming_start {
            self.farming_start
        } else if round > self.farming_end {
            self.farming_end
        } else {
            round
        };
        if r <= self.reward_acc_round || self.total_stake == 0 {
            return Some(self.reward_acc);
        }
        let rounds = (r - self.reward_acc_round) as u128;
        match rounds.checked_mul(self.emission_rate) {
            None => None,
            Some(x) => match checked_mul_div(x, ACC_SCALE, self.total_stake) {
                None => None,
                Some(inc) => self.reward_acc.checked_add(inc),
            },
        }
    }

    /// Brings the accumulator to block round `round`, given its value there.
    fn commit_acc(&mut self, acc: u128, round: u64)
        requires
            old(self).wf(),
            old(self)@.acc_at(round) == Some(acc),
        ensures
            final(self).wf(),
            Some(final(self)@) == old(self)@.synced(round),
    {
        let r = if round < self.farming_start {
            self.farming_start
        } else if round > self.farming_end {
            self.farming_end
        } else {
            round
        };
        self.reward_acc = acc;
        if r > self.reward_acc_round {
            self.reward_acc_round = r;
        }
    }

    /// Initializes the pool; `farming_start` and `farming_end` are unix
    /// timestamps, `emission_rate` is yoctoCheddar per round.
    pub fn new(owner_id: String, cheddar_id: String, emission_rate: u128, farming_start: u64, farming_end: u64) -> (r: Contract)
        ensures
            r.wf(),
            r@ == (PoolView {
                owner_id: owner_id@,
                cheddar_id: cheddar_id@,
                is_active: true,
                vaults: Map::empty(),
                emission_rate,
                total_stake: 0,
                stake_acc: 0,
                farming_start: farming_start,
                farming_end: farming_end,
                reward_acc: 0,
                reward_acc_round: farming_start,
            }),
    {
        let start = round_from_unix(farming_start);
        let end = round_from_unix(farming_end);
        Contract {
            owner_id,
            cheddar_id,
            is_active: true,
            vaults: AccountMap::new(),
            emission_rate,
            total_stake: 0,
            stake_acc: 0,
            farming_start: start,
            farming_end: end,
            reward_acc: 0,
            reward_acc_round: start,
        }
    }

    /// Opens or closes the farming. Owner only.
    pub fn set_active(&mut self, ctx: &CallContext, is_open: bool) -> (r: Result<(), Error>)
        requires
            old(self).wf(),
        ensures
            final(self).wf(),
            ctx.predecessor@ != old(self)@.owner_id ==> r == Err::<(), Error>(Error::NotOwner) && final(self)@ == old(self)@,
            ctx.predecessor@ == old(self)@.owner_id ==> r == Ok::<(), Error>(()) && final(self)@ == (PoolView { is_active: is_open, ..old(self)@ }),
    {
        if ctx.predecessor != self.owner_id {
            return Err(Error::NotOwner);
        }
        self.is_active = is_open;
        Ok(())
    }

    /// The pool parameters, farming bounds in unix seconds.
    pub fn get_contract_params(&self) -> (r: ContractParams)
        ensures
            r.owner_id@ == self.owner_id@,
            r.token_contract@ == self.cheddar_id@,
            r.emission_rate == self.emission_rate,
            r.is_open == self.is_active,
            r.farming_start == self.farming_start / SEC_PER_ROUND,
            r.farming_end == self.farming_end / SEC_PER_ROUND,
    {
        ContractParams {
            owner_id: self.owner_id.clone(),
            token_contract: self.cheddar_id.clone(),
            emission_rate: self.emission_rate,
            is_open: self.is_active,
            farming_start: round_to_unix(self.farming_start),
            farming_end: round_to_unix(self.farming_end),
        }
    }

    /// Staked NEAR and farmed Cheddar of `account_id` at block time `now`,
    /// and the current round as a unix time; zeros for an unknown account.
    pub fn status(&self, account_id: &String, now: u64) -> (r: Result<(u128, u128, u64), Error>)
        requires
            self.wf(),
        ensures
            !self@.vaults.contains_key(account_id@) ==> r == Ok::<(u128, u128, u64), Error>((0, 0, 0)),
            self@.vaults.contains_key(account_id@) ==> match self@.ping_at(self@.vaults[account_id@], now) {
                None => r == Err::<(u128, u128, u64), Error>(Error::ArithmeticOverflow),
                Some((_, v)) => r == Ok::<(u128, u128, u64), Error>((self@.vaults[account_id@].staked, v.rewards, ((now / ROUND) / SEC_PER_ROUND) as u64)),
            },
    {
        match self.vaults.get(account_id) {
            None => Ok((0, 0, 0)),
            Some(v0) => {
                let v = *v0;
                let round = current_round(now);
                let acc = match self.acc_now(round) {
                    None => return Err(Error::ArithmeticOverflow),
                    Some(a) => a,
                };
                match vault_ping(v, acc) {
                    None => Err(Error::ArithmeticOverflow),
                    Some(nv) => Ok((v.staked, nv.rewards, round_to_unix(round))),
                }
            },
        }
    }

    /// Stakes the attached NEAR; returns the caller's stake. The farming must
    /// be open and at least `MIN_STAKE` attached.
    pub fn stake(&mut self, ctx: &CallContext) -> (r: Result<u128, Error>)
        requires
            old(self).wf(),
        ensures
            final(self).wf(),
            match old(self)@.stake_spec(ctx.predecessor@, ctx.attached_deposit, ctx.block_timestamp) {
                Err(e) => r == Err::<u128, Error>(e) && final(self)@ == old(self)@,
                Ok((s, x)) => r == Ok::<u128, Error>(x) && final(self)@ == s,
            },
    {
        if !self.is_active {
            return Err(Error::NotOpen);
        }
        let amount = ctx.attached_deposit;
        if amount < MIN_STAKE {
            return Err(Error::MinStake);
        }
        let total = match self.total_stake.checked_add(amount) {
            None => return Err(Error::ArithmeticOverflow),
            Some(t) => t,
        };
        let aid = &ctx.predecessor;
        let round = current_round(ctx.block_timestamp);
        let acc = match self.acc_now(round) {
            None => return Err(Error::ArithmeticOverflow),
            Some(a) => a,
        };
        let vault = match self.vaults.get(aid) {
            Some(v0) => {
                let nv = match vault_ping(*v0, acc) {
                    None => return Err(Error::ArithmeticOverflow),
                    Some(nv) => nv,
                };
                let staked = match nv.staked.checked_add(amount) {
                    None => return Err(Error::ArithmeticOverflow),
                    Some(s) => s,
                };
                Vault { staked, ..nv }
            },
            None => Vault { reward_acc: acc, staked: amount, rewards: 0 },
        };
        self.commit_acc(acc, round);
        self.vaults.insert(aid.clone(), vault);
        self.total_stake = total;
        Ok(vault.staked)
    }

    /// Unstakes everything and closes the caller's account: the staked NEAR
    /// goes back and the farmed Cheddar is sent. Returns the farmed Cheddar
    /// and the actions. Requires 1 yoctoNEAR.
    pub fn close(&mut self, ctx: &CallContext) -> (r: Result<(u128, Vec<Action>), Error>)
        requires
            old(self).wf(),
        ensures
            final(self).wf(),
            ctx.attached_deposit != ONE_YOCTO ==> (r matches Err(e) && e == Error::RequiresOneYocto && final(self)@ == old(self)@),
            ctx.attached_deposit == ONE_YOCTO ==> match old(self)@.close_spec(ctx.predecessor@, ctx.block_timestamp) {
                Err(e) => r matches Err(x) && x == e && final(self)@ == old(self)@,
                Ok((s, near, cheddar)) => r matches Ok((x, acts)) && x == cheddar && final(self)@ == s && acts@ == seq![
                    Action::TransferNear { receiver: ctx.predecessor, amount: near },
                    Action::TransferCheddar { receiver: ctx.predecessor, amount: cheddar },
                ],
            },
    {
        if ctx.attached_deposit != ONE_YOCTO {
            return Err(Error::RequiresOneYocto);
        }
        let aid = &ctx.predecessor;
        let v = match self.vaults.get(aid) {
            None => return Err(Error::NoAccount),
            Some(v) => *v,
        };
        let round = current_round(ctx.block_timestamp);
        let acc = match self.acc_now(round) {
            None => return Err(Error::ArithmeticOverflow),
            Some(a) => a,
        };
        let vault = match vault_ping(v, acc) {
            None => return Err(Error::ArithmeticOverflow),
            Some(nv) => nv,
        };
        if self.total_stake < vault.staked {
            return Err(Error::ArithmeticOverflow);
        }
        self.commit_acc(acc, round);
        let _ = self.vaults.remove(aid);
        self.total_stake = self.total_stake - vault.staked;
        let mut actions = Vec::new();
        actions.push(Action::TransferNear { receiver: aid.clone(), amount: vault.staked });
        actions.push(Action::TransferCheddar { receiver: aid.clone(), amount: vault.rewards });
        proof {
            assert(actions@ =~= seq![
                Action::TransferNear { receiver: ctx.predecessor, amount: vault.staked },
                Action::TransferCheddar { receiver: ctx.predecessor, amount: vault.rewards },
            ]);
        }
        Ok((vault.rewards, actions))
    }

    /// Unstakes `amount` NEAR and sends it back. Unstaking all but less than
    /// `MIN_STAKE` closes the account. Returns the stake left after the call
    /// (0 when the account closes) and the actions. Requires 1 yoctoNEAR.
    pub fn unstake(&mut self, ctx: &CallContext, amount: u128) -> (r: Result<(u128, Vec<Action>), Error>)
        requires
            old(self).wf(),
        ensures
            final(self).wf(),
            ({
                let o = old(self)@;
                let a = ctx.predecessor@;
                if ctx.attached_deposit != ONE_YOCTO {
                    r matches Err(e) && e == Error::RequiresOneYocto && final(self)@ == o
                } else if !o.vaults.contains_key(a) {
                    r matches Err(e) && e == Error::NoAccount && final(self)@ == o
                } else if o.vaults[a].staked >= MIN_STAKE && amount >= o.vaults[a].staked - MIN_STAKE {
                    match o.close_spec(a, ctx.block_timestamp) {
                        Err(e) => r matches Err(x) && x == e && final(self)@ == o,
                        Ok((s, near, cheddar)) => r matches Ok((x, acts)) && x == 0 && final(self)@ == s && acts@ == seq![
                            Action::TransferNear { receiver: ctx.predecessor, amount: near },
                            Action::TransferCheddar { receiver: ctx.predecessor, amount: cheddar },
                        ],
                    }
                } else if o.vaults[a].staked < amount {
                    r matches Err(e) && e == Error::NotEnoughStake && final(self)@ == o
                } else {
                    match o.ping_at(o.vaults[a], ctx.block_timestamp) {
                        None => r matches Err(e) && e == Error::ArithmeticOverflow && final(self)@ == o,
                        Some((c, v)) => if v.staked - amount < MIN_STAKE {
                            r matches Err(e) && e == Error::MinBalance && final(self)@ == o
                        } else if c.total_stake < amount {
                            r matches Err(e) && e == Error::ArithmeticOverflow && final(self)@ == o
                        } else {
                            r matches Ok((x, acts)) && x == v.staked - amount
                                && acts@ == seq![Action::TransferNear { receiver: ctx.predecessor, amount }]
                                && final(self)@ == (PoolView {
                                    vaults: c.vaults.insert(a, Vault { staked: (v.staked - amount) as u128, ..v }),
                                    total_stake: (c.total_stake - amount) as u128,
                                    ..c
                                })
                        },
                    }
                }
            }),
    {
        if ctx.attached_deposit != ONE_YOCTO {
            return Err(Error::RequiresOneYocto);
        }
        let aid = &ctx.predecessor;
        let v = match self.vaults.get(aid) {
            None => return Err(Error::NoAccount),
            Some(v) => *v,
        };
        if v.staked >= MIN_STAKE && amount >= v.staked - MIN_STAKE {
            return match self.close(ctx) {
                Err(e) => Err(e),
                Ok((_, actions)) => Ok((0, actions)),
            };
        }
        if v.staked < amount {
            return Err(Error::NotEnoughStake);
        }
        let round = current_round(ctx.block_timestamp);
        let acc = match self.acc_now(round) {
            None => return Err(Error::ArithmeticOverflow),
            Some(a) => a,
        };
        let mut vault = match vault_ping(v, acc) {
            None => return Err(Error::ArithmeticOverflow),
            Some(nv) => nv,
        };
        if vault.staked - amount < MIN_STAKE {
            return Err(Error::MinBalance);
        }
        if self.total_stake < amount {
            return Err(Error::ArithmeticOverflow);
        }
        self.commit_acc(acc, round);
        vault.staked = vault.staked - amount;
        self.total_stake = self.total_stake - amount;
        self.vaults.insert(aid.clone(), vault);
        let mut actions = Vec::new();
        actions.push(Action::TransferNear { receiver: aid.clone(), amount });
        proof {
            assert(actions@ =~= seq![Action::TransferNear { receiver: ctx.predecessor, amount }]);
        }
        Ok((vault.staked, actions))
    }

    /// Sends all farmed Cheddar of the caller; returns that amount.
    pub fn withdraw_crop(&mut self, ctx: &CallContext) -> (r: Result<(u128, Action), Error>)
        requires
            old(self).wf(),
        ensures
            final(self).wf(),
            ({
                let o = old(self)@;
                let a = ctx.predecessor@;
                if !o.vaults.contains_key(a) {
                    r matches Err(e) && e == Error::NoAccount && final(self)@ == o
                } else {
                    match o.ping_at(o.vaults[a], ctx.block_timestamp) {
                        None => r matches Err(e) && e == Error::ArithmeticOverflow && final(self)@ == o,
                        Some((c, v)) => r matches Ok((x, act)) && x == v.rewards
                            && act == (Action::TransferCheddar { receiver: ctx.predecessor, amount: v.rewards })
                            && final(self)@ == (PoolView { vaults: c.vaults.insert(a, Vault { rewards: 0, ..v }), ..c }),
                    }
                }
            }),
    {
        let aid = &ctx.predecessor;
        let v = match self.vaults.get(aid) {
            None => return Err(Error::NoAccount),
            Some(v) => *v,
        };
        let round = current_round(ctx.block_timestamp);
        let acc = match self.acc_now(round) {
            None => return Err(Error::ArithmeticOverflow),
            Some(a) => a,
        };
        let mut vault = match vault_ping(v, acc) {
            None => return Err(Error::ArithmeticOverflow),
            Some(nv) => nv,
        };
        self.commit_acc(acc, round);
        let rewards = vault.rewards;
        vault.rewards = 0;
        self.vaults.insert(aid.clone(), vault);
        Ok((rewards, Action::TransferCheddar { receiver: aid.clone(), amount: rewards }))
    }

    /// Callback of a Cheddar transfer: on failure the amount goes back to the
    /// user's rewards.
    pub fn withdraw_callback(&mut self, sender_id: &String, amount: u128, promise_results_count: u64, result: &PromiseResult) -> (r: Result<(), Error>)
        requires
            old(self).wf(),
            !(result is NotReady),
        ensures
            final(self).wf(),
            ({
                let o = old(self)@;
                let a = sender_id@;
                if promise_results_count != 1 {
                    r matches Err(e) && e == Error::UnexpectedPromiseResults && final(self)@ == o
                } else if !(result is Failed) {
                    r is Ok && final(self)@ == o
                } else if !o.vaults.contains_key(a) {
                    r matches Err(e) && e == Error::NoAccount && final(self)@ == o
                } else if o.vaults[a].rewards + amount > u128::MAX {
                    r matches Err(e) && e == Error::ArithmeticOverflow && final(self)@ == o
                } else {
                    r is Ok && final(self)@ == (PoolView {
                        vaults: o.vaults.insert(a, Vault { rewards: (o.vaults[a].rewards + amount) as u128, ..o.vaults[a] }),
                        ..o
                    })
                }
            }),
    {
        if promise_results_count != 1 {
            return Err(Error::UnexpectedPromiseResults);
        }
        match result {
            PromiseResult::Failed => {
                let mut v = match self.vaults.get(sender_id) {
                    None => return Err(Error::NoAccount),
                    Some(v) => *v,
                };
                v.rewards = match v.rewards.checked_add(amount) {
                    None => return Err(Error::ArithmeticOverflow),
                    Some(t) => t,
                };
                self.vaults.insert(sender_id.clone(), v);
                Ok(())
            },
            _ => Ok(()),
        }
    }
}

} // verus!
