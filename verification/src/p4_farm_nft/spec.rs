//! The NFT farm's state as mathematical values, and what each step of a call
//! does to it.
use super::helpers::{
    expected_cheddar_stake_spec, min_stake_fits, min_stake_spec, split_contract_token,
};
use super::vault::{new_vault_spec, total_tokens, vault_is_empty, vault_ping_spec, VaultView};
use crate::farming::next_reward_acc;
use crate::p3_lib::constants::{BASIS_P, NEAR_TOKEN, SECOND, STORAGE_COST};
use crate::p3_lib::helpers::{round_number_spec, safe_mul_spec};
use vstd::prelude::*;

verus! {

/// Message of an NFT transfer that stakes the NFT.
pub const MSG_TO_FARM: &'static str = "to farm";
/// Message of an NFT transfer that deposits a boost NFT.
pub const MSG_TO_BOOST: &'static str = "to boost";
/// Message of a token transfer that makes a setup deposit.
pub const MSG_SETUP_DEPOSIT: &'static str = "setup reward deposit";
/// Message of a Cheddar transfer that locks it.
pub const MSG_CHEDDAR_STAKE: &'static str = "cheddar stake";

/// Most NFTs `close` sends back in one call.
pub const NFT_UNITS_MAX_TRANSFER_NUM: usize = 7;

/// Why a call is refused. A refused call fails as a whole (on chain it
/// panics): calls return the reason and leave the state as it was.
#[derive(Clone, Copy, PartialEq, Eq, Debug)]
pub enum Error {
    /// "can only be called by the owner"
    NotOwner,
    /// "contract is not setup yet"
    NotSetup,
    /// "contract is not active"
    NotActive,
    /// "E10: account not found. Register the account."
    NoAccount,
    /// "Requires attached deposit of exactly 1 yoctoNEAR"
    RequiresOneYocto,
    /// "start must be in the future"
    StartNotInFuture,
    /// "End must be after start" / "start must be before end"
    EndNotAfterStart,
    /// "cheddar_rate should be positive"
    ZeroCheddarRate,
    /// "farm token vector length is not correct"
    FarmVectorLength,
    /// "stake token vector length is not correct"
    StakeVectorLength,
    /// "boost contracts vector length is not correct"
    BoostVectorLength,
    /// "setup deposits must be done when contract setup is not finalized"
    SetupFinalized,
    /// "invalid nft contract" / unknown token contract
    NotListed,
    /// "deposit already done for the given token"
    DepositDone,
    /// "Expected deposit for token ... is ..., got ..."
    WrongDeposit { expected: u128 },
    /// "must be finalized at last before farm start"
    TooLateToFinalize,
    /// "Deposit for token ... not done"
    DepositMissing,
    /// "You need to stake ... yoctoCheddar more to stake one more NFT token"
    NotEnoughCheddar { missing: u128 },
    /// "User need at least ... to stake one more token"
    CheddarBelowRate,
    /// "invalid token": the token is not staked by the user
    TokenNotStaked,
    /// too many NFTs staked to send them back in one `close`
    TooManyNfts,
    /// "Sender has no NFT deposit"
    NoBoostNft,
    /// "expected 'contract_id@token_id' pair"
    InvalidBoostId,
    /// "deposited amount must be positive"
    ZeroAmount,
    /// "user ... balance is zero"
    ZeroRecovered,
    /// "ERR_NOT_CROSS_CONTRACT_CALL"
    NotCrossContractCall,
    /// "ERR_OWNER_NOT_SIGNER"
    OwnerNotSigner,
    /// "The attached deposit is less than the minimum storage balance"
    DepositBelowStorageCost,
    /// "Storage withdraw not possible, close the account instead"
    StorageWithdrawNotPossible,
    /// "Contract expected a result on the callback"
    UnexpectedPromiseResults,
    /// an arithmetic operation overflowed
    ArithmeticOverflow,
}

/// Cross-contract work a call asks for, as mathematical values.
pub enum ActionView {
    /// Send native NEAR.
    TransferNear { receiver: Seq<char>, amount: u128 },
    /// `nft_transfer` of a staked NFT back to `user` (memo "unstaking"), then
    /// `transfer_staked_callback(user, nft_ctr_idx, token_id)`.
    TransferStakedNft { user: Seq<char>, nft_contract_id: Seq<char>, nft_ctr_idx: usize, token_id: Seq<char> },
    /// `ft_transfer` of farmed tokens (memo "farming"), then
    /// `transfer_farmed_callback(user, token_idx, amount)`.
    TransferFarmed { user: Seq<char>, token_id: Seq<char>, token_idx: usize, amount: u128 },
    /// `ft_transfer` of locked Cheddar back to `user` (memo "withdraw staked
    /// Cheddar"), then `transfer_staked_cheddar_callback(user, amount)`.
    TransferStakedCheddar { user: Seq<char>, cheddar: Seq<char>, amount: u128 },
    /// `nft_transfer` of the boost NFT back to `user` (memo "Boost withdraw"),
    /// then `withdraw_boost_nft_callback(user, contract_and_token_id, nft_ctr_idx)`.
    WithdrawBoostNft { user: Seq<char>, nft_contract_id: Seq<char>, token_id: Seq<char>, contract_and_token_id: Seq<char>, nft_ctr_idx: usize },
}

/// The contract state as mathematical values.
pub struct P4View {
    pub is_active: bool,
    pub setup_finalized: bool,
    pub owner_id: Seq<char>,
    pub treasury: Seq<char>,
    pub vaults: Map<Seq<char>, VaultView>,
    pub stake_nft_tokens: Seq<Seq<char>>,
    pub staked_units: u128,
    pub stake_rates: Seq<u128>,
    pub farm_tokens: Seq<Seq<char>>,
    pub farm_token_rates: Seq<u128>,
    pub farm_unit_emission: u128,
    pub farm_deposits: Seq<u128>,
    pub farming_start: u64,
    pub farming_end: u64,
    pub boost_nft_contracts: Seq<Seq<char>>,
    pub cheddy: Seq<char>,
    pub total_boost: Seq<u128>,
    pub nft_boost: u32,
    pub cheddy_boost: u32,
    pub total_harvested: Seq<u128>,
    pub reward_acc: u128,
    pub reward_acc_round: u64,
    pub total_stake: Seq<u128>,
    pub total_cheddar_stake: u128,
    pub accounts_registered: u64,
    pub cheddar_rate: u128,
    pub cheddar: Seq<char>,
}

/// The configuration is the same: everything but the counters.
pub open spec fn same_config(a: P4View, b: P4View) -> bool {
    &&& a.is_active == b.is_active
    &&& a.setup_finalized == b.setup_finalized
    &&& a.owner_id == b.owner_id
    &&& a.treasury == b.treasury
    &&& a.vaults == b.vaults
    &&& a.stake_nft_tokens == b.stake_nft_tokens
    &&& a.stake_rates == b.stake_rates
    &&& a.farm_tokens == b.farm_tokens
    &&& a.farm_token_rates == b.farm_token_rates
    &&& a.farm_unit_emission == b.farm_unit_emission
    &&& a.farming_start == b.farming_start
    &&& a.farming_end == b.farming_end
    &&& a.boost_nft_contracts == b.boost_nft_contracts
    &&& a.cheddy == b.cheddy
    &&& a.nft_boost == b.nft_boost
    &&& a.cheddy_boost == b.cheddy_boost
    &&& a.cheddar_rate == b.cheddar_rate
    &&& a.cheddar == b.cheddar
    &&& a.total_boost.len() == b.total_boost.len()
    &&& a.total_harvested.len() == b.total_harvested.len()
    &&& a.farm_deposits.len() == b.farm_deposits.len()
    &&& a.total_stake.len() == b.total_stake.len()
}

/// Position of the first occurrence of `x` in `s`, if any.
pub open spec fn index_of(s: Seq<Seq<char>>, x: Seq<char>) -> Option<int> {
    if s.contains(x) {
        Some(choose|i: int| 0 <= i < s.len() && s[i] == x && forall|j: int| 0 <= j < i ==> s[j] != x)
    } else {
        None
    }
}

/// Actions that send back the NFTs `tokens` of collection `idx`, in order.
pub open spec fn nft_actions_of(user: Seq<char>, contract: Seq<char>, idx: int, tokens: Seq<Seq<char>>) -> Seq<ActionView> {
    tokens.map(
        |j: int, t: Seq<char>| ActionView::TransferStakedNft { user, nft_contract_id: contract, nft_ctr_idx: idx as usize, token_id: t },
    )
}

/// Actions that send back the staked NFTs of the first `n` collections, in order.
pub open spec fn nft_actions_upto(user: Seq<char>, contracts: Seq<Seq<char>>, staked: Seq<Seq<Seq<char>>>, n: int) -> Seq<ActionView>
    decreases n,
{
    if n <= 0 {
        Seq::empty()
    } else {
        nft_actions_upto(user, contracts, staked, n - 1) + nft_actions_of(user, contracts[n - 1], n - 1, staked[n - 1])
    }
}

impl P4View {
    /// The vector lengths agree (`check_vectors`), the farm ends after it
    /// starts, and every vault has one slot per collection and per farm token.
    pub open spec fn consistent(self) -> bool {
        &&& self.farm_token_rates.len() == self.farm_tokens.len()
        &&& self.total_harvested.len() == self.farm_tokens.len()
        &&& self.farm_deposits.len() == self.farm_tokens.len()
        &&& self.stake_rates.len() == self.stake_nft_tokens.len()
        &&& self.total_stake.len() == self.stake_nft_tokens.len()
        &&& self.total_boost.len() == self.boost_nft_contracts.len()
        &&& self.farming_start < self.farming_end
        &&& forall|a: Seq<char>| #[trigger] self.vaults.contains_key(a) ==> self.vault_fits(self.vaults[a])
    }

    /// The vault has one slot per NFT collection and per farm token.
    pub open spec fn vault_fits(self, v: VaultView) -> bool {
        &&& v.staked.len() == self.stake_nft_tokens.len()
        &&& v.farmed_recovered.len() == self.farm_tokens.len()
    }

    /// The round a block timestamp (nanoseconds) falls in.
    pub open spec fn round_at(self, now_ns: u64) -> u64 {
        round_number_spec(self.farming_start, self.farming_end, (now_ns / SECOND) as u64) as u64
    }

    /// The state with the reward accumulator brought to `round`.
    pub open spec fn synced(self, round: u64) -> Option<Self> {
        match next_reward_acc(self.reward_acc, self.reward_acc_round, self.farm_unit_emission, self.staked_units, round) {
            None => None,
            Some(a) => Some(
                if self.staked_units == 0 || a != self.reward_acc {
                    P4View { reward_acc: a, reward_acc_round: round, ..self }
                } else {
                    self
                },
            ),
        }
    }

    /// The state synced to `round` and the vault pinged with it.
    pub open spec fn ping_all(self, v: VaultView, round: u64) -> Option<(Self, VaultView)> {
        match self.synced(round) {
            None => None,
            Some(c) => match vault_ping_spec(v, c.reward_acc, round) {
                None => None,
                Some(nv) => Some((c, nv)),
            },
        }
    }

    /// Boost rate (basis points) of a boost NFT of `contract`.
    pub open spec fn boost_rate(self, contract: Seq<char>) -> u32 {
        if contract == self.cheddy { self.cheddy_boost } else { self.nft_boost }
    }

    /// Staking units of a vault: those of its least staked collection, raised
    /// by the boost of its boost NFT.
    pub open spec fn units_of(self, v: VaultView) -> Option<u128> {
        if !min_stake_fits(v.staked, self.stake_rates) {
            None
        } else {
            let s = min_stake_spec(v.staked, self.stake_rates, self.stake_rates.len() as int);
            if v.boost_nft.len() == 0 {
                Some(s as u128)
            } else {
                match split_contract_token(v.boost_nft) {
                    None => None,
                    Some((c, _t)) => {
                        let rate = self.boost_rate(c);
                        if s * rate > u128::MAX || s + s * rate / (BASIS_P as int) > u128::MAX {
                            None
                        } else {
                            Some((s + s * rate / (BASIS_P as int)) as u128)
                        }
                    },
                }
            }
        }
    }

    /// The vault with its staking units recomputed, and the total units adjusted.
    pub open spec fn recompute(self, v: VaultView) -> Option<(Self, VaultView)> {
        match self.units_of(v) {
            None => None,
            Some(s) => if s > v.min_stake {
                if self.staked_units + (s - v.min_stake) > u128::MAX {
                    None
                } else {
                    Some((
                        P4View { staked_units: (self.staked_units + (s - v.min_stake)) as u128, ..self },
                        VaultView { min_stake: s, ..v },
                    ))
                }
            } else if s < v.min_stake {
                if self.staked_units < v.min_stake - s {
                    None
                } else {
                    Some((
                        P4View { staked_units: (self.staked_units - (v.min_stake - s)) as u128, ..self },
                        VaultView { min_stake: s, ..v },
                    ))
                }
            } else {
                Some((self, v))
            },
        }
    }

    /// One fewer staked NFT of collection `idx`, and the action that sends it back.
    pub open spec fn transfer_staked_nft_spec(self, user: Seq<char>, idx: int, token: Seq<char>) -> Option<(Self, ActionView)> {
        if self.total_stake[idx] < 1 {
            None
        } else {
            Some((
                P4View { total_stake: self.total_stake.update(idx, (self.total_stake[idx] - 1) as u128), ..self },
                ActionView::TransferStakedNft { user, nft_contract_id: self.stake_nft_tokens[idx], nft_ctr_idx: idx as usize, token_id: token },
            ))
        }
    }

    /// Sending back all NFTs of `staked`: the collection totals fall by the
    /// numbers sent.
    pub open spec fn transfer_all_staked_spec(self, user: Seq<char>, staked: Seq<Seq<Seq<char>>>) -> Option<(Self, Seq<ActionView>)> {
        if exists|k: int| 0 <= k < staked.len() && self.total_stake[k] < staked[k].len() {
            None
        } else {
            Some((
                P4View {
                    total_stake: Seq::new(self.total_stake.len(), |k: int| (self.total_stake[k] - staked[k].len()) as u128),
                    ..self
                },
                nft_actions_upto(user, self.stake_nft_tokens, staked, staked.len() as int),
            ))
        }
    }

    /// The action that sends `amount` of farm token `i` to `user`.
    pub open spec fn farmed_action(self, user: Seq<char>, i: int, amount: u128) -> ActionView {
        if self.farm_tokens[i] == NEAR_TOKEN@ {
            ActionView::TransferNear { receiver: user, amount }
        } else {
            ActionView::TransferFarmed { user, token_id: self.farm_tokens[i], token_idx: i as usize, amount }
        }
    }

    /// Paying out `amount` of farm token `i`: harvested up, deposit down.
    pub open spec fn transfer_farmed_spec(self, user: Seq<char>, i: int, amount: u128) -> Option<(Self, ActionView)> {
        if self.total_harvested[i] + amount > u128::MAX || self.farm_deposits[i] < amount {
            None
        } else {
            Some((
                P4View {
                    total_harvested: self.total_harvested.update(i, (self.total_harvested[i] + amount) as u128),
                    farm_deposits: self.farm_deposits.update(i, (self.farm_deposits[i] - amount) as u128),
                    ..self
                },
                self.farmed_action(user, i, amount),
            ))
        }
    }

    /// Paying out `farmed_units` translated into the first `n` farm tokens.
    pub open spec fn crop_upto(self, user: Seq<char>, farmed_units: u128, n: int) -> Option<(Self, Seq<ActionView>)>
        decreases n,
    {
        if n <= 0 {
            Some((self, Seq::empty()))
        } else {
            match self.crop_upto(user, farmed_units, n - 1) {
                None => None,
                Some((c, acts)) => if safe_mul_spec(farmed_units, self.farm_token_rates[n - 1]) > u128::MAX {
                    None
                } else {
                    match c.transfer_farmed_spec(user, n - 1, safe_mul_spec(farmed_units, self.farm_token_rates[n - 1]) as u128) {
                        None => None,
                        Some((c2, a)) => Some((c2, acts.push(a))),
                    }
                },
            }
        }
    }

    /// Paying out `farmed_units` in all farm tokens; nothing when zero.
    pub open spec fn withdraw_crop_spec(self, user: Seq<char>, farmed_units: u128) -> Option<(Self, Seq<ActionView>)> {
        if farmed_units == 0 {
            Some((self, Seq::empty()))
        } else {
            self.crop_upto(user, farmed_units, self.farm_tokens.len() as int)
        }
    }

    /// Sending back `amount` of locked Cheddar (the Cheddar rate when `None`).
    pub open spec fn transfer_staked_cheddar_spec(self, user: Seq<char>, amount: Option<u128>) -> Option<(Self, ActionView)> {
        let a = match amount { Some(x) => x, None => self.cheddar_rate };
        if self.total_cheddar_stake < a {
            None
        } else {
            Some((
                P4View { total_cheddar_stake: (self.total_cheddar_stake - a) as u128, ..self },
                ActionView::TransferStakedCheddar { user, cheddar: self.cheddar, amount: a },
            ))
        }
    }

    /// Taking back the boost NFT of vault `v` of `user` at `round`: the vault
    /// is pinged, the boost counted off and removed, and the units recomputed.
    pub open spec fn withdraw_boost_spec(self, user: Seq<char>, v: VaultView, round: u64) -> Result<(Self, VaultView, ActionView), Error> {
        if v.boost_nft.len() == 0 {
            Err(Error::NoBoostNft)
        } else {
            match self.ping_all(v, round) {
                None => Err(Error::ArithmeticOverflow),
                Some((c, pv)) => match split_contract_token(pv.boost_nft) {
                    None => Err(Error::InvalidBoostId),
                    Some((contract, token)) => match index_of(c.boost_nft_contracts, contract) {
                        None => Err(Error::NotListed),
                        Some(i) => if c.total_boost[i] < 1 {
                            Err(Error::ArithmeticOverflow)
                        } else {
                            let c2 = P4View { total_boost: c.total_boost.update(i, (c.total_boost[i] - 1) as u128), ..c };
                            match c2.recompute(VaultView { boost_nft: Seq::empty(), ..pv }) {
                                None => Err(Error::ArithmeticOverflow),
                                Some((c3, nv)) => Ok((
                                    P4View { vaults: c3.vaults.insert(user, nv), ..c3 },
                                    nv,
                                    ActionView::WithdrawBoostNft {
                                        user,
                                        nft_contract_id: contract,
                                        token_id: token,
                                        contract_and_token_id: pv.boost_nft,
                                        nft_ctr_idx: i as usize,
                                    },
                                )),
                            }
                        },
                    },
                },
            }
        }
    }

    /// The calls that need an active, set up farm.
    pub open spec fn active_check(self) -> Result<(), Error> {
        if !self.setup_finalized {
            Err(Error::NotSetup)
        } else if !self.is_active {
            Err(Error::NotActive)
        } else {
            Ok(())
        }
    }

    /// Closing the account of `user` at time `now`: everything goes back to
    /// the user, and the account is removed.
    pub open spec fn close_spec(self, user: Seq<char>, attached: u128, now: u64) -> Result<(Self, Seq<ActionView>), Error> {
        if self.active_check() is Err {
            Err(self.active_check()->Err_0)
        } else if attached != 1 {
            Err(Error::RequiresOneYocto)
        } else if !self.vaults.contains_key(user) {
            Err(Error::NoAccount)
        } else if total_tokens(self.vaults[user].staked) > NFT_UNITS_MAX_TRANSFER_NUM {
            Err(Error::TooManyNfts)
        } else {
            let round = self.round_at(now);
            match self.ping_all(self.vaults[user], round) {
                None => Err(Error::ArithmeticOverflow),
                Some((c, v)) => if vault_is_empty(v) {
                    if c.accounts_registered < 1 {
                        Err(Error::ArithmeticOverflow)
                    } else {
                        Ok((
                            P4View { accounts_registered: (c.accounts_registered - 1) as u64, vaults: c.vaults.remove(user), ..c },
                            seq![ActionView::TransferNear { receiver: user, amount: STORAGE_COST }],
                        ))
                    }
                } else if !min_stake_fits(v.staked, c.stake_rates) {
                    Err(Error::ArithmeticOverflow)
                } else {
                    let units = min_stake_spec(v.staked, c.stake_rates, c.stake_rates.len() as int);
                    if c.staked_units < units {
                        Err(Error::ArithmeticOverflow)
                    } else {
                        let c1 = P4View { staked_units: (c.staked_units - units) as u128, ..c };
                        match c1.transfer_all_staked_spec(user, v.staked) {
                            None => Err(Error::ArithmeticOverflow),
                            Some((c2, a1)) => match c2.withdraw_crop_spec(user, v.farmed) {
                                None => Err(Error::ArithmeticOverflow),
                                Some((c3, a2)) => {
                                    let r4: Result<(Self, VaultView, Seq<ActionView>), Error> = if v.boost_nft.len() == 0 {
                                        Ok((c3, v, Seq::<ActionView>::empty()))
                                    } else {
                                        match c3.withdraw_boost_spec(user, v, round) {
                                            Err(e) => Err(e),
                                            Ok((c4, v4, a)) => Ok((c4, v4, seq![a])),
                                        }
                                    };
                                    match r4 {
                                        Err(e) => Err(e),
                                        Ok((c4, v4, a3)) => {
                                            let r5: Option<(Self, Seq<ActionView>)> = if v4.cheddar_staked > 0 {
                                                match c4.transfer_staked_cheddar_spec(user, Some(v4.cheddar_staked)) {
                                                    None => None,
                                                    Some((c5, a)) => Some((c5, seq![a])),
                                                }
                                            } else {
                                                Some((c4, Seq::<ActionView>::empty()))
                                            };
                                            match r5 {
                                                None => Err(Error::ArithmeticOverflow),
                                                Some((c5, a4)) => if c5.accounts_registered < 1 {
                                                    Err(Error::ArithmeticOverflow)
                                                } else {
                                                    Ok((
                                                        P4View {
                                                            accounts_registered: (c5.accounts_registered - 1) as u64,
                                                            vaults: c5.vaults.remove(user),
                                                            ..c5
                                                        },
                                                        a1 + a2 + a3 + a4,
                                                    ))
                                                },
                                            }
                                        },
                                    }
                                },
                            },
                        }
                    }
                },
            }
        }
    }

    /// The empty vault a new account gets.
    pub open spec fn fresh_vault(self) -> VaultView {
        new_vault_spec(self.stake_nft_tokens.len(), self.farm_tokens.len(), self.reward_acc)
    }

    /// The vault of `user` to recover into: the current one, or a fresh one
    /// (counted as a registered account) when the account was closed meanwhile.
    pub open spec fn recovered_vault_spec(self, user: Seq<char>) -> Option<(Self, VaultView)> {
        if self.vaults.contains_key(user) {
            Some((self, self.vaults[user]))
        } else if self.accounts_registered + 1 > u64::MAX {
            None
        } else {
            Some((P4View { accounts_registered: (self.accounts_registered + 1) as u64, ..self }, self.fresh_vault()))
        }
    }

    /// Staking NFT `token` of collection `nft_contract` for `user` at time `now`.
    pub open spec fn nft_stake_spec(self, user: Seq<char>, nft_contract: Seq<char>, token: Seq<char>, now: u64) -> Result<Self, Error> {
        match index_of(self.stake_nft_tokens, nft_contract) {
            None => Err(Error::NotListed),
            Some(i) => if !self.vaults.contains_key(user) {
                Err(Error::NoAccount)
            } else {
                let v = self.vaults[user];
                let expected = expected_cheddar_stake_spec(total_tokens(v.staked), self.cheddar_rate);
                if total_tokens(v.staked) > usize::MAX || expected > u128::MAX {
                    Err(Error::ArithmeticOverflow)
                } else if v.cheddar_staked < expected {
                    Err(Error::NotEnoughCheddar { missing: (expected - v.cheddar_staked) as u128 })
                } else {
                    match self.ping_all(v, self.round_at(now)) {
                        None => Err(Error::ArithmeticOverflow),
                        Some((c, pv)) => if c.total_stake[i] + 1 > u128::MAX {
                            Err(Error::ArithmeticOverflow)
                        } else {
                            let c2 = P4View { total_stake: c.total_stake.update(i, (c.total_stake[i] + 1) as u128), ..c };
                            match c2.recompute(VaultView { staked: pv.staked.update(i, pv.staked[i].push(token)), ..pv }) {
                                None => Err(Error::ArithmeticOverflow),
                                Some((c3, nv)) => Ok(P4View { vaults: c3.vaults.insert(user, nv), ..c3 }),
                            }
                        },
                    }
                }
            },
        }
    }

    /// Depositing NFT `token` of `nft_contract` as `user`'s boost at time `now`.
    /// Answers whether the boost was taken (a user holds at most one).
    pub open spec fn boost_stake_spec(self, user: Seq<char>, nft_contract: Seq<char>, token: Seq<char>, now: u64) -> Result<(Self, bool), Error> {
        match index_of(self.boost_nft_contracts, nft_contract) {
            None => Err(Error::NotListed),
            Some(i) => if !self.vaults.contains_key(user) {
                Err(Error::NoAccount)
            } else if self.vaults[user].boost_nft.len() != 0 {
                Ok((self, false))
            } else {
                match self.ping_all(self.vaults[user], self.round_at(now)) {
                    None => Err(Error::ArithmeticOverflow),
                    Some((c, pv)) => if c.total_boost[i] + 1 > u128::MAX {
                        Err(Error::ArithmeticOverflow)
                    } else {
                        let c2 = P4View { total_boost: c.total_boost.update(i, (c.total_boost[i] + 1) as u128), ..c };
                        match c2.recompute(VaultView { boost_nft: nft_contract + seq!['@'] + token, ..pv }) {
                            None => Err(Error::ArithmeticOverflow),
                            Some((c3, nv)) => Ok((P4View { vaults: c3.vaults.insert(user, nv), ..c3 }, true)),
                        }
                    },
                }
            },
        }
    }

    /// `withdraw_boost_nft` by `user` with `attached` yoctoNEAR at time `now`.
    pub open spec fn withdraw_boost_call_spec(self, user: Seq<char>, attached: u128, now: u64) -> Result<(Self, ActionView), Error> {
        if attached != 1 {
            Err(Error::RequiresOneYocto)
        } else if !self.vaults.contains_key(user) {
            Err(Error::NoAccount)
        } else {
            match self.withdraw_boost_spec(user, self.vaults[user], self.round_at(now)) {
                Err(e) => Err(e),
                Ok((c, _v, a)) => Ok((c, a)),
            }
        }
    }

    /// Unstaking NFT `token` of `nft_contract` by `user` at time `now`: the NFT
    /// and one Cheddar rate of locked Cheddar go back; unstaking the last NFT
    /// closes the account. Answers the NFTs of that collection left staked.
    pub open spec fn unstake_spec(self, user: Seq<char>, nft_contract: Seq<char>, token: Seq<char>, attached: u128, now: u64) -> Result<(Self, Seq<Seq<char>>, Seq<ActionView>), Error> {
        if self.active_check() is Err {
            Err(self.active_check()->Err_0)
        } else if attached != 1 {
            Err(Error::RequiresOneYocto)
        } else {
            match index_of(self.stake_nft_tokens, nft_contract) {
                None => Err(Error::NotListed),
                Some(i) => if !self.vaults.contains_key(user) {
                    Err(Error::NoAccount)
                } else {
                    let v = self.vaults[user];
                    match index_of(v.staked[i], token) {
                        None => Err(Error::TokenNotStaked),
                        Some(t) => if total_tokens(v.staked) == 1 {
                            match self.close_spec(user, attached, now) {
                                Err(e) => Err(e),
                                Ok((s, acts)) => Ok((s, Seq::empty(), acts)),
                            }
                        } else {
                            match self.ping_all(v, self.round_at(now)) {
                                None => Err(Error::ArithmeticOverflow),
                                Some((c, pv)) => match c.recompute(VaultView { staked: pv.staked.update(i, pv.staked[i].remove(t)), ..pv }) {
                                    None => Err(Error::ArithmeticOverflow),
                                    Some((c2, nv)) => if nv.cheddar_staked < c2.cheddar_rate {
                                        Err(Error::ArithmeticOverflow)
                                    } else {
                                        let nv3 = VaultView { cheddar_staked: (nv.cheddar_staked - c2.cheddar_rate) as u128, ..nv };
                                        let c3 = P4View { vaults: c2.vaults.insert(user, nv3), ..c2 };
                                        match c3.transfer_staked_nft_spec(user, i, token) {
                                            None => Err(Error::ArithmeticOverflow),
                                            Some((c4, a1)) => match c4.transfer_staked_cheddar_spec(user, None) {
                                                None => Err(Error::ArithmeticOverflow),
                                                Some((c5, a2)) => Ok((c5, nv3.staked[i], seq![a1, a2])),
                                            },
                                        }
                                    },
                                },
                            }
                        },
                    }
                },
            }
        }
    }

    /// `withdraw_crop` by `user` at time `now`: all farmed units are paid out.
    pub open spec fn withdraw_crop_call_spec(self, user: Seq<char>, now: u64) -> Result<(Self, Seq<ActionView>), Error> {
        if self.active_check() is Err {
            Err(self.active_check()->Err_0)
        } else if !self.vaults.contains_key(user) {
            Err(Error::NoAccount)
        } else {
            match self.ping_all(self.vaults[user], self.round_at(now)) {
                None => Err(Error::ArithmeticOverflow),
                Some((c, v)) => {
                    let c2 = P4View { vaults: c.vaults.insert(user, VaultView { farmed: 0, ..v }), ..c };
                    match c2.withdraw_crop_spec(user, v.farmed) {
                        None => Err(Error::ArithmeticOverflow),
                        Some((c3, acts)) => Ok((c3, acts)),
                    }
                },
            }
        }
    }

    /// `withdraw_farmed_recovered` of `token` by `user`: the recovered amount
    /// of that farm token is paid out and cleared.
    pub open spec fn withdraw_recovered_spec(self, user: Seq<char>, token: Seq<char>) -> Result<(Self, ActionView), Error> {
        if self.active_check() is Err {
            Err(self.active_check()->Err_0)
        } else if !self.vaults.contains_key(user) {
            Err(Error::NoAccount)
        } else {
            match index_of(self.farm_tokens, token) {
                None => Err(Error::NotListed),
                Some(i) => {
                    let v = self.vaults[user];
                    let amount = v.farmed_recovered[i];
                    if amount == 0 {
                        Err(Error::ZeroRecovered)
                    } else {
                        let c = P4View { vaults: self.vaults.insert(user, VaultView { farmed_recovered: v.farmed_recovered.update(i, 0), ..v }), ..self };
                        match c.transfer_farmed_spec(user, i, amount) {
                            None => Err(Error::ArithmeticOverflow),
                            Some((c2, a)) => Ok((c2, a)),
                        }
                    }
                },
            }
        }
    }

    /// Locking `amount` Cheddar for `user`: at least one Cheddar rate must come.
    pub open spec fn stake_cheddar_spec(self, user: Seq<char>, amount: u128) -> Result<Self, Error> {
        if self.active_check() is Err {
            Err(self.active_check()->Err_0)
        } else if !self.vaults.contains_key(user) {
            Err(Error::NoAccount)
        } else if amount < self.cheddar_rate {
            Err(Error::CheddarBelowRate)
        } else if self.vaults[user].cheddar_staked + amount > u128::MAX || self.total_cheddar_stake + self.cheddar_rate > u128::MAX {
            Err(Error::ArithmeticOverflow)
        } else {
            Ok(P4View {
                vaults: self.vaults.insert(user, VaultView { cheddar_staked: (self.vaults[user].cheddar_staked + amount) as u128, ..self.vaults[user] }),
                total_cheddar_stake: (self.total_cheddar_stake + self.cheddar_rate) as u128,
                ..self
            })
        }
    }

    /// Rounds of the whole farm.
    pub open spec fn total_rounds(self) -> int {
        round_number_spec(self.farming_start, self.farming_end, self.farming_end)
    }

    /// Deposit of farm token `i` the farm needs: all its rounds of emission
    /// at the token's rate; `None` when it overflows.
    pub open spec fn expected_deposit(self, i: int) -> Option<u128> {
        let units = self.total_rounds() * self.farm_unit_emission;
        if units > u128::MAX || safe_mul_spec(units as u128, self.farm_token_rates[i]) > u128::MAX {
            None
        } else {
            Some(safe_mul_spec(units as u128, self.farm_token_rates[i]) as u128)
        }
    }

    /// The setup deposit of `amount` of `token`: exactly the expected amount,
    /// once per token, before the setup is finalized.
    pub open spec fn setup_deposit_spec(self, token: Seq<char>, amount: u128) -> Result<Self, Error> {
        if self.setup_finalized {
            Err(Error::SetupFinalized)
        } else {
            match index_of(self.farm_tokens, token) {
                None => Err(Error::NotListed),
                Some(i) => match self.expected_deposit(i) {
                    None => Err(Error::ArithmeticOverflow),
                    Some(expected) => if self.farm_deposits[i] != 0 {
                        Err(Error::DepositDone)
                    } else if amount != expected {
                        Err(Error::WrongDeposit { expected })
                    } else {
                        Ok(P4View { farm_deposits: self.farm_deposits.update(i, amount), ..self })
                    },
                },
            }
        }
    }

    /// A transfer of `amount` of `token_in` from `sender` with message `msg`:
    /// a setup deposit, a Cheddar lock, or refunded. Answers the refund.
    pub open spec fn ft_on_transfer_spec(self, token_in: Seq<char>, sender: Seq<char>, amount: u128, msg: Seq<char>) -> Result<(Self, u128), Error> {
        if amount == 0 {
            Err(Error::ZeroAmount)
        } else if msg == MSG_SETUP_DEPOSIT@ {
            match self.setup_deposit_spec(token_in, amount) {
                Err(e) => Err(e),
                Ok(s) => Ok((s, 0u128)),
            }
        } else if msg == MSG_CHEDDAR_STAKE@ {
            match self.stake_cheddar_spec(sender, amount) {
                Err(e) => Err(e),
                Ok(s) => Ok((s, 0u128)),
            }
        } else {
            Ok((self, amount))
        }
    }

    /// An NFT `token` of collection `nft_contract` sent by `previous_owner`
    /// (who signed) with message `msg` at `now`: staked to farm, deposited as
    /// boost, or ignored. Answers what the receiver returns to the NFT contract.
    pub open spec fn nft_on_transfer_spec(self, nft_contract: Seq<char>, signer: Seq<char>, previous_owner: Seq<char>, token: Seq<char>, msg: Seq<char>, now: u64) -> Result<(Self, bool), Error> {
        if nft_contract == signer {
            Err(Error::NotCrossContractCall)
        } else if previous_owner != signer {
            Err(Error::OwnerNotSigner)
        } else if msg == MSG_TO_BOOST@ {
            if self.active_check() is Err {
                Err(self.active_check()->Err_0)
            } else {
                match self.boost_stake_spec(previous_owner, nft_contract, token, now) {
                    Err(e) => Err(e),
                    Ok((s, _)) => Ok((s, true)),
                }
            }
        } else if msg == MSG_TO_FARM@ {
            if self.active_check() is Err {
                Err(self.active_check()->Err_0)
            } else {
                match self.nft_stake_spec(previous_owner, nft_contract, token, now) {
                    Err(e) => Err(e),
                    Ok(s) => Ok((s, true)),
                }
            }
        } else {
            Ok((self, true))
        }
    }

    /// Stores `v` as the vault of `user` after recomputing its units.
    pub open spec fn store_recomputed(self, user: Seq<char>, v: VaultView) -> Option<Self> {
        match self.recompute(v) {
            None => None,
            Some((c, nv)) => Some(P4View { vaults: c.vaults.insert(user, nv), ..c }),
        }
    }

    /// A failed transfer of staked NFT `token` of collection `idx` back to
    /// `user`: the NFT is staked again.
    pub open spec fn recover_staked_spec(self, user: Seq<char>, idx: int, token: Seq<char>) -> Option<Self> {
        if self.total_stake[idx] + 1 > u128::MAX {
            None
        } else {
            let c = P4View { total_stake: self.total_stake.update(idx, (self.total_stake[idx] + 1) as u128), ..self };
            match c.recovered_vault_spec(user) {
                None => None,
                Some((c2, v)) => c2.store_recomputed(user, VaultView { staked: v.staked.update(idx, v.staked[idx].push(token)), ..v }),
            }
        }
    }

    /// A failed payout of `amount` of farm token `idx` to `user`: the amount
    /// is kept as recovered for the user.
    pub open spec fn recover_farmed_spec(self, user: Seq<char>, idx: int, amount: u128) -> Option<Self> {
        match self.recovered_vault_spec(user) {
            None => None,
            Some((c, v)) => if c.total_harvested[idx] < amount || v.farmed_recovered[idx] + amount > u128::MAX {
                None
            } else {
                let c2 = P4View { total_harvested: c.total_harvested.update(idx, (c.total_harvested[idx] - amount) as u128), ..c };
                c2.store_recomputed(user, VaultView { farmed_recovered: v.farmed_recovered.update(idx, (v.farmed_recovered[idx] + amount) as u128), ..v })
            },
        }
    }

    /// A failed transfer of `amount` locked Cheddar back to `user`: it is
    /// locked again.
    pub open spec fn recover_cheddar_spec(self, user: Seq<char>, amount: u128) -> Option<Self> {
        if self.total_cheddar_stake + amount > u128::MAX {
            None
        } else {
            let c = P4View { total_cheddar_stake: (self.total_cheddar_stake + amount) as u128, ..self };
            match c.recovered_vault_spec(user) {
                None => None,
                Some((c2, v)) => if v.cheddar_staked + amount > u128::MAX {
                    None
                } else {
                    c2.store_recomputed(user, VaultView { cheddar_staked: (v.cheddar_staked + amount) as u128, ..v })
                },
            }
        }
    }

    /// A failed transfer of boost NFT `contract_and_token_id` (of boost
    /// contract `idx`) back to `user`: it is the user's boost again.
    pub open spec fn recover_boost_spec(self, user: Seq<char>, contract_and_token_id: Seq<char>, idx: int) -> Option<Self> {
        match self.recovered_vault_spec(user) {
            None => None,
            Some((c, v)) => if c.total_boost[idx] + 1 > u128::MAX {
                None
            } else {
                let c2 = P4View { total_boost: c.total_boost.update(idx, (c.total_boost[idx] + 1) as u128), ..c };
                c2.store_recomputed(user, VaultView { boost_nft: contract_and_token_id, ..v })
            },
        }
    }
}

/// Once paying out fails for some farm token, it fails for every longer list.
pub proof fn lemma_crop_none_stays(c: P4View, user: Seq<char>, farmed_units: u128, k: int, n: int)
    requires
        0 <= k <= n,
        c.crop_upto(user, farmed_units, k) is None,
    ensures
        c.crop_upto(user, farmed_units, n) is None,
    decreases n,
{
    if k < n {
        lemma_crop_none_stays(c, user, farmed_units, k, n - 1);
    }
}

/// What `index_of` finds: the first occurrence, or nothing when absent.
pub proof fn lemma_index_of(s: Seq<Seq<char>>, x: Seq<char>)
    ensures
        match index_of(s, x) {
            Some(i) => 0 <= i < s.len() && s[i] == x && forall|j: int| 0 <= j < i ==> s[j] != x,
            None => !s.contains(x),
        },
{
    if s.contains(x) {
        let k = choose|k: int| 0 <= k < s.len() && s[k] == x;
        lemma_first_occurrence(s, x, k);
    }
}

proof fn lemma_first_occurrence(s: Seq<Seq<char>>, x: Seq<char>, k: int)
    requires
        0 <= k < s.len(),
        s[k] == x,
    ensures
        exists|i: int| 0 <= i < s.len() && s[i] == x && forall|j: int| 0 <= j < i ==> s[j] != x,
    decreases k,
{
    if exists|j: int| 0 <= j < k && s[j] == x {
        let j = choose|j: int| 0 <= j < k && s[j] == x;
        lemma_first_occurrence(s, x, j);
    } else {
        assert(forall|j: int| 0 <= j < k ==> s[j] != x);
    }
}

} // verus!
