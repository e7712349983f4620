//! The multi-token farm's state as mathematical values, and what each step
//! of a call does to it.
use super::helpers::{min_units, seq_sum, units_fit};
use super::vault::{new_vault_spec, vault_is_empty, vault_ping_spec, VaultView};
use crate::farming::next_reward_acc;
use crate::p3_lib::constants::{BASIS_P, NEAR_TOKEN, SECOND, STORAGE_COST};
use crate::p3_lib::helpers::{round_number_spec, safe_mul_spec};
use crate::p4_farm_nft::spec::index_of;
use vstd::prelude::*;

verus! {

/// Message of a token transfer that makes a setup deposit.
pub const MSG_SETUP_DEPOSIT: &'static str = "setup reward deposit";

/// Why a call is refused. A refused call fails as a whole (on chain it
/// panics): calls return the reason and leave the state as it was.
#[derive(Clone, Copy, PartialEq, Eq, Debug)]
pub enum Error {
    /// "can only be called by the owner"
    NotOwner,
    /// "contract is not setup yet"
    NotSetup,
    /// "contract is not active"
    NotActive,
    /// "E10: account not found. Register the account."
    NoAccount,
    /// "Requires attached deposit of exactly 1 yoctoNEAR"
    RequiresOneYocto,
    /// "start must be in the future"
    StartNotInFuture,
    /// "End must be after start" / "start must be before end"
    EndNotAfterStart,
    /// "stake_rate[0] must be 1e24"
    FirstStakeRate,
    /// "farm token vector length is not correct"
    FarmVectorLength,
    /// "stake token vector length is not correct"
    StakeVectorLength,
    /// "setup deposits must be done when contract setup is not finalized"
    SetupFinalized,
    /// "invalid token"
    NotListed,
    /// "deposit already done for the given token"
    DepositDone,
    /// "Expected deposit for token ... is ..., got ..."
    WrongDeposit { expected: u128 },
    /// "must be finalized at last before farm start"
    TooLateToFinalize,
    /// "Deposit for token ... not done"
    DepositMissing,
    /// "staked amount must be positive"
    ZeroAmount,
    /// "E30: not enough staked tokens"
    NotEnoughStake,
    /// "near must be sent using deposit_near()"
    NearViaTransfer,
    /// "Sender has no NFT deposit"
    NoNft,
    /// "The attached deposit is less than the minimum storage balance"
    DepositBelowStorageCost,
    /// "Storage withdraw not possible, close the account instead"
    StorageWithdrawNotPossible,
    /// the promise of a callback is not ready
    PromiseNotReady,
    /// an arithmetic operation overflowed
    ArithmeticOverflow,
}

/// Cross-contract work a call asks for, as mathematical values.
pub enum ActionView {
    /// Send native NEAR.
    TransferNear { receiver: Seq<char>, amount: u128 },
    /// `ft_transfer` of unstaked tokens (memo "unstaking"), then
    /// `transfer_staked_callback(user, token_i, amount, fee)`.
    TransferStaked { user: Seq<char>, token: Seq<char>, token_i: usize, amount: u128, fee: u128 },
    /// `ft_transfer` of farmed tokens (memo "farming"), then
    /// `transfer_farmed_callback(user, token_i, amount)`.
    TransferFarmed { user: Seq<char>, token: Seq<char>, token_i: usize, amount: u128 },
    /// `nft_transfer` of the Cheddy NFT to `receiver` (memo "Cheddy withdraw"),
    /// then `withdraw_nft_callback(user, token_id)`.
    WithdrawNft { user: Seq<char>, receiver: Seq<char>, nft_contract: Seq<char>, token_id: Seq<char> },
    /// `ft_transfer` of tokens to `receiver` with `memo` (fees, admin withdrawals).
    FtTransfer { receiver: Seq<char>, token: Seq<char>, amount: u128, memo: Seq<char> },
}

/// The contract state as mathematical values.
pub struct P3View {
    pub is_active: bool,
    pub setup_finalized: bool,
    pub owner_id: Seq<char>,
    pub treasury: Seq<char>,
    pub vaults: Map<Seq<char>, VaultView>,
    pub stake_tokens: Seq<Seq<char>>,
    pub staked_units: u128,
    pub stake_rates: Seq<u128>,
    pub farm_tokens: Seq<Seq<char>>,
    pub farm_token_rates: Seq<u128>,
    pub farm_unit_emission: u128,
    pub farm_deposits: Seq<u128>,
    pub farming_start: u64,
    pub farming_end: u64,
    pub cheddar_nft: Seq<char>,
    pub cheddar_nft_boost: u32,
    pub total_harvested: Seq<u128>,
    pub reward_acc: u128,
    pub reward_acc_round: u64,
    pub total_stake: Seq<u128>,
    pub accounts_registered: u64,
    pub fee_rate: u128,
    pub fee_collected: Seq<u128>,
}

/// Everything but the counters is the same.
pub open spec fn same_config(a: P3View, b: P3View) -> bool {
    &&& a.is_active == b.is_active
    &&& a.setup_finalized == b.setup_finalized
    &&& a.owner_id == b.owner_id
    &&& a.treasury == b.treasury
    &&& a.vaults == b.vaults
    &&& a.stake_tokens == b.stake_tokens
    &&& a.stake_rates == b.stake_rates
    &&& a.farm_tokens == b.farm_tokens
    &&& a.farm_token_rates == b.farm_token_rates
    &&& a.farm_unit_emission == b.farm_unit_emission
    &&& a.farming_start == b.farming_start
    &&& a.farming_end == b.farming_end
    &&& a.cheddar_nft == b.cheddar_nft
    &&& a.cheddar_nft_boost == b.cheddar_nft_boost
    &&& a.fee_rate == b.fee_rate
    &&& a.total_harvested.len() == b.total_harvested.len()
    &&& a.farm_deposits.len() == b.farm_deposits.len()
    &&& a.total_stake.len() == b.total_stake.len()
    &&& a.fee_collected.len() == b.fee_collected.len()
}

impl P3View {
    /// The vector lengths agree (`check_vectors`), the farm ends after it
    /// starts, and every vault has one slot per stake token and farm token.
    pub open spec fn consistent(self) -> bool {
        &&& self.farm_token_rates.len() == self.farm_tokens.len()
        &&& self.total_harvested.len() == self.farm_tokens.len()
        &&& self.farm_deposits.len() == self.farm_tokens.len()
        &&& self.stake_rates.len() == self.stake_tokens.len()
        &&& self.total_stake.len() == self.stake_tokens.len()
        &&& self.fee_collected.len() == self.stake_tokens.len()
        &&& self.farming_start < self.farming_end
        &&& forall|a: Seq<char>| #[trigger] self.vaults.contains_key(a) ==> self.vault_fits(self.vaults[a])
    }

    /// The vault has one slot per stake token and per farm token.
    pub open spec fn vault_fits(self, v: VaultView) -> bool {
        &&& v.staked.len() == self.stake_tokens.len()
        &&& v.farmed_recovered.len() == self.farm_tokens.len()
    }

    /// The round a block timestamp (nanoseconds) falls in.
    pub open spec fn round_at(self, now_ns: u64) -> u64 {
        round_number_spec(self.farming_start, self.farming_end, (now_ns / SECOND) as u64) as u64
    }

    /// The state with the reward accumulator brought to `round`.
    pub open spec fn synced(self, round: u64) -> Option<Self> {
        match next_reward_acc(self.reward_acc, self.reward_acc_round, self.farm_unit_emission, self.staked_units, round) {
            None => None,
            Some(a) => Some(
                if self.staked_units == 0 || a != self.reward_acc {
                    P3View { reward_acc: a, reward_acc_round: round, ..self }
                } else {
                    self
                },
            ),
        }
    }

    /// The state synced to `round` and the vault pinged with it.
    pub open spec fn ping_all(self, v: VaultView, round: u64) -> Option<(Self, VaultView)> {
        match self.synced(round) {
            None => None,
            Some(c) => match vault_ping_spec(v, c.reward_acc, round) {
                None => None,
                Some(nv) => Some((c, nv)),
            },
        }
    }

    /// Staking units of a vault: its least staked token, raised by the Cheddy boost.
    pub open spec fn units_of(self, v: VaultView) -> Option<u128> {
        if !units_fit(v.staked, self.stake_rates) {
            None
        } else {
            let s = min_units(v.staked, self.stake_rates, self.stake_rates.len() as int);
            if v.cheddy.len() == 0 {
                Some(s as u128)
            } else if s * self.cheddar_nft_boost > u128::MAX || s + s * self.cheddar_nft_boost / (BASIS_P as int) > u128::MAX {
                None
            } else {
                Some((s + s * self.cheddar_nft_boost / (BASIS_P as int)) as u128)
            }
        }
    }

    /// The vault with its staking units recomputed, and the total units adjusted.
    pub open spec fn recompute(self, v: VaultView) -> Option<(Self, VaultView)> {
        match self.units_of(v) {
            None => None,
            Some(s) => if s > v.min_stake {
                if self.staked_units + (s - v.min_stake) > u128::MAX {
                    None
                } else {
                    Some((
                        P3View { staked_units: (self.staked_units + (s - v.min_stake)) as u128, ..self },
                        VaultView { min_stake: s, ..v },
                    ))
                }
            } else if s < v.min_stake {
                if self.staked_units < v.min_stake - s {
                    None
                } else {
                    Some((
                        P3View { staked_units: (self.staked_units - (v.min_stake - s)) as u128, ..self },
                        VaultView { min_stake: s, ..v },
                    ))
                }
            } else {
                Some((self, v))
            },
        }
    }

    /// The fee charged when `amount` staked tokens are returned.
    pub open spec fn fee_of(self, amount: u128) -> int {
        amount * self.fee_rate / 10_000
    }

    /// Returning `amount` of stake token `i` to `user`, the fee kept back:
    /// the stake total of the token goes down by the whole amount. Nothing
    /// happens for a zero amount.
    pub open spec fn transfer_staked_spec(self, user: Seq<char>, i: int, amount: u128) -> Option<(Self, Seq<ActionView>)> {
        if amount == 0 {
            Some((self, Seq::empty()))
        } else if amount * self.fee_rate > u128::MAX || self.fee_of(amount) > amount || self.total_stake[i] < amount {
            None
        } else {
            let fee = self.fee_of(amount) as u128;
            let sent = (amount - fee) as u128;
            let c = P3View { total_stake: self.total_stake.update(i, (self.total_stake[i] - amount) as u128), ..self };
            if self.stake_tokens[i] == NEAR_TOKEN@ {
                Some((c, seq![ActionView::TransferNear { receiver: user, amount: sent }]))
            } else {
                Some((c, seq![ActionView::TransferStaked { user, token: self.stake_tokens[i], token_i: i as usize, amount: sent, fee }]))
            }
        }
    }

    /// Returning the first `n` staked balances of `staked` to `user`.
    pub open spec fn transfer_all_upto(self, user: Seq<char>, staked: Seq<u128>, n: int) -> Option<(Self, Seq<ActionView>)>
        decreases n,
    {
        if n <= 0 {
            Some((self, Seq::empty()))
        } else {
            match self.transfer_all_upto(user, staked, n - 1) {
                None => None,
                Some((c, acts)) => match c.transfer_staked_spec(user, n - 1, staked[n - 1]) {
                    None => None,
                    Some((c2, a)) => Some((c2, acts + a)),
                },
            }
        }
    }

    /// Paying out `amount` of farm token `i` to `user`: harvested up, and for
    /// a fungible token the stake total at the same index down.
    pub open spec fn transfer_farmed_spec(self, user: Seq<char>, i: int, amount: u128) -> Option<(Self, ActionView)> {
        if self.total_harvested[i] + amount > u128::MAX {
            None
        } else {
            let c = P3View { total_harvested: self.total_harvested.update(i, (self.total_harvested[i] + amount) as u128), ..self };
            if self.farm_tokens[i] == NEAR_TOKEN@ {
                Some((c, ActionView::TransferNear { receiver: user, amount }))
            } else {
                Some((c, ActionView::TransferFarmed { user, token: self.farm_tokens[i], token_i: i as usize, amount }))
            }
        }
    }

    /// Paying out `farmed_units` translated into the first `n` farm tokens.
    pub open spec fn crop_upto(self, user: Seq<char>, farmed_units: u128, n: int) -> Option<(Self, Seq<ActionView>)>
        decreases n,
    {
        if n <= 0 {
            Some((self, Seq::empty()))
        } else {
            match self.crop_upto(user, farmed_units, n - 1) {
                None => None,
                Some((c, acts)) => if safe_mul_spec(farmed_units, self.farm_token_rates[n - 1]) > u128::MAX {
                    None
                } else {
                    match c.transfer_farmed_spec(user, n - 1, safe_mul_spec(farmed_units, self.farm_token_rates[n - 1]) as u128) {
                        None => None,
                        Some((c2, a)) => Some((c2, acts.push(a))),
                    }
                },
            }
        }
    }

    /// Paying out `farmed_units` in all farm tokens; nothing when zero.
    pub open spec fn withdraw_crop_spec(self, user: Seq<char>, farmed_units: u128) -> Option<(Self, Seq<ActionView>)> {
        if farmed_units == 0 {
            Some((self, Seq::empty()))
        } else {
            self.crop_upto(user, farmed_units, self.farm_tokens.len() as int)
        }
    }

    /// Taking the Cheddy NFT out of vault `v` of `user` at `round`, sending it
    /// to `receiver`: the vault is pinged, the NFT removed and the units recomputed.
    pub open spec fn withdraw_nft_spec(self, user: Seq<char>, v: VaultView, receiver: Seq<char>, round: u64) -> Result<(Self, VaultView, ActionView), Error> {
        if v.cheddy.len() == 0 {
            Err(Error::NoNft)
        } else {
            match self.ping_all(v, round) {
                None => Err(Error::ArithmeticOverflow),
                Some((c, pv)) => match c.recompute(VaultView { cheddy: Seq::empty(), ..pv }) {
                    None => Err(Error::ArithmeticOverflow),
                    Some((c2, nv)) => Ok((
                        c2,
                        nv,
                        ActionView::WithdrawNft { user, receiver, nft_contract: c.cheddar_nft, token_id: pv.cheddy },
                    )),
                },
            }
        }
    }

    /// The calls that need an active, set up farm.
    pub open spec fn active_check(self) -> Result<(), Error> {
        if !self.setup_finalized {
            Err(Error::NotSetup)
        } else if !self.is_active {
            Err(Error::NotActive)
        } else {
            Ok(())
        }
    }

    /// Closing the account of `user` at time `now`.
    pub open spec fn close_spec(self, user: Seq<char>, attached: u128, now: u64) -> Result<(Self, Seq<ActionView>), Error> {
        if self.active_check() is Err {
            Err(self.active_check()->Err_0)
        } else if attached != 1 {
            Err(Error::RequiresOneYocto)
        } else if !self.vaults.contains_key(user) {
            Err(Error::NoAccount)
        } else {
            let round = self.round_at(now);
            match self.ping_all(self.vaults[user], round) {
                None => Err(Error::ArithmeticOverflow),
                Some((c, v)) => if vault_is_empty(v) {
                    Ok((
                        P3View { vaults: c.vaults.remove(user), ..c },
                        seq![ActionView::TransferNear { receiver: user, amount: STORAGE_COST }],
                    ))
                } else if !units_fit(v.staked, c.stake_rates) {
                    Err(Error::ArithmeticOverflow)
                } else {
                    let s = min_units(v.staked, c.stake_rates, c.stake_rates.len() as int);
                    if c.staked_units < s {
                        Err(Error::ArithmeticOverflow)
                    } else {
                        let c1 = P3View { staked_units: (c.staked_units - s) as u128, ..c };
                        match c1.transfer_all_upto(user, v.staked, c1.total_stake.len() as int) {
                            None => Err(Error::ArithmeticOverflow),
                            Some((c1b, a1)) => match c1b.withdraw_crop_spec(user, v.farmed) {
                                None => Err(Error::ArithmeticOverflow),
                                Some((c2, a2)) => if v.cheddy.len() == 0 {
                                    Ok((P3View { vaults: c2.vaults.remove(user), ..c2 }, a1 + a2))
                                } else {
                                    match c2.withdraw_nft_spec(user, v, user, round) {
                                        Err(e) => Err(e),
                                        Ok((c3, _nv, a)) => Ok((P3View { vaults: c3.vaults.remove(user), ..c3 }, a1 + a2.push(a))),
                                    }
                                },
                            },
                        }
                    }
                },
            }
        }
    }

    /// Staking `amount` of `token` for `user` at `now`; answers the new units.
    pub open spec fn stake_spec(self, user: Seq<char>, token: Seq<char>, amount: u128, now: u64) -> Result<(Self, u128), Error> {
        if amount == 0 {
            Err(Error::ZeroAmount)
        } else {
            match index_of(self.stake_tokens, token) {
                None => Err(Error::NotListed),
                Some(i) => if !self.vaults.contains_key(user) {
                    Err(Error::NoAccount)
                } else {
                    match self.ping_all(self.vaults[user], self.round_at(now)) {
                        None => Err(Error::ArithmeticOverflow),
                        Some((c, v)) => if v.staked[i] + amount > u128::MAX || c.total_stake[i] + amount > u128::MAX {
                            Err(Error::ArithmeticOverflow)
                        } else {
                            let c2 = P3View { total_stake: c.total_stake.update(i, (c.total_stake[i] + amount) as u128), ..c };
                            match c2.recompute(VaultView { staked: v.staked.update(i, (v.staked[i] + amount) as u128), ..v }) {
                                None => Err(Error::ArithmeticOverflow),
                                Some((c3, nv)) => Ok((P3View { vaults: c3.vaults.insert(user, nv), ..c3 }, nv.min_stake)),
                            }
                        },
                    }
                },
            }
        }
    }

    /// Unstaking `amount` of `token` by `user` at `now`: unstaking everything
    /// staked closes the account. Answers what is left staked of the token.
    pub open spec fn unstake_spec(self, user: Seq<char>, token: Seq<char>, attached: u128, amount: u128, now: u64) -> Result<(Self, u128, Seq<ActionView>), Error> {
        if self.active_check() is Err {
            Err(self.active_check()->Err_0)
        } else if attached != 1 {
            Err(Error::RequiresOneYocto)
        } else {
            match index_of(self.stake_tokens, token) {
                None => Err(Error::NotListed),
                Some(i) => if !self.vaults.contains_key(user) {
                    Err(Error::NoAccount)
                } else {
                    let v0 = self.vaults[user];
                    if amount > v0.staked[i] {
                        Err(Error::NotEnoughStake)
                    } else if seq_sum(v0.staked) > u128::MAX {
                        Err(Error::ArithmeticOverflow)
                    } else if amount == seq_sum(v0.staked) {
                        match self.close_spec(user, attached, now) {
                            Err(e) => Err(e),
                            Ok((s, acts)) => Ok((s, 0u128, acts)),
                        }
                    } else {
                        match self.ping_all(v0, self.round_at(now)) {
                            None => Err(Error::ArithmeticOverflow),
                            Some((c, v)) => {
                                let remaining = (v.staked[i] - amount) as u128;
                                match c.recompute(VaultView { staked: v.staked.update(i, remaining), ..v }) {
                                    None => Err(Error::ArithmeticOverflow),
                                    Some((c2, nv)) => match c2.transfer_staked_spec(user, i, amount) {
                                        None => Err(Error::ArithmeticOverflow),
                                        Some((c3, acts)) => Ok((P3View { vaults: c3.vaults.insert(user, nv), ..c3 }, remaining, acts)),
                                    },
                                }
                            },
                        }
                    }
                },
            }
        }
    }

    /// The vault of `user` to recover into: the current one, or a fresh one
    /// (counted as registered) when the account was closed meanwhile.
    pub open spec fn recovered_vault_spec(self, user: Seq<char>) -> Option<(Self, VaultView)> {
        if self.vaults.contains_key(user) {
            Some((self, self.vaults[user]))
        } else if self.accounts_registered + 1 > u64::MAX {
            None
        } else {
            Some((
                P3View { accounts_registered: (self.accounts_registered + 1) as u64, ..self },
                new_vault_spec(self.stake_tokens.len(), self.farm_tokens.len(), self.reward_acc),
            ))
        }
    }

    /// Recovering `amount` of staked token `i` (`is_staked`) or of harvested
    /// farm token `i` for `user` after a failed transfer.
    pub open spec fn recover_state_spec(self, user: Seq<char>, is_staked: bool, i: int, amount: u128) -> Option<Self> {
        match self.recovered_vault_spec(user) {
            None => None,
            Some((c, v)) => if is_staked {
                if v.staked[i] + amount > u128::MAX {
                    None
                } else {
                    let staked = v.staked.update(i, (v.staked[i] + amount) as u128);
                    if !units_fit(staked, c.stake_rates) {
                        None
                    } else {
                        let s = min_units(staked, c.stake_rates, c.stake_rates.len() as int);
                        if s < v.min_stake || (s > v.min_stake && c.staked_units + (s - v.min_stake) > u128::MAX) {
                            None
                        } else {
                            let c2 = if s > v.min_stake {
                                P3View { staked_units: (c.staked_units + (s - v.min_stake)) as u128, ..c }
                            } else {
                                c
                            };
                            Some(P3View { vaults: c2.vaults.insert(user, VaultView { staked, ..v }), ..c2 })
                        }
                    }
                }
            } else if c.total_harvested[i] < amount {
                None
            } else {
                let c2 = P3View { total_harvested: c.total_harvested.update(i, (c.total_harvested[i] - amount) as u128), ..c };
                Some(P3View { vaults: c2.vaults.insert(user, v), ..c2 })
            },
        }
    }

    /// Rounds of the whole farm.
    pub open spec fn total_rounds(self) -> int {
        round_number_spec(self.farming_start, self.farming_end, self.farming_end)
    }

    /// Deposit of farm token `i` the farm needs; `None` when it overflows.
    pub open spec fn expected_deposit(self, i: int) -> Option<u128> {
        let units = self.total_rounds() * self.farm_unit_emission;
        if units > u128::MAX || safe_mul_spec(units as u128, self.farm_token_rates[i]) > u128::MAX {
            None
        } else {
            Some(safe_mul_spec(units as u128, self.farm_token_rates[i]) as u128)
        }
    }

    /// The setup deposit of `amount` of `token`.
    pub open spec fn setup_deposit_spec(self, token: Seq<char>, amount: u128) -> Result<Self, Error> {
        if self.setup_finalized {
            Err(Error::SetupFinalized)
        } else {
            match index_of(self.farm_tokens, token) {
                None => Err(Error::NotListed),
                Some(i) => match self.expected_deposit(i) {
                    None => Err(Error::ArithmeticOverflow),
                    Some(expected) => if self.farm_deposits[i] != 0 {
                        Err(Error::DepositDone)
                    } else if amount != expected {
                        Err(Error::WrongDeposit { expected })
                    } else {
                        Ok(P3View { farm_deposits: self.farm_deposits.update(i, amount), ..self })
                    },
                },
            }
        }
    }
}

/// Once paying out fails for some farm token, it fails for every longer list.
pub proof fn lemma_crop_none_stays(c: P3View, user: Seq<char>, farmed_units: u128, k: int, n: int)
    requires
        0 <= k <= n,
        c.crop_upto(user, farmed_units, k) is None,
    ensures
        c.crop_upto(user, farmed_units, n) is None,
    decreases n,
{
    if k < n {
        lemma_crop_none_stays(c, user, farmed_units, k, n - 1);
    }
}

/// Once returning a staked balance fails, it fails for every longer list.
pub proof fn lemma_transfer_none_stays(c: P3View, user: Seq<char>, staked: Seq<u128>, k: int, n: int)
    requires
        0 <= k <= n,
        c.transfer_all_upto(user, staked, k) is None,
    ensures
        c.transfer_all_upto(user, staked, n) is None,
    decreases n,
{
    if k < n {
        lemma_transfer_none_stays(c, user, staked, k, n - 1);
    }
}

} // verus!
