//! The NFT farm contract: configuration, counters, and the internal steps
//! every call is made of.
use super::helpers::{
    all_empty, extract_contract_token_ids, min_stake, min_stake_fits, min_stake_spec, split_contract_token,
    staked_view, try_extract_contract_token_ids, try_min_stake,
};
use super::spec::{same_config, ActionView, Error, P4View};
use super::vault::{copy_amounts, Vault, VaultView};
use crate::account_map::AccountMap;
use crate::farming::{compute_next_reward_acc, next_reward_acc};
use crate::near::CallContext;
use crate::p3_lib::constants::{BASIS_P, SECOND};
use crate::p3_lib::helpers::{contains_account, position, round_number, round_number_spec};
use crate::u256::checked_mul_div;
use vstd::prelude::*;
use vstd::string::StrSliceExecFns;

verus! {

/// Cross-contract work a call asks for; the caller of the library performs it.
pub enum Action {
    /// Send native NEAR.
    TransferNear { receiver: String, amount: u128 },
    /// `nft_transfer` of a staked NFT back to `user`, then `transfer_staked_callback`.
    TransferStakedNft { user: String, nft_contract_id: String, nft_ctr_idx: usize, token_id: String },
    /// `ft_transfer` of farmed tokens, then `transfer_farmed_callback`.
    TransferFarmed { user: String, token_id: String, token_idx: usize, amount: u128 },
    /// `ft_transfer` of locked Cheddar back to `user`, then `transfer_staked_cheddar_callback`.
    TransferStakedCheddar { user: String, cheddar: String, amount: u128 },
    /// `nft_transfer` of the boost NFT back to `user`, then `withdraw_boost_nft_callback`.
    WithdrawBoostNft { user: String, nft_contract_id: String, token_id: String, contract_and_token_id: String, nft_ctr_idx: usize },
}

impl View for Action {
    type V = ActionView;

    open spec fn view(&self) -> ActionView {
        match self {
            Action::TransferNear { receiver, amount } => ActionView::TransferNear { receiver: receiver@, amount: *amount },
            Action::TransferStakedNft { user, nft_contract_id, nft_ctr_idx, token_id } => ActionView::TransferStakedNft {
                user: user@,
                nft_contract_id: nft_contract_id@,
                nft_ctr_idx: *nft_ctr_idx,
                token_id: token_id@,
            },
            Action::TransferFarmed { user, token_id, token_idx, amount } => ActionView::TransferFarmed {
                user: user@,
                token_id: token_id@,
                token_idx: *token_idx,
                amount: *amount,
            },
            Action::TransferStakedCheddar { user, cheddar, amount } => ActionView::TransferStakedCheddar {
                user: user@,
                cheddar: cheddar@,
                amount: *amount,
            },
            Action::WithdrawBoostNft { user, nft_contract_id, token_id, contract_and_token_id, nft_ctr_idx } => ActionView::WithdrawBoostNft {
                user: user@,
                nft_contract_id: nft_contract_id@,
                token_id: token_id@,
                contract_and_token_id: contract_and_token_id@,
                nft_ctr_idx: *nft_ctr_idx,
            },
        }
    }
}

/// The views of a list of actions.
pub open spec fn actions_view(v: Seq<Action>) -> Seq<ActionView> {
    v.map_values(|a: Action| a@)
}

/// The names of a list of accounts.
pub open spec fn names(v: Seq<String>) -> Seq<Seq<char>> {
    v.map_values(|s: String| s@)
}

/// Implementing the "Scalable Reward Distribution on the Ethereum Blockchain"
/// algorithm for NFT stakes.
pub struct Contract {
    pub is_active: bool,
    pub setup_finalized: bool,
    pub owner_id: String,
    /// Treasury address - a destination for the collected fees.
    pub treasury: String,
    /// user vaults
    pub vaults: AccountMap<Vault>,
    /// NFT contracts whose NFTs can be staked
    pub stake_nft_tokens: Vec<String>,
    /// total number of units currently staked
    pub staked_units: u128,
    /// units of one NFT of each collection (times 1e24)
    pub stake_rates: Vec<u128>,
    pub farm_tokens: Vec<String>,
    /// tokens paid per farmed unit (times 1e24), per farm token
    pub farm_token_rates: Vec<u128>,
    /// farm units emitted per round
    pub farm_unit_emission: u128,
    /// received deposits for farming rewards
    pub farm_deposits: Vec<u128>,
    /// unix timestamp (seconds) when the farming starts.
    pub farming_start: u64,
    /// unix timestamp (seconds) when the farming ends (first time with no farming).
    pub farming_end: u64,
    /// NFT contracts whose NFTs boost the farming
    pub boost_nft_contracts: Vec<String>,
    /// Cheddy NFT contract
    pub cheddy: String,
    /// number of boost NFTs received, per boost contract
    pub total_boost: Vec<u128>,
    /// boost of a boost NFT, in basis points
    pub nft_boost: u32,
    /// boost of a Cheddy NFT, in basis points
    pub cheddy_boost: u32,
    /// total number of harvested farm tokens
    pub total_harvested: Vec<u128>,
    /// rewards accumulator: running sum of farm units per staked unit
    pub reward_acc: u128,
    /// round number when the accumulator was last updated
    pub reward_acc_round: u64,
    /// number of staked NFTs, per collection
    pub total_stake: Vec<u128>,
    /// total amount of locked Cheddar
    pub total_cheddar_stake: u128,
    /// number of registered accounts
    pub accounts_registered: u64,
    /// Cheddar locked per staked NFT
    pub cheddar_rate: u128,
    /// Cheddar token account
    pub cheddar: String,
}

impl View for Contract {
    type V = P4View;

    open spec fn view(&self) -> P4View {
        P4View {
            is_active: self.is_active,
            setup_finalized: self.setup_finalized,
            owner_id: self.owner_id@,
            treasury: self.treasury@,
            vaults: self.vaults@,
            stake_nft_tokens: names(self.stake_nft_tokens@),
            staked_units: self.staked_units,
            stake_rates: self.stake_rates@,
            farm_tokens: names(self.farm_tokens@),
            farm_token_rates: self.farm_token_rates@,
            farm_unit_emission: self.farm_unit_emission,
            farm_deposits: self.farm_deposits@,
            farming_start: self.farming_start,
            farming_end: self.farming_end,
            boost_nft_contracts: names(self.boost_nft_contracts@),
            cheddy: self.cheddy@,
            total_boost: self.total_boost@,
            nft_boost: self.nft_boost,
            cheddy_boost: self.cheddy_boost,
            total_harvested: self.total_harvested@,
            reward_acc: self.reward_acc,
            reward_acc_round: self.reward_acc_round,
            total_stake: self.total_stake@,
            total_cheddar_stake: self.total_cheddar_stake,
            accounts_registered: self.accounts_registered,
            cheddar_rate: self.cheddar_rate,
            cheddar: self.cheddar@,
        }
    }
}

/// The counters of the contract, saved before a call that may be refused
/// after it changed some of them.
pub struct Counters {
    pub staked_units: u128,
    pub reward_acc: u128,
    pub reward_acc_round: u64,
    pub total_stake: Vec<u128>,
    pub total_boost: Vec<u128>,
    pub total_harvested: Vec<u128>,
    pub farm_deposits: Vec<u128>,
    pub total_cheddar_stake: u128,
    pub accounts_registered: u64,
}

/// Position of `acc` in `list`, as the spec's `index_of` finds it.
pub fn find_index(acc: &String, list: &Vec<String>) -> (r: Option<usize>)
    ensures
        super::spec::index_of(names(list@), acc@) is None <==> r is None,
        r matches Some(i) ==> i < list@.len() && super::spec::index_of(names(list@), acc@) == Some(i as int),
{
    let ghost n = names(list@);
    match position(acc, list) {
        Some(i) => {
            proof {
                assert(n[i as int] == acc@);
                assert(n.contains(acc@));
                let k = choose|k: int| 0 <= k < n.len() && n[k] == acc@ && forall|j: int| 0 <= j < k ==> n[j] != acc@;
                assert(forall|j: int| 0 <= j < i ==> n[j] != acc@) by {
                    assert forall|j: int| 0 <= j < i implies n[j] != acc@ by {
                        assert(n[j] == list@[j]@);
                    }
                }
                if k < i {
                    assert(n[k] == list@[k]@);
                } else if k > i {
                }
            }
            Some(i)
        },
        None => {
            proof {
                if n.contains(acc@) {
                    let k = choose|k: int| 0 <= k < n.len() && n[k] == acc@;
                    assert(list@[k]@ == acc@);
                }
            }
            None
        },
    }
}

impl Contract {
    /// Well-formed maps and consistent vectors.
    pub open spec fn wf(&self) -> bool {
        self.vaults.wf() && self@.consistent()
    }

    /// Saves the counters.
    pub fn save(&self) -> (r: Counters)
        ensures
            r.staked_units == self.staked_units,
            r.reward_acc == self.reward_acc,
            r.reward_acc_round == self.reward_acc_round,
            r.total_stake@ == self.total_stake@,
            r.total_boost@ == self.total_boost@,
            r.total_harvested@ == self.total_harvested@,
            r.farm_deposits@ == self.farm_deposits@,
            r.total_cheddar_stake == self.total_cheddar_stake,
            r.accounts_registered == self.accounts_registered,
    {
        Counters {
            staked_units: self.staked_units,
            reward_acc: self.reward_acc,
            reward_acc_round: self.reward_acc_round,
            total_stake: copy_amounts(&self.total_stake),
            total_boost: copy_amounts(&self.total_boost),
            total_harvested: copy_amounts(&self.total_harvested),
            farm_deposits: copy_amounts(&self.farm_deposits),
            total_cheddar_stake: self.total_cheddar_stake,
            accounts_registered: self.accounts_registered,
        }
    }

    /// Puts saved counters back.
    pub fn restore(&mut self, c: Counters)
        requires
            old(self).wf(),
            c.total_stake@.len() == old(self).total_stake@.len(),
            c.total_boost@.len() == old(self).total_boost@.len(),
            c.total_harvested@.len() == old(self).total_harvested@.len(),
            c.farm_deposits@.len() == old(self).farm_deposits@.len(),
        ensures
            final(self).wf(),
            final(self)@ == (P4View {
                staked_units: c.staked_units,
                reward_acc: c.reward_acc,
                reward_acc_round: c.reward_acc_round,
                total_stake: c.total_stake@,
                total_boost: c.total_boost@,
                total_harvested: c.total_harvested@,
                farm_deposits: c.farm_deposits@,
                total_cheddar_stake: c.total_cheddar_stake,
                accounts_registered: c.accounts_registered,
                ..old(self)@
            }),
    {
        self.staked_units = c.staked_units;
        self.reward_acc = c.reward_acc;
        self.reward_acc_round = c.reward_acc_round;
        self.total_stake = c.total_stake;
        self.total_boost = c.total_boost;
        self.total_harvested = c.total_harvested;
        self.farm_deposits = c.farm_deposits;
        self.total_cheddar_stake = c.total_cheddar_stake;
        self.accounts_registered = c.accounts_registered;
    }

    /// The round of block time `now` (nanoseconds): 0 before the start, one
    /// more every `ROUND` seconds, up to the end.
    pub fn current_round(&self, now: u64) -> (r: u64)
        requires
            self@.farming_start < self@.farming_end,
        ensures
            r == self@.round_at(now),
    {
        round_number(self.farming_start, self.farming_end, now / SECOND)
    }

    /// The accumulator at `round`; `None` when it leaves the `u128` range.
    pub fn compute_reward_acc(&self, round: u64) -> (r: Option<u128>)
        ensures
            r == next_reward_acc(self.reward_acc, self.reward_acc_round, self.farm_unit_emission, self.staked_units, round),
    {
        compute_next_reward_acc(self.reward_acc, self.reward_acc_round, self.farm_unit_emission, self.staked_units, round)
    }

    /// Brings the accumulator to `round`; `false`, changing nothing, on overflow.
    pub fn update_reward_acc(&mut self, round: u64) -> (r: bool)
        requires
            old(self).wf(),
        ensures
            final(self).wf(),
            match old(self)@.synced(round) {
                None => !r && final(self)@ == old(self)@,
                Some(c) => r && final(self)@ == c,
            },
    {
        let new_acc = match self.compute_reward_acc(round) {
            None => return false,
            Some(a) => a,
        };
        if self.staked_units == 0 || new_acc != self.reward_acc {
            self.reward_acc = new_acc;
            self.reward_acc_round = round;
        }
        true
    }

    /// Syncs the accumulator to `round` and pings `vault` with it; `false` on
    /// overflow, with the accumulator possibly moved (the caller restores it).
    pub fn ping_all(&mut self, vault: &mut Vault, round: u64) -> (r: bool)
        requires
            old(self).wf(),
        ensures
            final(self).wf(),
            same_config(old(self)@, final(self)@),
            match old(self)@.ping_all(old(vault)@, round) {
                None => !r && final(vault)@ == old(vault)@,
                Some((c, v)) => r && final(self)@ == c && final(vault)@ == v,
            },
    {
        if !self.update_reward_acc(round) {
            return false;
        }
        vault.ping(self.reward_acc, round)
    }

    /// Recomputes the staking units of `vault` and adjusts the total; `false`,
    /// changing nothing, on overflow or an invalid boost id.
    pub fn _recompute_stake(&mut self, vault: &mut Vault) -> (r: bool)
        requires
            old(self).wf(),
            old(self)@.vault_fits(old(vault)@),
        ensures
            final(self).wf(),
            match old(self)@.recompute(old(vault)@) {
                None => !r && final(self)@ == old(self)@ && final(vault)@ == old(vault)@,
                Some((c, v)) => r && final(self)@ == c && final(vault)@ == v,
            },
    {
        let mut s = match try_min_stake(&vault.staked, &self.stake_rates) {
            None => return false,
            Some(m) => m,
        };
        if vault.boost_nft.as_str().unicode_len() != 0 {
            let (boost_contract, _) = match try_extract_contract_token_ids(&vault.boost_nft) {
                None => return false,
                Some(p) => p,
            };
            let nft_boost_rate: u32 = if boost_contract == self.cheddy {
                self.cheddy_boost
            } else {
                self.nft_boost
            };
            let prod = match s.checked_mul(nft_boost_rate as u128) {
                None => return false,
                Some(p) => p,
            };
            s = match s.checked_add(prod / BASIS_P) {
                None => return false,
                Some(x) => x,
            };
        }
        if s > vault.min_stake {
            let diff = s - vault.min_stake;
            if diff > u128::MAX - self.staked_units {
                return false;
            }
            self.staked_units = self.staked_units + diff;
            vault.min_stake = s;
        } else if s < vault.min_stake {
            let diff = vault.min_stake - s;
            if self.staked_units < diff {
                return false;
            }
            self.staked_units = self.staked_units - diff;
            vault.min_stake = s;
        }
        true
    }

    /// Sends NFT `token_id` of collection `nft_ctr_idx` back to `user`.
    pub fn transfer_staked_nft(&mut self, user: &String, nft_ctr_idx: usize, token_id: String) -> (r: Option<Action>)
        requires
            old(self).wf(),
            nft_ctr_idx < old(self)@.total_stake.len(),
        ensures
            final(self).wf(),
            same_config(old(self)@, final(self)@),
            match old(self)@.transfer_staked_nft_spec(user@, nft_ctr_idx as int, token_id@) {
                None => r is None && final(self)@ == old(self)@,
                Some((c, a)) => r matches Some(x) && x@ == a && final(self)@ == c,
            },
    {
        if self.total_stake[nft_ctr_idx] < 1 {
            return None;
        }
        let t = self.total_stake[nft_ctr_idx] - 1;
        self.total_stake.set(nft_ctr_idx, t);
        Some(Action::TransferStakedNft {
            user: user.clone(),
            nft_contract_id: self.stake_nft_tokens[nft_ctr_idx].clone(),
            nft_ctr_idx,
            token_id,
        })
    }

    /// Sends all NFTs of `staked` back to `user`, appending the actions.
    pub fn transfer_all_staked(&mut self, user: &String, staked: &Vec<Vec<String>>, actions: &mut Vec<Action>) -> (r: bool)
        requires
            old(self).wf(),
            staked@.len() == old(self)@.total_stake.len(),
        ensures
            final(self).wf(),
            same_config(old(self)@, final(self)@),
            match old(self)@.transfer_all_staked_spec(user@, staked_view(staked@)) {
                None => !r,
                Some((c, acts)) => r && final(self)@ == c && actions_view(final(actions)@) == actions_view(old(actions)@) + acts,
            },
    {
        let ghost sv = staked_view(staked@);
        let ghost o = self@;
        let ghost a0 = actions_view(actions@);
        let mut k: usize = 0;
        while k < staked.len()
            invariant
                self.wf(),
                o == old(self)@,
                a0 == actions_view(old(actions)@),
                same_config(o, self@),
                sv == staked_view(staked@),
                staked@.len() == o.total_stake.len(),
                k <= staked@.len(),
                forall|j: int| 0 <= j < k ==> o.total_stake[j] >= #[trigger] sv[j].len(),
                forall|j: int| 0 <= j < k ==> #[trigger] self@.total_stake[j] == o.total_stake[j] - sv[j].len(),
                forall|j: int| k <= j < staked@.len() ==> #[trigger] self@.total_stake[j] == o.total_stake[j],
                actions_view(actions@) == a0 + super::spec::nft_actions_upto(user@, o.stake_nft_tokens, sv, k as int),
                self@ == (P4View { total_stake: self@.total_stake, ..o }),
            decreases staked@.len() - k,
        {
            let n = staked[k].len();
            proof {
                assert(sv[k as int] == staked@[k as int]@.map_values(|s: String| s@));
            }
            if (self.total_stake[k] as u128) < (n as u128) {
                proof {
                    assert(o.total_stake[k as int] < sv[k as int].len());
                }
                return false;
            }
            let mut t: usize = 0;
            let ghost mid = actions_view(actions@);
            while t < n
                invariant
                    self.wf(),
                    o == old(self)@,
                    same_config(o, self@),
                    sv == staked_view(staked@),
                    staked@.len() == o.total_stake.len(),
                    k < staked@.len(),
                    n == sv[k as int].len(),
                    n == staked@[k as int]@.len(),
                    t <= n,
                    o.total_stake[k as int] >= n,
                    forall|j: int| 0 <= j < k ==> #[trigger] self@.total_stake[j] == o.total_stake[j] - sv[j].len(),
                    forall|j: int| k < j < staked@.len() ==> #[trigger] self@.total_stake[j] == o.total_stake[j],
                    self@.total_stake[k as int] == o.total_stake[k as int] - t,
                    actions_view(actions@) == mid + super::spec::nft_actions_of(user@, o.stake_nft_tokens[k as int], k as int, sv[k as int].take(t as int)),
                    self@ == (P4View { total_stake: self@.total_stake, ..o }),
                decreases n - t,
            {
                let tok = staked[k][t].clone();
                let ghost tokv = tok@;
                let ghost before = actions@;
                let a = self.transfer_staked_nft(user, k, tok);
                match a {
                    Some(a) => {
                        actions.push(a);
                        proof {
                            assert(sv[k as int][t as int] == staked@[k as int]@[t as int]@);
                            assert(tokv == sv[k as int][t as int]);
                            assert(self@.stake_nft_tokens == o.stake_nft_tokens);
                            assert(actions@.last()@ == ActionView::TransferStakedNft { user: user@, nft_contract_id: o.stake_nft_tokens[k as int], nft_ctr_idx: k, token_id: tokv });
                            assert(sv[k as int].take(t as int + 1) =~= sv[k as int].take(t as int).push(sv[k as int][t as int]));
                            assert(actions_view(actions@) =~= actions_view(before).push(actions@.last()@));
                            assert(super::spec::nft_actions_of(user@, o.stake_nft_tokens[k as int], k as int, sv[k as int].take(t as int + 1))
                                =~= super::spec::nft_actions_of(user@, o.stake_nft_tokens[k as int], k as int, sv[k as int].take(t as int)).push(
                                    ActionView::TransferStakedNft { user: user@, nft_contract_id: o.stake_nft_tokens[k as int], nft_ctr_idx: k, token_id: tokv }));
                        }
                    },
                    None => {
                        return false;
                    },
                }
                t = t + 1;
            }
            proof {
                assert(sv[k as int].take(n as int) =~= sv[k as int]);
                assert(super::spec::nft_actions_upto(user@, o.stake_nft_tokens, sv, k as int + 1)
                    == super::spec::nft_actions_upto(user@, o.stake_nft_tokens, sv, k as int)
                        + super::spec::nft_actions_of(user@, o.stake_nft_tokens[k as int], k as int, sv[k as int]));
                assert(actions_view(actions@) =~= a0 + super::spec::nft_actions_upto(user@, o.stake_nft_tokens, sv, k as int + 1));
            }
            k = k + 1;
        }
        proof {
            assert(self@.total_stake =~= Seq::new(o.total_stake.len(), |j: int| (o.total_stake[j] - sv[j].len()) as u128));
        }
        true
    }

    /// Pays `amount` of farm token `token_idx` to `user`: native NEAR, or an
    /// `ft_transfer` for a fungible token.
    pub fn transfer_farmed_tokens(&mut self, user: &String, token_idx: usize, amount: u128) -> (r: Option<Action>)
        requires
            old(self).wf(),
            token_idx < old(self)@.farm_tokens.len(),
        ensures
            final(self).wf(),
            same_config(old(self)@, final(self)@),
            match old(self)@.transfer_farmed_spec(user@, token_idx as int, amount) {
                None => r is None && final(self)@ == old(self)@,
                Some((c, a)) => r matches Some(x) && x@ == a && final(self)@ == c,
            },
    {
        if amount > u128::MAX - self.total_harvested[token_idx] || self.farm_deposits[token_idx] < amount {
            return None;
        }
        let h = self.total_harvested[token_idx] + amount;
        self.total_harvested.set(token_idx, h);
        let d = self.farm_deposits[token_idx] - amount;
        self.farm_deposits.set(token_idx, d);
        let ft_contract_id = self.farm_tokens[token_idx].clone();
        proof {
            assert(names(self.farm_tokens@)[token_idx as int] == self.farm_tokens@[token_idx as int]@);
        }
        if ft_contract_id == crate::p3_lib::helpers::near() {
            Some(Action::TransferNear { receiver: user.clone(), amount })
        } else {
            Some(Action::TransferFarmed { user: user.clone(), token_id: ft_contract_id, token_idx, amount })
        }
    }

    /// Pays `farmed_units`, translated into every farm token, to `user`,
    /// appending the actions. The caller zeroes the vault's farmed units first.
    pub fn _withdraw_crop(&mut self, user: &String, farmed_units: u128, actions: &mut Vec<Action>) -> (r: bool)
        requires
            old(self).wf(),
        ensures
            final(self).wf(),
            same_config(old(self)@, final(self)@),
            match old(self)@.withdraw_crop_spec(user@, farmed_units) {
                None => !r,
                Some((c, acts)) => r && final(self)@ == c && actions_view(final(actions)@) == actions_view(old(actions)@) + acts,
            },
    {
        if farmed_units == 0 {
            proof {
                assert(actions_view(actions@) =~= actions_view(actions@) + Seq::<ActionView>::empty());
            }
            return true;
        }
        let ghost o = self@;
        let ghost a0 = actions_view(actions@);
        let mut i: usize = 0;
        while i < self.farm_tokens.len()
            invariant
                self.wf(),
                o == old(self)@,
                a0 == actions_view(old(actions)@),
                farmed_units != 0,
                same_config(o, self@),
                i <= o.farm_tokens.len(),
                self.farm_tokens@.len() == o.farm_tokens.len(),
                o.crop_upto(user@, farmed_units, i as int) matches Some((c, acts)) && self@ == c && actions_view(actions@) == a0 + acts,
            decreases o.farm_tokens.len() - i,
        {
            let rate = self.farm_token_rates[i];
            let amount = match checked_mul_div(farmed_units, rate, crate::p3_lib::constants::E24) {
                None => {
                    proof {
                        super::spec::lemma_crop_none_stays(o, user@, farmed_units, i as int + 1, o.farm_tokens.len() as int);
                    }
                    return false;
                },
                Some(x) => x,
            };
            let ghost before = actions@;
            match self.transfer_farmed_tokens(user, i, amount) {
                None => {
                    proof {
                        super::spec::lemma_crop_none_stays(o, user@, farmed_units, i as int + 1, o.farm_tokens.len() as int);
                    }
                    return false;
                },
                Some(a) => {
                    actions.push(a);
                    proof {
                        assert(actions_view(actions@) =~= actions_view(before).push(actions@.last()@));
                    }
                },
            }
            i = i + 1;
        }
        true
    }

    /// Sends `amount` of locked Cheddar (the Cheddar rate when `None`) back to `user`.
    pub fn transfer_staked_cheddar(&mut self, user: &String, amount: Option<u128>) -> (r: Option<Action>)
        requires
            old(self).wf(),
        ensures
            final(self).wf(),
            same_config(old(self)@, final(self)@),
            match old(self)@.transfer_staked_cheddar_spec(user@, amount) {
                None => r is None && final(self)@ == old(self)@,
                Some((c, a)) => r matches Some(x) && x@ == a && final(self)@ == c,
            },
    {
        let transfered_amount = match amount {
            Some(a) => a,
            None => self.cheddar_rate,
        };
        if self.total_cheddar_stake < transfered_amount {
            return None;
        }
        self.total_cheddar_stake = self.total_cheddar_stake - transfered_amount;
        Some(Action::TransferStakedCheddar { user: user.clone(), cheddar: self.cheddar.clone(), amount: transfered_amount })
    }

    /// The vault of `account_id`, if registered.
    pub fn get_vault(&self, account_id: &String) -> (r: Result<Vault, Error>)
        requires
            self.wf(),
        ensures
            match r {
                Ok(v) => self@.vaults.contains_key(account_id@) && v@ == self@.vaults[account_id@],
                Err(e) => !self@.vaults.contains_key(account_id@) && e == Error::NoAccount,
            },
    {
        match self.vaults.get(account_id) {
            Some(v) => Ok(v.clone_vault()),
            None => Err(Error::NoAccount),
        }
    }

    /// An empty vault for a new account.
    pub fn new_vault(&self) -> (r: Vault)
        ensures
            r@ == self@.fresh_vault(),
    {
        proof {
            assert(names(self.stake_nft_tokens@).len() == self.stake_nft_tokens@.len());
        }
        Vault::new(self.stake_nft_tokens.len(), self.farm_tokens.len(), self.reward_acc)
    }

    /// Registers `user` with an empty vault.
    pub fn create_account(&mut self, user: &String) -> (r: bool)
        requires
            old(self).wf(),
        ensures
            final(self).wf(),
            old(self)@.accounts_registered == u64::MAX ==> !r && final(self)@ == old(self)@,
            old(self)@.accounts_registered < u64::MAX ==> r && final(self)@ == (P4View {
                vaults: old(self)@.vaults.insert(user@, old(self)@.fresh_vault()),
                accounts_registered: (old(self)@.accounts_registered + 1) as u64,
                ..old(self)@
            }),
    {
        if self.accounts_registered == u64::MAX {
            return false;
        }
        let v = self.new_vault();
        self.vaults.insert(user.clone(), v);
        self.accounts_registered = self.accounts_registered + 1;
        proof {
            assert forall|a: Seq<char>| #[trigger] self@.vaults.contains_key(a) implies self@.vault_fits(self@.vaults[a]) by {
                if a != user@ {
                    assert(old(self)@.vaults.contains_key(a));
                }
            }
        }
        true
    }

    /// The vault of `user` to recover a failed transfer into: the current one,
    /// or a fresh one (counting the account again) when it was closed meanwhile.
    pub fn recovered_vault(&mut self, user: &String) -> (r: Option<Vault>)
        requires
            old(self).wf(),
        ensures
            final(self).wf(),
            same_config(old(self)@, final(self)@),
            match old(self)@.recovered_vault_spec(user@) {
                None => r is None && final(self)@ == old(self)@,
                Some((c, v)) => r matches Some(x) && x@ == v && final(self)@ == c,
            },
    {
        match self.vaults.get(user) {
            Some(v) => Some(v.clone_vault()),
            None => {
                if self.accounts_registered == u64::MAX {
                    return None;
                }
                self.accounts_registered = self.accounts_registered + 1;
                Some(self.new_vault())
            },
        }
    }

    /// Stores `v` as the vault of `user`.
    pub fn put_vault(&mut self, user: &String, v: Vault)
        requires
            old(self).wf(),
            old(self)@.vault_fits(v@),
        ensures
            final(self).wf(),
            final(self)@ == (P4View { vaults: old(self)@.vaults.insert(user@, v@), ..old(self)@ }),
    {
        self.vaults.insert(user.clone(), v);
        proof {
            assert forall|a: Seq<char>| #[trigger] self@.vaults.contains_key(a) implies self@.vault_fits(self@.vaults[a]) by {
                if a != user@ {
                    assert(old(self)@.vaults.contains_key(a));
                }
            }
        }
    }

    /// Removes the vault of `user`.
    pub fn drop_vault(&mut self, user: &String)
        requires
            old(self).wf(),
        ensures
            final(self).wf(),
            final(self)@ == (P4View { vaults: old(self)@.vaults.remove(user@), ..old(self)@ }),
    {
        let _ = self.vaults.remove(user);
        proof {
            assert forall|a: Seq<char>| #[trigger] self@.vaults.contains_key(a) implies self@.vault_fits(self@.vaults[a]) by {
                assert(old(self)@.vaults.contains_key(a));
            }
        }
    }
}

} // verus!
