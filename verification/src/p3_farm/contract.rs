//! The multi-token farm contract.
use super::helpers::{checked_sum, farmed_tokens, min_stake, min_units, seq_sum, units_fit};
use super::spec::{same_config, ActionView, Error, P3View, MSG_SETUP_DEPOSIT};
use super::vault::{new_vault_spec, vault_is_empty, Vault, VaultView};
use crate::account_map::AccountMap;
use crate::farming::{compute_next_reward_acc, next_reward_acc};
use crate::near::{CallContext, PromiseResult};
use crate::p3_lib::constants::{BASIS_P, E24, NEAR_TOKEN, ROUND, SECOND, STORAGE_COST};
use crate::p3_lib::helpers::{round_number, safe_mul_spec};
use crate::p4_farm_nft::contract::{find_index, names};
use crate::p4_farm_nft::management::{copy_names, farmed_per_token, zeros};
use crate::p4_farm_nft::spec::index_of;
use crate::p4_farm_nft::vault::copy_amounts;
use crate::storage::{StorageBalance, StorageBalanceBounds};
use crate::u256::checked_mul_div;
use vstd::prelude::*;
use vstd::string::{StrSliceExecFns, StringExecFns};

verus! {

/// Cross-contract work a call asks for; the caller of the library performs it.
pub enum Action {
    TransferNear { receiver: String, amount: u128 },
    TransferStaked { user: String, token: String, token_i: usize, amount: u128, fee: u128 },
    TransferFarmed { user: String, token: String, token_i: usize, amount: u128 },
    WithdrawNft { user: String, receiver: String, nft_contract: String, token_id: String },
    FtTransfer { receiver: String, token: String, amount: u128, memo: String },
}

impl View for Action {
    type V = ActionView;

    open spec fn view(&self) -> ActionView {
        match self {
            Action::TransferNear { receiver, amount } => ActionView::TransferNear { receiver: receiver@, amount: *amount },
            Action::TransferStaked { user, token, token_i, amount, fee } => ActionView::TransferStaked {
                user: user@,
                token: token@,
                token_i: *token_i,
                amount: *amount,
                fee: *fee,
            },
            Action::TransferFarmed { user, token, token_i, amount } => ActionView::TransferFarmed {
                user: user@,
                token: token@,
                token_i: *token_i,
                amount: *amount,
            },
            Action::WithdrawNft { user, receiver, nft_contract, token_id } => ActionView::WithdrawNft {
                user: user@,
                receiver: receiver@,
                nft_contract: nft_contract@,
                token_id: token_id@,
            },
            Action::FtTransfer { receiver, token, amount, memo } => ActionView::FtTransfer {
                receiver: receiver@,
                token: token@,
                amount: *amount,
                memo: memo@,
            },
        }
    }
}

/// The views of a list of actions.
pub open spec fn actions_view(v: Seq<Action>) -> Seq<ActionView> {
    v.map_values(|a: Action| a@)
}

/// Farm parameters and totals.
pub struct ContractParams {
    pub owner_id: String,
    pub stake_tokens: Vec<String>,
    pub stake_rates: Vec<u128>,
    pub farm_unit_emission: u128,
    pub farm_tokens: Vec<String>,
    pub farm_token_rates: Vec<u128>,
    pub farm_deposits: Vec<u128>,
    pub is_active: bool,
    pub farming_start: u64,
    pub farming_end: u64,
    pub cheddar_nft: String,
    pub total_staked: Vec<u128>,
    pub total_farmed: Vec<u128>,
    pub fee_rate: u128,
    pub accounts_registered: u64,
}

/// Farming status of a user.
pub struct Status {
    pub stake_tokens: Vec<u128>,
    pub stake: u128,
    pub farmed_units: u128,
    pub farmed_tokens: Vec<u128>,
    pub cheddy_nft: String,
    pub timestamp: u64,
}

pub struct Contract {
    pub is_active: bool,
    pub setup_finalized: bool,
    pub owner_id: String,
    /// destination of the collected fees
    pub treasury: String,
    pub vaults: AccountMap<Vault>,
    pub stake_tokens: Vec<String>,
    /// total number of units currently staked
    pub staked_units: u128,
    /// units of each stake token (times 1e24); the first one is 1e24
    pub stake_rates: Vec<u128>,
    pub farm_tokens: Vec<String>,
    /// tokens paid per farmed unit (times 1e24), per farm token
    pub farm_token_rates: Vec<u128>,
    /// farm units emitted per round
    pub farm_unit_emission: u128,
    /// received deposits for farming rewards
    pub farm_deposits: Vec<u128>,
    pub farming_start: u64,
    pub farming_end: u64,
    /// Cheddy NFT contract
    pub cheddar_nft: String,
    /// boost of a Cheddy NFT, in basis points
    pub cheddar_nft_boost: u32,
    pub total_harvested: Vec<u128>,
    pub reward_acc: u128,
    pub reward_acc_round: u64,
    pub total_stake: Vec<u128>,
    pub accounts_registered: u64,
    /// fee rate in basis points, charged from unstaked tokens
    pub fee_rate: u128,
    /// fees collected, per stake token
    pub fee_collected: Vec<u128>,
}

impl View for Contract {
    type V = P3View;

    open spec fn view(&self) -> P3View {
        P3View {
            is_active: self.is_active,
            setup_finalized: self.setup_finalized,
            owner_id: self.owner_id@,
            treasury: self.treasury@,
            vaults: self.vaults@,
            stake_tokens: names(self.stake_tokens@),
            staked_units: self.staked_units,
            stake_rates: self.stake_rates@,
            farm_tokens: names(self.farm_tokens@),
            farm_token_rates: self.farm_token_rates@,
            farm_unit_emission: self.farm_unit_emission,
            farm_deposits: self.farm_deposits@,
            farming_start: self.farming_start,
            farming_end: self.farming_end,
            cheddar_nft: self.cheddar_nft@,
            cheddar_nft_boost: self.cheddar_nft_boost,
            total_harvested: self.total_harvested@,
            reward_acc: self.reward_acc,
            reward_acc_round: self.reward_acc_round,
            total_stake: self.total_stake@,
            accounts_registered: self.accounts_registered,
            fee_rate: self.fee_rate,
            fee_collected: self.fee_collected@,
        }
    }
}

/// Saved counters.
pub struct Counters {
    pub staked_units: u128,
    pub reward_acc: u128,
    pub reward_acc_round: u64,
    pub total_stake: Vec<u128>,
    pub total_harvested: Vec<u128>,
    pub farm_deposits: Vec<u128>,
    pub fee_collected: Vec<u128>,
    pub accounts_registered: u64,
}

impl Contract {
    /// Well-formed maps and consistent vectors.
    pub open spec fn wf(&self) -> bool {
        self.vaults.wf() && self@.consistent()
    }

    /// Saves the counters.
    pub fn save(&self) -> (r: Counters)
        ensures
            r.staked_units == self.staked_units,
            r.reward_acc == self.reward_acc,
            r.reward_acc_round == self.reward_acc_round,
            r.total_stake@ == self.total_stake@,
            r.total_harvested@ == self.total_harvested@,
            r.farm_deposits@ == self.farm_deposits@,
            r.fee_collected@ == self.fee_collected@,
            r.accounts_registered == self.accounts_registered,
    {
        Counters {
            staked_units: self.staked_units,
            reward_acc: self.reward_acc,
            reward_acc_round: self.reward_acc_round,
            total_stake: copy_amounts(&self.total_stake),
            total_harvested: copy_amounts(&self.total_harvested),
            farm_deposits: copy_amounts(&self.farm_deposits),
            fee_collected: copy_amounts(&self.fee_collected),
            accounts_registered: self.accounts_registered,
        }
    }

    /// Puts saved counters back.
    pub fn restore(&mut self, c: Counters)
        requires
            old(self).wf(),
            c.total_stake@.len() == old(self).total_stake@.len(),
            c.total_harvested@.len() == old(self).total_harvested@.len(),
            c.farm_deposits@.len() == old(self).farm_deposits@.len(),
            c.fee_collected@.len() == old(self).fee_collected@.len(),
        ensures
            final(self).wf(),
            final(self)@ == (P3View {
                staked_units: c.staked_units,
                reward_acc: c.reward_acc,
                reward_acc_round: c.reward_acc_round,
                total_stake: c.total_stake@,
                total_harvested: c.total_harvested@,
                farm_deposits: c.farm_deposits@,
                fee_collected: c.fee_collected@,
                accounts_registered: c.accounts_registered,
                ..old(self)@
            }),
    {
        self.staked_units = c.staked_units;
        self.reward_acc = c.reward_acc;
        self.reward_acc_round = c.reward_acc_round;
        self.total_stake = c.total_stake;
        self.total_harvested = c.total_harvested;
        self.farm_deposits = c.farm_deposits;
        self.fee_collected = c.fee_collected;
        self.accounts_registered = c.accounts_registered;
    }

    /// Registers `user` with an empty vault.
    pub fn create_account(&mut self, user: &String)
        requires
            old(self).wf(),
            old(self).accounts_registered < u64::MAX,
        ensures
            final(self).wf(),
            final(self)@ == (P3View {
                vaults: old(self)@.vaults.insert(user@, new_vault_spec(old(self)@.stake_tokens.len(), old(self)@.farm_tokens.len(), old(self)@.reward_acc)),
                accounts_registered: (old(self)@.accounts_registered + 1) as u64,
                ..old(self)@
            }),
    {
        proof {
            assert(names(self.stake_tokens@).len() == self.stake_tokens@.len());
            assert(names(self.farm_tokens@).len() == self.farm_tokens@.len());
        }
        let v = Vault::new(self.stake_tokens.len(), self.farm_tokens.len(), self.reward_acc);
        self.put_vault(user, v);
        self.accounts_registered = self.accounts_registered + 1;
    }

    /// Stores `v` as the vault of `user`.
    pub fn put_vault(&mut self, user: &String, v: Vault)
        requires
            old(self).wf(),
            old(self)@.vault_fits(v@),
        ensures
            final(self).wf(),
            final(self)@ == (P3View { vaults: old(self)@.vaults.insert(user@, v@), ..old(self)@ }),
    {
        self.vaults.insert(user.clone(), v);
        proof {
            assert forall|a: Seq<char>| #[trigger] self@.vaults.contains_key(a) implies self@.vault_fits(self@.vaults[a]) by {
                if a != user@ {
                    assert(old(self)@.vaults.contains_key(a));
                }
            }
        }
    }

    /// Removes the vault of `user`.
    pub fn drop_vault(&mut self, user: &String)
        requires
            old(self).wf(),
        ensures
            final(self).wf(),
            final(self)@ == (P3View { vaults: old(self)@.vaults.remove(user@), ..old(self)@ }),
    {
        let _ = self.vaults.remove(user);
        proof {
            assert forall|a: Seq<char>| #[trigger] self@.vaults.contains_key(a) implies self@.vault_fits(self@.vaults[a]) by {
                assert(old(self)@.vaults.contains_key(a));
            }
        }
    }

    /// The vault of `account_id`, if registered.
    pub fn get_vault(&self, account_id: &String) -> (r: Result<Vault, Error>)
        requires
            self.wf(),
        ensures
            match r {
                Ok(v) => self@.vaults.contains_key(account_id@) && v@ == self@.vaults[account_id@],
                Err(e) => !self@.vaults.contains_key(account_id@) && e == Error::NoAccount,
            },
    {
        match self.vaults.get(account_id) {
            Some(v) => Ok(v.clone_vault()),
            None => Err(Error::NoAccount),
        }
    }

    /// The round of block time `now` (nanoseconds).
    pub fn current_round(&self, now: u64) -> (r: u64)
        requires
            self@.farming_start < self@.farming_end,
        ensures
            r == self@.round_at(now),
    {
        round_number(self.farming_start, self.farming_end, now / SECOND)
    }

    /// The accumulator at `round`; `None` when it leaves the `u128` range.
    pub fn compute_reward_acc(&self, round: u64) -> (r: Option<u128>)
        ensures
            r == next_reward_acc(self.reward_acc, self.reward_acc_round, self.farm_unit_emission, self.staked_units, round),
    {
        compute_next_reward_acc(self.reward_acc, self.reward_acc_round, self.farm_unit_emission, self.staked_units, round)
    }

    /// Brings the accumulator to `round`; `false`, changing nothing, on overflow.
    pub fn update_reward_acc(&mut self, round: u64) -> (r: bool)
        requires
            old(self).wf(),
        ensures
            final(self).wf(),
            match old(self)@.synced(round) {
                None => !r && final(self)@ == old(self)@,
                Some(c) => r && final(self)@ == c,
            },
    {
        let new_acc = match self.compute_reward_acc(round) {
            None => return false,
            Some(a) => a,
        };
        if self.staked_units == 0 || new_acc != self.reward_acc {
            self.reward_acc = new_acc;
            self.reward_acc_round = round;
        }
        true
    }

    /// Syncs the accumulator to `round` and pings `vault` with it.
    pub fn ping_all(&mut self, vault: &mut Vault, round: u64) -> (r: bool)
        requires
            old(self).wf(),
        ensures
            final(self).wf(),
            same_config(old(self)@, final(self)@),
            match old(self)@.ping_all(old(vault)@, round) {
                None => !r && final(vault)@ == old(vault)@,
                Some((c, v)) => r && final(self)@ == c && final(vault)@ == v,
            },
    {
        if !self.update_reward_acc(round) {
            return false;
        }
        vault.ping(self.reward_acc, round)
    }

    /// Recomputes the staking units of `vault` and adjusts the total.
    pub fn _recompute_stake(&mut self, v: &mut Vault) -> (r: bool)
        requires
            old(self).wf(),
            old(self)@.vault_fits(old(v)@),
        ensures
            final(self).wf(),
            match old(self)@.recompute(old(v)@) {
                None => !r && final(self)@ == old(self)@ && final(v)@ == old(v)@,
                Some((c, nv)) => r && final(self)@ == c && final(v)@ == nv,
            },
    {
        let mut s = match min_stake(&v.staked, &self.stake_rates) {
            None => return false,
            Some(m) => m,
        };
        if v.cheddy.as_str().unicode_len() != 0 {
            let prod = match s.checked_mul(self.cheddar_nft_boost as u128) {
                None => return false,
                Some(p) => p,
            };
            s = match s.checked_add(prod / BASIS_P) {
                None => return false,
                Some(x) => x,
            };
        }
        if s > v.min_stake {
            let diff = s - v.min_stake;
            if diff > u128::MAX - self.staked_units {
                return false;
            }
            self.staked_units = self.staked_units + diff;
            v.min_stake = s;
        } else if s < v.min_stake {
            let diff = v.min_stake - s;
            if self.staked_units < diff {
                return false;
            }
            self.staked_units = self.staked_units - diff;
            v.min_stake = s;
        }
        true
    }

    /// Returns `amount` of stake token `token_i` to `user`, the fee kept back;
    /// the stake total of the token goes down by the whole amount.
    pub fn transfer_staked_tokens(&mut self, user: &String, token_i: usize, amount: u128, actions: &mut Vec<Action>) -> (r: bool)
        requires
            old(self).wf(),
            token_i < old(self)@.stake_tokens.len(),
        ensures
            final(self).wf(),
            same_config(old(self)@, final(self)@),
            match old(self)@.transfer_staked_spec(user@, token_i as int, amount) {
                None => !r && final(self)@ == old(self)@ && final(actions)@ == old(actions)@,
                Some((c, acts)) => r && final(self)@ == c && actions_view(final(actions)@) == actions_view(old(actions)@) + acts,
            },
    {
        if amount == 0 {
            proof {
                assert(actions_view(actions@) =~= actions_view(actions@) + Seq::<ActionView>::empty());
            }
            return true;
        }
        let prod = match amount.checked_mul(self.fee_rate) {
            None => return false,
            Some(p) => p,
        };
        let fee = prod / 10_000;
        if fee > amount || self.total_stake[token_i] < amount {
            return false;
        }
        let sent = amount - fee;
        let token = self.stake_tokens[token_i].clone();
        proof {
            assert(names(self.stake_tokens@)[token_i as int] == self.stake_tokens@[token_i as int]@);
            reveal_strlit("near");
        }
        let t = self.total_stake[token_i] - amount;
        self.total_stake.set(token_i, t);
        let ghost before = actions@;
        if token == String::from_str(NEAR_TOKEN) {
            actions.push(Action::TransferNear { receiver: user.clone(), amount: sent });
        } else {
            actions.push(Action::TransferStaked { user: user.clone(), token, token_i, amount: sent, fee });
        }
        proof {
            assert(actions_view(actions@) =~= actions_view(before) + seq![actions@.last()@]);
        }
        true
    }

    /// Pays `amount` of farm token `token_i` to `user`.
    pub fn transfer_farmed_tokens(&mut self, user: &String, token_i: usize, amount: u128) -> (r: Option<Action>)
        requires
            old(self).wf(),
            token_i < old(self)@.farm_tokens.len(),
        ensures
            final(self).wf(),
            same_config(old(self)@, final(self)@),
            match old(self)@.transfer_farmed_spec(user@, token_i as int, amount) {
                None => r is None && final(self)@ == old(self)@,
                Some((c, a)) => r matches Some(x) && x@ == a && final(self)@ == c,
            },
    {
        if amount > u128::MAX - self.total_harvested[token_i] {
            return None;
        }
        let token = self.farm_tokens[token_i].clone();
        proof {
            assert(names(self.farm_tokens@)[token_i as int] == self.farm_tokens@[token_i as int]@);
        }
        if token == String::from_str(NEAR_TOKEN) {
            let h = self.total_harvested[token_i] + amount;
            self.total_harvested.set(token_i, h);
            return Some(Action::TransferNear { receiver: user.clone(), amount });
        }
        let h = self.total_harvested[token_i] + amount;
        self.total_harvested.set(token_i, h);
        Some(Action::TransferFarmed { user: user.clone(), token, token_i, amount })
    }

    /// Pays `farmed_units`, translated into every farm token, to `user`.
    pub fn _withdraw_crop(&mut self, user: &String, farmed_units: u128, actions: &mut Vec<Action>) -> (r: bool)
        requires
            old(self).wf(),
        ensures
            final(self).wf(),
            same_config(old(self)@, final(self)@),
            match old(self)@.withdraw_crop_spec(user@, farmed_units) {
                None => !r,
                Some((c, acts)) => r && final(self)@ == c && actions_view(final(actions)@) == actions_view(old(actions)@) + acts,
            },
    {
        if farmed_units == 0 {
            proof {
                assert(actions_view(actions@) =~= actions_view(actions@) + Seq::<ActionView>::empty());
            }
            return true;
        }
        let ghost o = self@;
        let ghost a0 = actions_view(actions@);
        let mut i: usize = 0;
        while i < self.farm_tokens.len()
            invariant
                self.wf(),
                o == old(self)@,
                a0 == actions_view(old(actions)@),
                farmed_units != 0,
                same_config(o, self@),
                i <= o.farm_tokens.len(),
                self.farm_tokens@.len() == o.farm_tokens.len(),
                o.crop_upto(user@, farmed_units, i as int) matches Some((c, acts)) && self@ == c && actions_view(actions@) == a0 + acts,
            decreases o.farm_tokens.len() - i,
        {
            let amount = match farmed_tokens(farmed_units, self.farm_token_rates[i]) {
                None => {
                    proof {
                        super::spec::lemma_crop_none_stays(o, user@, farmed_units, i as int + 1, o.farm_tokens.len() as int);
                    }
                    return false;
                },
                Some(x) => x,
            };
            let ghost before = actions@;
            match self.transfer_farmed_tokens(user, i, amount) {
                None => {
                    proof {
                        super::spec::lemma_crop_none_stays(o, user@, farmed_units, i as int + 1, o.farm_tokens.len() as int);
                    }
                    return false;
                },
                Some(a) => {
                    actions.push(a);
                    proof {
                        assert(actions_view(actions@) =~= actions_view(before).push(actions@.last()@));
                    }
                },
            }
            i = i + 1;
        }
        true
    }

    /// Returns every staked balance of `staked` to `user`.
    pub fn transfer_all_staked(&mut self, user: &String, staked: &Vec<u128>, actions: &mut Vec<Action>) -> (r: bool)
        requires
            old(self).wf(),
            staked@.len() == old(self)@.total_stake.len(),
        ensures
            final(self).wf(),
            same_config(old(self)@, final(self)@),
            match old(self)@.transfer_all_upto(user@, staked@, old(self)@.total_stake.len() as int) {
                None => !r,
                Some((c, acts)) => r && final(self)@ == c && actions_view(final(actions)@) == actions_view(old(actions)@) + acts,
            },
    {
        let ghost o = self@;
        let ghost a0 = actions_view(actions@);
        let n = self.total_stake.len();
        let mut i: usize = 0;
        while i < n
            invariant
                self.wf(),
                o == old(self)@,
                a0 == actions_view(old(actions)@),
                n == o.total_stake.len(),
                staked@.len() == n,
                i <= n,
                same_config(o, self@),
                o.transfer_all_upto(user@, staked@, i as int) matches Some((c, acts)) && self@ == c && actions_view(actions@) == a0 + acts,
            decreases n - i,
        {
            if !self.transfer_staked_tokens(user, i, staked[i], actions) {
                proof {
                    super::spec::lemma_transfer_none_stays(o, user@, staked@, i as int + 1, n as int);
                }
                return false;
            }
            i = i + 1;
        }
        true
    }
}

} // verus!
