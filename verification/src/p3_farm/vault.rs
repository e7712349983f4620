//! The vault of one user of the multi-token farm.
use crate::farming::{compute_farmed_between, farmed_between};
use crate::p3_lib::helpers::all_zero_balances;
use crate::p4_farm_nft::vault::copy_amounts;
use vstd::prelude::*;
use vstd::string::StrSliceExecFns;

verus! {

pub struct Vault {
    /// `Contract.reward_acc` when the vault was last pinged
    pub reward_acc: u128,
    /// staked amount of each stake token
    pub staked: Vec<u128>,
    /// the staking units the vault farms with
    pub min_stake: u128,
    /// accumulated, not withdrawn farmed units
    pub farmed: u128,
    /// farmed tokens whose transfer failed, per farm token
    pub farmed_recovered: Vec<u128>,
    /// token id of the deposited Cheddy NFT, empty when none
    pub cheddy: String,
}

/// A vault as mathematical values.
pub struct VaultView {
    pub reward_acc: u128,
    pub staked: Seq<u128>,
    pub min_stake: u128,
    pub farmed: u128,
    pub farmed_recovered: Seq<u128>,
    pub cheddy: Seq<char>,
}

impl View for Vault {
    type V = VaultView;

    open spec fn view(&self) -> VaultView {
        VaultView {
            reward_acc: self.reward_acc,
            staked: self.staked@,
            min_stake: self.min_stake,
            farmed: self.farmed,
            farmed_recovered: self.farmed_recovered@,
            cheddy: self.cheddy@,
        }
    }
}

/// The vault after a ping at `round` with accumulator `acc`; `None` when the
/// reward leaves the `u128` range.
pub open spec fn vault_ping_spec(v: VaultView, acc: u128, round: u64) -> Option<VaultView> {
    if round == 0 || v.reward_acc >= acc {
        Some(v)
    } else {
        match farmed_between(v.min_stake, v.reward_acc, acc) {
            None => None,
            Some(f) => if v.farmed + f > u128::MAX {
                None
            } else {
                Some(VaultView { reward_acc: acc, farmed: (v.farmed + f) as u128, ..v })
            },
        }
    }
}

/// Nothing staked, nothing farmed and no Cheddy.
pub open spec fn vault_is_empty(v: VaultView) -> bool {
    all_zero_balances(v.staked) && v.farmed == 0 && v.cheddy.len() == 0
}

/// An empty vault for `staked_len` stake tokens and `farmed_len` farm tokens.
pub open spec fn new_vault_spec(staked_len: nat, farmed_len: nat, reward_acc: u128) -> VaultView {
    VaultView {
        reward_acc,
        staked: Seq::new(staked_len, |i: int| 0u128),
        min_stake: 0,
        farmed: 0,
        farmed_recovered: Seq::new(farmed_len, |i: int| 0u128),
        cheddy: Seq::<char>::empty(),
    }
}

impl Vault {
    /// An empty vault for `staked_len` stake tokens and `farmed_len` farm tokens.
    pub fn new(staked_len: usize, farmed_len: usize, reward_acc: u128) -> (r: Self)
        ensures
            r@ == new_vault_spec(staked_len as nat, farmed_len as nat, reward_acc),
    {
        Vault {
            reward_acc,
            staked: crate::p4_farm_nft::management::zeros(staked_len),
            min_stake: 0,
            farmed: 0,
            farmed_recovered: crate::p4_farm_nft::management::zeros(farmed_len),
            cheddy: String::new(),
        }
    }

    /// Updates the farmed units with the accumulator `reward_acc` at `round`.
    /// Returns `false`, leaving the vault unchanged, on overflow.
    pub fn ping(&mut self, reward_acc: u128, round: u64) -> (r: bool)
        ensures
            match vault_ping_spec(old(self)@, reward_acc, round) {
                None => !r && final(self)@ == old(self)@,
                Some(nv) => r && final(self)@ == nv,
            },
    {
        if round == 0 {
            return true;
        }
        if self.reward_acc >= reward_acc {
            return true;
        }
        match compute_farmed_between(self.min_stake, self.reward_acc, reward_acc) {
            None => false,
            Some(f) => match self.farmed.checked_add(f) {
                None => false,
                Some(total) => {
                    self.farmed = total;
                    self.reward_acc = reward_acc;
                    true
                },
            },
        }
    }

    /// Whether the vault holds nothing.
    pub fn is_empty(&self) -> (r: bool)
        ensures
            r == vault_is_empty(self@),
    {
        super::helpers::all_zeros(&self.staked) && self.farmed == 0 && self.cheddy.as_str().unicode_len() == 0
    }

    /// A copy of the vault.
    pub fn clone_vault(&self) -> (r: Vault)
        ensures
            r@ == self@,
    {
        Vault {
            reward_acc: self.reward_acc,
            staked: copy_amounts(&self.staked),
            min_stake: self.min_stake,
            farmed: self.farmed,
            farmed_recovered: copy_amounts(&self.farmed_recovered),
            cheddy: self.cheddy.clone(),
        }
    }
}

} // verus!
