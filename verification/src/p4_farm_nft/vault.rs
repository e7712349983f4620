//! The vault of one user of the NFT farm: staked NFTs per collection, farmed
//! units, the boost NFT and the locked Cheddar.
use super::helpers::{all_empty, staked_view};
use crate::farming::{compute_farmed_between, farmed_between};
use vstd::prelude::*;
use vstd::string::StrSliceExecFns;

verus! {

pub struct Vault {
    /// `Contract.reward_acc` when the vault was last pinged
    pub reward_acc: u128,
    /// staked NFT token ids, per NFT contract (by index in the farm's list)
    pub staked: Vec<Vec<String>>,
    /// the staking units the vault farms with
    pub min_stake: u128,
    /// accumulated, not withdrawn farmed units
    pub farmed: u128,
    /// farmed tokens whose transfer failed, per farm token
    pub farmed_recovered: Vec<u128>,
    /// the boost NFT as `nft_contract@token_id`, empty when none
    pub boost_nft: String,
    /// Cheddar locked by the user
    pub cheddar_staked: u128,
}

/// A vault as mathematical values.
pub struct VaultView {
    pub reward_acc: u128,
    pub staked: Seq<Seq<Seq<char>>>,
    pub min_stake: u128,
    pub farmed: u128,
    pub farmed_recovered: Seq<u128>,
    pub boost_nft: Seq<char>,
    pub cheddar_staked: u128,
}

impl View for Vault {
    type V = VaultView;

    open spec fn view(&self) -> VaultView {
        VaultView {
            reward_acc: self.reward_acc,
            staked: staked_view(self.staked@),
            min_stake: self.min_stake,
            farmed: self.farmed,
            farmed_recovered: self.farmed_recovered@,
            boost_nft: self.boost_nft@,
            cheddar_staked: self.cheddar_staked,
        }
    }
}

/// Number of NFTs staked in the first `n` collections.
pub open spec fn tokens_upto(staked: Seq<Seq<Seq<char>>>, n: int) -> int
    decreases n,
{
    if n <= 0 {
        0
    } else {
        tokens_upto(staked, n - 1) + staked[n - 1].len()
    }
}

/// Number of NFTs staked over all collections.
pub open spec fn total_tokens(staked: Seq<Seq<Seq<char>>>) -> int {
    tokens_upto(staked, staked.len() as int)
}

/// The vault after a ping at `round` with accumulator `acc`; `None` when the
/// reward leaves the `u128` range.
pub open spec fn vault_ping_spec(v: VaultView, acc: u128, round: u64) -> Option<VaultView> {
    if round == 0 || v.reward_acc >= acc {
        Some(v)
    } else {
        match farmed_between(v.min_stake, v.reward_acc, acc) {
            None => None,
            Some(f) => if v.farmed + f > u128::MAX {
                None
            } else {
                Some(VaultView { reward_acc: acc, farmed: (v.farmed + f) as u128, ..v })
            },
        }
    }
}

/// The vault holds nothing: no NFT, no farmed units, no boost and no Cheddar.
pub open spec fn vault_is_empty(v: VaultView) -> bool {
    &&& all_empty(v.staked)
    &&& v.farmed == 0
    &&& v.boost_nft.len() == 0
    &&& v.cheddar_staked == 0
}

/// An empty vault for `staked_len` NFT collections and `farmed_len` farm tokens.
pub open spec fn new_vault_spec(staked_len: nat, farmed_len: nat, reward_acc: u128) -> VaultView {
    VaultView {
        reward_acc,
        staked: Seq::new(staked_len, |i: int| Seq::<Seq<char>>::empty()),
        min_stake: 0,
        farmed: 0,
        farmed_recovered: Seq::new(farmed_len, |i: int| 0u128),
        boost_nft: Seq::<char>::empty(),
        cheddar_staked: 0,
    }
}

proof fn lemma_tokens_upto_nonneg(staked: Seq<Seq<Seq<char>>>, n: int)
    ensures
        tokens_upto(staked, n) >= 0,
    decreases n,
{
    if n > 0 {
        lemma_tokens_upto_nonneg(staked, n - 1);
    }
}

/// Counting up to a later collection never gives fewer NFTs.
pub proof fn lemma_tokens_upto_mono(staked: Seq<Seq<Seq<char>>>, i: int, n: int)
    requires
        0 <= i <= n,
    ensures
        tokens_upto(staked, i) <= tokens_upto(staked, n),
    decreases n,
{
    if i < n {
        lemma_tokens_upto_mono(staked, i, n - 1);
    }
}

/// Changing one collection changes the count by the change of its size.
pub proof fn lemma_tokens_upto_update(staked: Seq<Seq<Seq<char>>>, j: int, t: Seq<Seq<char>>, n: int)
    requires
        0 <= j < staked.len(),
        0 <= n <= staked.len(),
    ensures
        tokens_upto(staked.update(j, t), n) == tokens_upto(staked, n) + (if j < n { t.len() - staked[j].len() } else { 0 }),
    decreases n,
{
    if n > 0 {
        lemma_tokens_upto_update(staked, j, t, n - 1);
    }
}

impl Vault {
    /// An empty vault for `staked_len` NFT collections and `farmed_len` farm tokens.
    pub fn new(staked_len: usize, farmed_len: usize, reward_acc: u128) -> (r: Self)
        ensures
            r@ == new_vault_spec(staked_len as nat, farmed_len as nat, reward_acc),
    {
        let mut staked: Vec<Vec<String>> = Vec::new();
        let mut i: usize = 0;
        while i < staked_len
            invariant
                i <= staked_len,
                staked@.len() == i,
                forall|j: int| 0 <= j < i ==> (#[trigger] staked@[j])@.len() == 0,
            decreases staked_len - i,
        {
            staked.push(Vec::new());
            i = i + 1;
        }
        let mut farmed_recovered: Vec<u128> = Vec::new();
        let mut k: usize = 0;
        while k < farmed_len
            invariant
                k <= farmed_len,
                farmed_recovered@.len() == k,
                forall|j: int| 0 <= j < k ==> farmed_recovered@[j] == 0,
            decreases farmed_len - k,
        {
            farmed_recovered.push(0);
            k = k + 1;
        }
        let r = Vault {
            reward_acc,
            staked,
            min_stake: 0,
            farmed: 0,
            farmed_recovered,
            boost_nft: String::new(),
            cheddar_staked: 0,
        };
        proof {
            let e = new_vault_spec(staked_len as nat, farmed_len as nat, reward_acc);
            assert(r@.staked =~= e.staked) by {
                assert forall|j: int| 0 <= j < staked_len implies r@.staked[j] =~= e.staked[j] by {
                    assert(r@.staked[j] == staked@[j]@.map_values(|s: String| s@));
                }
            }
            assert(r@.farmed_recovered =~= e.farmed_recovered);
        }
        r
    }

    /// Updates the farmed units with the accumulator `reward_acc` at `round`.
    /// Returns `false`, leaving the vault unchanged, when the reward leaves
    /// the `u128` range.
    pub fn ping(&mut self, reward_acc: u128, round: u64) -> (r: bool)
        ensures
            match vault_ping_spec(old(self)@, reward_acc, round) {
                None => !r && final(self)@ == old(self)@,
                Some(nv) => r && final(self)@ == nv,
            },
    {
        // if farming didn't start, ignore the rewards update
        if round == 0 {
            return true;
        }
        // no new rewards
        if self.reward_acc >= reward_acc {
            return true;
        }
        match compute_farmed_between(self.min_stake, self.reward_acc, reward_acc) {
            None => false,
            Some(f) => match self.farmed.checked_add(f) {
                None => false,
                Some(total) => {
                    self.farmed = total;
                    self.reward_acc = reward_acc;
                    true
                },
            },
        }
    }

    /// Whether the vault holds nothing.
    pub fn is_empty(&self) -> (r: bool)
        ensures
            r == vault_is_empty(self@),
    {
        super::helpers::all_zeros(&self.staked) && self.farmed == 0 && self.boost_nft.as_str().unicode_len() == 0
            && self.cheddar_staked == 0
    }

    /// Number of NFTs staked over all collections.
    pub fn get_number_of_staked_tokens(&self) -> (r: usize)
        requires
            total_tokens(self@.staked) <= usize::MAX,
        ensures
            r == total_tokens(self@.staked),
    {
        let mut n: usize = 0;
        let mut i: usize = 0;
        proof {
            lemma_tokens_upto_nonneg(self@.staked, 0);
        }
        while i < self.staked.len()
            invariant
                i <= self.staked@.len(),
                self@.staked.len() == self.staked@.len(),
                n == tokens_upto(self@.staked, i as int),
                total_tokens(self@.staked) <= usize::MAX,
            decreases self.staked@.len() - i,
        {
            proof {
                assert(self@.staked[i as int] == self.staked@[i as int]@.map_values(|s: String| s@));
                lemma_tokens_upto_mono(self@.staked, i as int + 1, self@.staked.len() as int);
            }
            n = n + self.staked[i].len();
            i = i + 1;
        }
        n
    }

    /// Number of NFTs staked over all collections; `None` when it exceeds `usize`.
    pub fn try_number_of_staked_tokens(&self) -> (r: Option<usize>)
        ensures
            match r {
                Some(n) => n == total_tokens(self@.staked),
                None => total_tokens(self@.staked) > usize::MAX,
            },
    {
        let mut n: usize = 0;
        let mut i: usize = 0;
        proof {
            lemma_tokens_upto_nonneg(self@.staked, 0);
        }
        while i < self.staked.len()
            invariant
                i <= self.staked@.len(),
                self@.staked.len() == self.staked@.len(),
                n == tokens_upto(self@.staked, i as int),
            decreases self.staked@.len() - i,
        {
            proof {
                assert(self@.staked[i as int] == self.staked@[i as int]@.map_values(|s: String| s@));
                lemma_tokens_upto_mono(self@.staked, i as int + 1, self@.staked.len() as int);
            }
            match n.checked_add(self.staked[i].len()) {
                None => return None,
                Some(m) => n = m,
            }
            i = i + 1;
        }
        Some(n)
    }

    /// A copy of the vault.
    pub fn clone_vault(&self) -> (r: Vault)
        ensures
            r@ == self@,
    {
        let mut staked: Vec<Vec<String>> = Vec::new();
        let mut i: usize = 0;
        while i < self.staked.len()
            invariant
                i <= self.staked@.len(),
                staked@.len() == i,
                forall|j: int| 0 <= j < i ==> (#[trigger] staked@[j])@.map_values(|s: String| s@) == self.staked@[j]@.map_values(|s: String| s@),
            decreases self.staked@.len() - i,
        {
            let inner = self.staked[i].clone();
            proof {
                assert(inner@ =~= self.staked@[i as int]@) by {
                    assert forall|k: int| 0 <= k < inner@.len() implies inner@[k] == self.staked@[i as int]@[k] by {
                        assert(cloned::<String>(self.staked@[i as int]@[k], inner@[k]));
                    }
                }
            }
            staked.push(inner);
            i = i + 1;
        }
        let r = Vault {
            reward_acc: self.reward_acc,
            staked,
            min_stake: self.min_stake,
            farmed: self.farmed,
            farmed_recovered: copy_amounts(&self.farmed_recovered),
            boost_nft: self.boost_nft.clone(),
            cheddar_staked: self.cheddar_staked,
        };
        proof {
            assert(r@.staked =~= self@.staked) by {
                assert forall|j: int| 0 <= j < self@.staked.len() implies r@.staked[j] == self@.staked[j] by {
                    assert(r@.staked[j] == staked@[j]@.map_values(|s: String| s@));
                    assert(self@.staked[j] == self.staked@[j]@.map_values(|s: String| s@));
                }
            }
        }
        r
    }
}

/// A copy of a vector of amounts.
pub fn copy_amounts(v: &Vec<u128>) -> (r: Vec<u128>)
    ensures
        r@ == v@,
{
    let mut r: Vec<u128> = Vec::new();
    let mut i: usize = 0;
    while i < v.len()
        invariant
            i <= v@.len(),
            r@ == v@.subrange(0, i as int),
        decreases v@.len() - i,
    {
        r.push(v[i]);
        i = i + 1;
    }
    proof {
        assert(r@ =~= v@);
    }
    r
}

} // verus!
