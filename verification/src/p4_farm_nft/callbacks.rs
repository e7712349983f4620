//! The NFT farm's callbacks: a failed transfer puts the state back.
use super::contract::{names, Contract};
use super::spec::{Error, P4View};
use super::vault::{Vault, VaultView};
use crate::near::PromiseResult;
use super::helpers::promise_result_as_failed;
use vstd::prelude::*;

verus! {

impl Contract {
    /// Recomputes the units of `v` and stores it as the vault of `user`;
    /// `false`, changing nothing, on overflow.
    fn store_recomputed(&mut self, user: &String, v: Vault) -> (r: bool)
        requires
            old(self).wf(),
            old(self)@.vault_fits(v@),
        ensures
            final(self).wf(),
            match old(self)@.store_recomputed(user@, v@) {
                None => !r && final(self)@ == old(self)@,
                Some(s) => r && final(self)@ == s,
            },
    {
        let mut v = v;
        if !self._recompute_stake(&mut v) {
            return false;
        }
        self.put_vault(user, v);
        true
    }

    /// Stakes NFT `token_id` of collection `nft_ctr_idx` again for `user`
    /// after its transfer failed.
    pub fn recover_staked(&mut self, user: &String, nft_ctr_idx: usize, token_id: String) -> (r: bool)
        requires
            old(self).wf(),
            nft_ctr_idx < old(self)@.stake_nft_tokens.len(),
        ensures
            final(self).wf(),
            match old(self)@.recover_staked_spec(user@, nft_ctr_idx as int, token_id@) {
                None => !r && final(self)@ == old(self)@,
                Some(s) => r && final(self)@ == s,
            },
    {
        if self.total_stake[nft_ctr_idx] == u128::MAX {
            return false;
        }
        let saved = self.save();
        let t = self.total_stake[nft_ctr_idx] + 1;
        self.total_stake.set(nft_ctr_idx, t);
        let mut v = match self.recovered_vault(user) {
            None => {
                self.restore(saved);
                return false;
            },
            Some(v) => v,
        };
        let ghost v0 = v@;
        let mut inner = v.staked[nft_ctr_idx].clone();
        proof {
            assert(inner@ =~= v.staked@[nft_ctr_idx as int]@) by {
                assert forall|k: int| 0 <= k < inner@.len() implies inner@[k] == v.staked@[nft_ctr_idx as int]@[k] by {
                    assert(cloned::<String>(v.staked@[nft_ctr_idx as int]@[k], inner@[k]));
                }
            }
        }
        inner.push(token_id);
        v.staked.set(nft_ctr_idx, inner);
        proof {
            assert(names(v.staked@[nft_ctr_idx as int]@) =~= v0.staked[nft_ctr_idx as int].push(token_id@));
            assert(v@.staked =~= v0.staked.update(nft_ctr_idx as int, v0.staked[nft_ctr_idx as int].push(token_id@)));
        }
        if !self.store_recomputed(user, v) {
            self.restore(saved);
            return false;
        }
        true
    }

    /// Keeps `amount` of farm token `ft_ctr_idx` as recovered for `user`
    /// after its payout failed.
    pub fn recover_farmed(&mut self, user: &String, ft_ctr_idx: usize, amount: u128) -> (r: bool)
        requires
            old(self).wf(),
            ft_ctr_idx < old(self)@.farm_tokens.len(),
        ensures
            final(self).wf(),
            match old(self)@.recover_farmed_spec(user@, ft_ctr_idx as int, amount) {
                None => !r && final(self)@ == old(self)@,
                Some(s) => r && final(self)@ == s,
            },
    {
        let saved = self.save();
        let mut v = match self.recovered_vault(user) {
            None => return false,
            Some(v) => v,
        };
        if self.total_harvested[ft_ctr_idx] < amount || amount > u128::MAX - v.farmed_recovered[ft_ctr_idx] {
            self.restore(saved);
            return false;
        }
        let h = self.total_harvested[ft_ctr_idx] - amount;
        self.total_harvested.set(ft_ctr_idx, h);
        let f = v.farmed_recovered[ft_ctr_idx] + amount;
        v.farmed_recovered.set(ft_ctr_idx, f);
        if !self.store_recomputed(user, v) {
            self.restore(saved);
            return false;
        }
        true
    }

    /// After the transfer of a staked NFT back to `user`: when it failed, the
    /// NFT is staked again.
    pub fn transfer_staked_callback(&mut self, user: &String, nft_ctr_idx: usize, token_id: String, promise_results_count: u64, result: &PromiseResult) -> (r: Result<(), Error>)
        requires
            old(self).wf(),
            nft_ctr_idx < old(self)@.stake_nft_tokens.len(),
        ensures
            final(self).wf(),
            promise_results_count != 1 ==> r == Err::<(), Error>(Error::UnexpectedPromiseResults) && final(self)@ == old(self)@,
            promise_results_count == 1 && !(*result is Failed) ==> r is Ok && final(self)@ == old(self)@,
            promise_results_count == 1 && *result is Failed ==> match old(self)@.recover_staked_spec(user@, nft_ctr_idx as int, token_id@) {
                None => r == Err::<(), Error>(Error::ArithmeticOverflow) && final(self)@ == old(self)@,
                Some(s) => r is Ok && final(self)@ == s,
            },
    {
        match promise_result_as_failed(promise_results_count, result) {
            None => Err(Error::UnexpectedPromiseResults),
            Some(false) => Ok(()),
            Some(true) => if self.recover_staked(user, nft_ctr_idx, token_id) {
                Ok(())
            } else {
                Err(Error::ArithmeticOverflow)
            },
        }
    }

    /// After the payout of farm token `ft_ctr_idx`: when it failed, the amount
    /// is kept as recovered for the user.
    pub fn transfer_farmed_callback(&mut self, user: &String, ft_ctr_idx: usize, amount: u128, promise_results_count: u64, result: &PromiseResult) -> (r: Result<(), Error>)
        requires
            old(self).wf(),
            ft_ctr_idx < old(self)@.farm_tokens.len(),
        ensures
            final(self).wf(),
            promise_results_count != 1 ==> r == Err::<(), Error>(Error::UnexpectedPromiseResults) && final(self)@ == old(self)@,
            promise_results_count == 1 && !(*result is Failed) ==> r is Ok && final(self)@ == old(self)@,
            promise_results_count == 1 && *result is Failed ==> match old(self)@.recover_farmed_spec(user@, ft_ctr_idx as int, amount) {
                None => r == Err::<(), Error>(Error::ArithmeticOverflow) && final(self)@ == old(self)@,
                Some(s) => r is Ok && final(self)@ == s,
            },
    {
        match promise_result_as_failed(promise_results_count, result) {
            None => Err(Error::UnexpectedPromiseResults),
            Some(false) => Ok(()),
            Some(true) => if self.recover_farmed(user, ft_ctr_idx, amount) {
                Ok(())
            } else {
                Err(Error::ArithmeticOverflow)
            },
        }
    }

    /// After the transfer of locked Cheddar back to `user`: when it failed,
    /// the Cheddar is locked again.
    pub fn transfer_staked_cheddar_callback(&mut self, user: &String, amount: u128, promise_results_count: u64, result: &PromiseResult) -> (r: Result<(), Error>)
        requires
            old(self).wf(),
        ensures
            final(self).wf(),
            promise_results_count != 1 ==> r == Err::<(), Error>(Error::UnexpectedPromiseResults) && final(self)@ == old(self)@,
            promise_results_count == 1 && !(*result is Failed) ==> r is Ok && final(self)@ == old(self)@,
            promise_results_count == 1 && *result is Failed ==> match old(self)@.recover_cheddar_spec(user@, amount) {
                None => r == Err::<(), Error>(Error::ArithmeticOverflow) && final(self)@ == old(self)@,
                Some(s) => r is Ok && final(self)@ == s,
            },
    {
        match promise_result_as_failed(promise_results_count, result) {
            None => return Err(Error::UnexpectedPromiseResults),
            Some(false) => return Ok(()),
            Some(true) => {},
        }
        if amount > u128::MAX - self.total_cheddar_stake {
            return Err(Error::ArithmeticOverflow);
        }
        let saved = self.save();
        self.total_cheddar_stake = self.total_cheddar_stake + amount;
        let mut v = match self.recovered_vault(user) {
            None => {
                self.restore(saved);
                return Err(Error::ArithmeticOverflow);
            },
            Some(v) => v,
        };
        if amount > u128::MAX - v.cheddar_staked {
            self.restore(saved);
            return Err(Error::ArithmeticOverflow);
        }
        v.cheddar_staked = v.cheddar_staked + amount;
        if !self.store_recomputed(user, v) {
            self.restore(saved);
            return Err(Error::ArithmeticOverflow);
        }
        Ok(())
    }

    /// After the transfer of the boost NFT back to `user`: when it failed, it
    /// is the user's boost again.
    pub fn withdraw_boost_nft_callback(&mut self, user: &String, contract_and_token_id: String, nft_ctr_idx: usize, promise_results_count: u64, result: &PromiseResult) -> (r: Result<(), Error>)
        requires
            old(self).wf(),
            nft_ctr_idx < old(self)@.boost_nft_contracts.len(),
        ensures
            final(self).wf(),
            promise_results_count != 1 ==> r == Err::<(), Error>(Error::UnexpectedPromiseResults) && final(self)@ == old(self)@,
            promise_results_count == 1 && !(*result is Failed) ==> r is Ok && final(self)@ == old(self)@,
            promise_results_count == 1 && *result is Failed ==> match old(self)@.recover_boost_spec(user@, contract_and_token_id@, nft_ctr_idx as int) {
                None => r == Err::<(), Error>(Error::ArithmeticOverflow) && final(self)@ == old(self)@,
                Some(s) => r is Ok && final(self)@ == s,
            },
    {
        match promise_result_as_failed(promise_results_count, result) {
            None => return Err(Error::UnexpectedPromiseResults),
            Some(false) => return Ok(()),
            Some(true) => {},
        }
        let saved = self.save();
        let mut v = match self.recovered_vault(user) {
            None => return Err(Error::ArithmeticOverflow),
            Some(v) => v,
        };
        if self.total_boost[nft_ctr_idx] == u128::MAX {
            self.restore(saved);
            return Err(Error::ArithmeticOverflow);
        }
        let t = self.total_boost[nft_ctr_idx] + 1;
        self.total_boost.set(nft_ctr_idx, t);
        v.boost_nft = contract_and_token_id;
        if !self.store_recomputed(user, v) {
            self.restore(saved);
            return Err(Error::ArithmeticOverflow);
        }
        Ok(())
    }
}

} // verus!
