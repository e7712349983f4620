//! The NFT farm's calls that unstake, close and pay out.
use super::contract::{actions_view, find_index, names, Action, Contract};
use super::helpers::{staked_view, try_extract_contract_token_ids, try_min_stake};
use super::spec::{same_config, ActionView, Error, P4View, NFT_UNITS_MAX_TRANSFER_NUM};
use super::vault::{Vault, VaultView};
use crate::near::CallContext;
use crate::p3_lib::constants::STORAGE_COST;
use vstd::prelude::*;
use vstd::string::StrSliceExecFns;

verus! {

impl Contract {
    /// Refuses calls before the setup is finalized and while inactive.
    pub fn assert_is_active(&self) -> (r: Result<(), Error>)
        ensures
            r == self@.active_check(),
    {
        if !self.setup_finalized {
            return Err(Error::NotSetup);
        }
        if !self.is_active {
            return Err(Error::NotActive);
        }
        Ok(())
    }

    /// Takes back the boost NFT of `user`'s `vault` at `round`. A refusal
    /// (an `Err`, which stands for a failed call: `NoBoostNft` when the vault
    /// holds no boost NFT) leaves the farm and the vault as they were.
    #[verifier::spinoff_prover]
    #[verifier::rlimit(40)]
    pub fn _withdraw_boost_nft(&mut self, user: &String, vault: &mut Vault, round: u64) -> (r: Result<Action, Error>)
        requires
            old(self).wf(),
            old(self)@.vault_fits(old(vault)@),
        ensures
            final(self).wf(),
            r is Err ==> final(self)@ == old(self)@ && final(vault)@ == old(vault)@,
            match old(self)@.withdraw_boost_spec(user@, old(vault)@, round) {
                Err(e) => r matches Err(x) && x == e,
                Ok((c, nv, a)) => r matches Ok(x) && x@ == a && final(self)@ == c && final(vault)@ == nv,
            },
    {
        if vault.boost_nft.as_str().unicode_len() == 0 {
            return Err(Error::NoBoostNft);
        }
        let ghost o = self@;
        let ghost ov = vault@;
        let saved = self.save();
        let v0 = vault.clone_vault();
        if !self.ping_all(vault, round) {
            self.restore(saved);
            return Err(Error::ArithmeticOverflow);
        }
        let ghost c = self@;
        let ghost pv = vault@;
        assert(o.ping_all(ov, round) == Some((c, pv)));
        let (boost_contract, boost_token) = match try_extract_contract_token_ids(&vault.boost_nft) {
            None => {
                self.restore(saved);
                *vault = v0;
                return Err(Error::InvalidBoostId);
            },
            Some(p) => p,
        };
        assert(super::helpers::split_contract_token(pv.boost_nft) == Some((boost_contract@, boost_token@)));
        let idx = match find_index(&boost_contract, &self.boost_nft_contracts) {
            None => {
                self.restore(saved);
                *vault = v0;
                return Err(Error::NotListed);
            },
            Some(i) => i,
        };
        assert(super::spec::index_of(c.boost_nft_contracts, boost_contract@) == Some(idx as int));
        if self.total_boost[idx] < 1 {
            self.restore(saved);
            *vault = v0;
            return Err(Error::ArithmeticOverflow);
        }
        let t = self.total_boost[idx] - 1;
        self.total_boost.set(idx, t);
        let ghost c2 = self@;
        assert(c2 == (P4View { total_boost: c.total_boost.update(idx as int, (c.total_boost[idx as int] - 1) as u128), ..c }));
        let boost = vault.boost_nft.clone();
        vault.boost_nft = String::new();
        assert(vault@ == (VaultView { boost_nft: Seq::empty(), ..pv }));
        if !self._recompute_stake(vault) {
            self.restore(saved);
            *vault = v0;
            return Err(Error::ArithmeticOverflow);
        }
        self.put_vault(user, vault.clone_vault());
        Ok(Action::WithdrawBoostNft {
            user: user.clone(),
            nft_contract_id: boost_contract,
            token_id: boost_token,
            contract_and_token_id: boost,
            nft_ctr_idx: idx,
        })
    }

    /// Sends the caller's boost NFT back. Works while the farm is paused.
    /// Requires 1 yoctoNEAR.
    pub fn withdraw_boost_nft(&mut self, ctx: &CallContext) -> (r: Result<Action, Error>)
        requires
            old(self).wf(),
        ensures
            final(self).wf(),
            match old(self)@.withdraw_boost_call_spec(ctx.predecessor@, ctx.attached_deposit, ctx.block_timestamp) {
                Err(e) => r matches Err(x) && x == e && final(self)@ == old(self)@,
                Ok((c, a)) => r matches Ok(x) && x@ == a && final(self)@ == c,
            },
    {
        if ctx.attached_deposit != 1 {
            return Err(Error::RequiresOneYocto);
        }
        let user = &ctx.predecessor;
        let mut vault = match self.get_vault(user) {
            Err(e) => return Err(e),
            Ok(v) => v,
        };
        let round = self.current_round(ctx.block_timestamp);
        let saved = self.save();
        match self._withdraw_boost_nft(user, &mut vault, round) {
            Err(e) => {
                self.restore(saved);
                Err(e)
            },
            Ok(a) => Ok(a),
        }
    }

    /// Unstakes everything and closes the caller's account: all staked NFTs,
    /// the farmed tokens, the boost NFT and the locked Cheddar go back. An
    /// empty account gets its storage deposit back instead. At most
    /// `NFT_UNITS_MAX_TRANSFER_NUM` NFTs can be sent back at once. Requires
    /// 1 yoctoNEAR.
    #[verifier::spinoff_prover]
    #[verifier::rlimit(60)]
    pub fn close(&mut self, ctx: &CallContext) -> (r: Result<Vec<Action>, Error>)
        requires
            old(self).wf(),
        ensures
            final(self).wf(),
            match old(self)@.close_spec(ctx.predecessor@, ctx.attached_deposit, ctx.block_timestamp) {
                Err(e) => r matches Err(x) && x == e && final(self)@ == old(self)@,
                Ok((c, acts)) => r matches Ok(a) && actions_view(a@) == acts && final(self)@ == c,
            },
    {
        match self.assert_is_active() {
            Err(e) => return Err(e),
            Ok(_) => {},
        }
        if ctx.attached_deposit != 1 {
            return Err(Error::RequiresOneYocto);
        }
        let user = &ctx.predecessor;
        let mut vault = match self.get_vault(user) {
            Err(e) => return Err(e),
            Ok(v) => v,
        };
        match vault.try_number_of_staked_tokens() {
            None => return Err(Error::TooManyNfts),
            Some(n) => if n > NFT_UNITS_MAX_TRANSFER_NUM {
                return Err(Error::TooManyNfts);
            },
        }
        let round = self.current_round(ctx.block_timestamp);
        let ghost o = self@;
        let saved = self.save();
        let orig = vault.clone_vault();
        if !self.ping_all(&mut vault, round) {
            self.restore(saved);
            return Err(Error::ArithmeticOverflow);
        }
        let ghost c = self@;
        let ghost v = vault@;
        if vault.is_empty() {
            if self.accounts_registered < 1 {
                self.restore(saved);
                return Err(Error::ArithmeticOverflow);
            }
            self.accounts_registered = self.accounts_registered - 1;
            self.drop_vault(user);
            let mut actions = Vec::new();
            actions.push(Action::TransferNear { receiver: user.clone(), amount: STORAGE_COST });
            proof {
                assert(actions_view(actions@) =~= seq![ActionView::TransferNear { receiver: user@, amount: STORAGE_COST }]);
            }
            return Ok(actions);
        }
        let units = match try_min_stake(&vault.staked, &self.stake_rates) {
            None => {
                self.restore(saved);
                return Err(Error::ArithmeticOverflow);
            },
            Some(u) => u,
        };
        if self.staked_units < units {
            self.restore(saved);
            return Err(Error::ArithmeticOverflow);
        }
        self.staked_units = self.staked_units - units;
        let mut actions: Vec<Action> = Vec::new();
        let ghost c1 = self@;
        if !self.transfer_all_staked(user, &vault.staked, &mut actions) {
            self.restore(saved);
            return Err(Error::ArithmeticOverflow);
        }
        let ghost a1 = actions_view(actions@);
        let ghost c2 = self@;
        if !self._withdraw_crop(user, vault.farmed, &mut actions) {
            self.restore(saved);
            return Err(Error::ArithmeticOverflow);
        }
        let ghost c3 = self@;
        let ghost a12 = actions_view(actions@);
        if vault.boost_nft.as_str().unicode_len() != 0 {
            let ghost before = actions@;
            match self._withdraw_boost_nft(user, &mut vault, round) {
                Err(e) => {
                    self.restore(saved);
                    return Err(e);
                },
                Ok(a) => {
                    actions.push(a);
                    proof {
                        assert(actions_view(actions@) =~= actions_view(before).push(actions@.last()@));
                    }
                },
            }
        } else {
            proof {
                assert(a12 =~= a12 + Seq::<ActionView>::empty());
            }
        }
        let ghost a123 = actions_view(actions@);
        if vault.cheddar_staked > 0 {
            let ghost before = actions@;
            match self.transfer_staked_cheddar(user, Some(vault.cheddar_staked)) {
                None => {
                    self.put_vault(user, orig);
                    self.restore(saved);
                    proof {
                        assert(self@.vaults =~= o.vaults);
                    }
                    return Err(Error::ArithmeticOverflow);
                },
                Some(a) => {
                    actions.push(a);
                    proof {
                        assert(actions_view(actions@) =~= actions_view(before).push(actions@.last()@));
                    }
                },
            }
        } else {
            proof {
                assert(a123 =~= a123 + Seq::<ActionView>::empty());
            }
        }
        if self.accounts_registered < 1 {
            self.put_vault(user, orig);
            self.restore(saved);
            proof {
                assert(self@.vaults =~= o.vaults);
            }
            return Err(Error::ArithmeticOverflow);
        }
        self.accounts_registered = self.accounts_registered - 1;
        self.drop_vault(user);
        proof {
            assert(actions_view(actions@) =~= a1 + (a12.subrange(a1.len() as int, a12.len() as int)) + (a123.subrange(a12.len() as int, a123.len() as int))
                + actions_view(actions@).subrange(a123.len() as int, actions_view(actions@).len() as int));
        }
        Ok(actions)
    }

    /// Unstakes NFT `token_id` of `nft_contract_id` and sends it back to the
    /// caller with one Cheddar rate of the locked Cheddar. Unstaking the last
    /// NFT closes the account. Returns the NFTs of that collection still
    /// staked, and the actions. Requires 1 yoctoNEAR.
    pub fn unstake(&mut self, ctx: &CallContext, nft_contract_id: &String, token_id: String) -> (r: Result<(Vec<String>, Vec<Action>), Error>)
        requires
            old(self).wf(),
        ensures
            final(self).wf(),
            match old(self)@.unstake_spec(ctx.predecessor@, nft_contract_id@, token_id@, ctx.attached_deposit, ctx.block_timestamp) {
                Err(e) => r matches Err(x) && x == e && final(self)@ == old(self)@,
                Ok((c, left, acts)) => r matches Ok((l, a)) && names(l@) == left && actions_view(a@) == acts && final(self)@ == c,
            },
    {
        match self.assert_is_active() {
            Err(e) => return Err(e),
            Ok(_) => {},
        }
        if ctx.attached_deposit != 1 {
            return Err(Error::RequiresOneYocto);
        }
        self._nft_unstake(ctx, nft_contract_id, token_id)
    }

    /// `unstake` once the farm is known active and 1 yoctoNEAR attached.
    #[verifier::spinoff_prover]
    #[verifier::rlimit(40)]
    pub fn _nft_unstake(&mut self, ctx: &CallContext, nft_contract_id: &String, token_id: String) -> (r: Result<(Vec<String>, Vec<Action>), Error>)
        requires
            old(self).wf(),
            old(self)@.active_check() is Ok,
            ctx.attached_deposit == 1,
        ensures
            final(self).wf(),
            match old(self)@.unstake_spec(ctx.predecessor@, nft_contract_id@, token_id@, ctx.attached_deposit, ctx.block_timestamp) {
                Err(e) => r matches Err(x) && x == e && final(self)@ == old(self)@,
                Ok((c, left, acts)) => r matches Ok((l, a)) && names(l@) == left && actions_view(a@) == acts && final(self)@ == c,
            },
    {
        let user = &ctx.predecessor;
        let idx = match find_index(nft_contract_id, &self.stake_nft_tokens) {
            None => return Err(Error::NotListed),
            Some(i) => i,
        };
        let mut vault = match self.get_vault(user) {
            Err(e) => return Err(e),
            Ok(v) => v,
        };
        proof {
            assert(vault@.staked[idx as int] == names(vault.staked@[idx as int]@));
        }
        let tidx = match find_index(&token_id, &vault.staked[idx]) {
            None => return Err(Error::TokenNotStaked),
            Some(t) => t,
        };
        match vault.try_number_of_staked_tokens() {
            Some(n) => if n == 1 {
                return match self.close(ctx) {
                    Err(e) => Err(e),
                    Ok(acts) => Ok((Vec::new(), acts)),
                };
            },
            None => {},
        }
        let round = self.current_round(ctx.block_timestamp);
        let ghost o = self@;
        let saved = self.save();
        let orig = vault.clone_vault();
        if !self.ping_all(&mut vault, round) {
            self.restore(saved);
            return Err(Error::ArithmeticOverflow);
        }
        let ghost pv = vault@;
        let mut inner = vault.staked[idx].clone();
        proof {
            assert(inner@ =~= vault.staked@[idx as int]@) by {
                assert forall|k: int| 0 <= k < inner@.len() implies inner@[k] == vault.staked@[idx as int]@[k] by {
                    assert(cloned::<String>(vault.staked@[idx as int]@[k], inner@[k]));
                }
            }
        }
        proof {
            super::spec::lemma_index_of(names(inner@), token_id@);
            assert(names(inner@)[tidx as int] == inner@[tidx as int]@);
        }
        let removed = inner.remove(tidx);
        vault.staked.set(idx, inner);
        proof {
            assert(names(vault.staked@[idx as int]@) =~= pv.staked[idx as int].remove(tidx as int));
            assert(vault@.staked =~= pv.staked.update(idx as int, pv.staked[idx as int].remove(tidx as int)));
            assert(removed@ == token_id@);
        }
        if !self._recompute_stake(&mut vault) {
            self.restore(saved);
            return Err(Error::ArithmeticOverflow);
        }
        if vault.cheddar_staked < self.cheddar_rate {
            self.restore(saved);
            return Err(Error::ArithmeticOverflow);
        }
        vault.cheddar_staked = vault.cheddar_staked - self.cheddar_rate;
        let remaining = vault.staked[idx].clone();
        proof {
            assert(remaining@ =~= vault.staked@[idx as int]@) by {
                assert forall|k: int| 0 <= k < remaining@.len() implies remaining@[k] == vault.staked@[idx as int]@[k] by {
                    assert(cloned::<String>(vault.staked@[idx as int]@[k], remaining@[k]));
                }
            }
        }
        self.put_vault(user, vault);
        let a1 = match self.transfer_staked_nft(user, idx, removed) {
            None => {
                self.put_vault(user, orig);
                self.restore(saved);
                proof {
                    assert(self@.vaults =~= o.vaults);
                }
                return Err(Error::ArithmeticOverflow);
            },
            Some(a) => a,
        };
        let a2 = match self.transfer_staked_cheddar(user, None) {
            None => {
                self.put_vault(user, orig);
                self.restore(saved);
                proof {
                    assert(self@.vaults =~= o.vaults);
                }
                return Err(Error::ArithmeticOverflow);
            },
            Some(a) => a,
        };
        let mut actions = Vec::new();
        actions.push(a1);
        actions.push(a2);
        proof {
            assert(actions_view(actions@) =~= seq![actions@[0]@, actions@[1]@]);
        }
        Ok((remaining, actions))
    }

    /// Pays out all farmed tokens of the caller; the account stays open.
    pub fn withdraw_crop(&mut self, ctx: &CallContext) -> (r: Result<Vec<Action>, Error>)
        requires
            old(self).wf(),
        ensures
            final(self).wf(),
            match old(self)@.withdraw_crop_call_spec(ctx.predecessor@, ctx.block_timestamp) {
                Err(e) => r matches Err(x) && x == e && final(self)@ == old(self)@,
                Ok((c, acts)) => r matches Ok(a) && actions_view(a@) == acts && final(self)@ == c,
            },
    {
        match self.assert_is_active() {
            Err(e) => return Err(e),
            Ok(_) => {},
        }
        let user = &ctx.predecessor;
        let mut vault = match self.get_vault(user) {
            Err(e) => return Err(e),
            Ok(v) => v,
        };
        let round = self.current_round(ctx.block_timestamp);
        let ghost o = self@;
        let saved = self.save();
        let orig = vault.clone_vault();
        if !self.ping_all(&mut vault, round) {
            self.restore(saved);
            return Err(Error::ArithmeticOverflow);
        }
        let farmed_units = vault.farmed;
        vault.farmed = 0;
        self.put_vault(user, vault);
        let mut actions = Vec::new();
        if !self._withdraw_crop(user, farmed_units, &mut actions) {
            self.put_vault(user, orig);
            self.restore(saved);
            proof {
                assert(self@.vaults =~= o.vaults);
            }
            return Err(Error::ArithmeticOverflow);
        }
        proof {
            assert(actions_view(actions@) =~= Seq::<ActionView>::empty() + actions_view(actions@));
        }
        Ok(actions)
    }

    /// Pays out the farmed tokens of `token` whose transfer failed before.
    pub fn withdraw_farmed_recovered(&mut self, ctx: &CallContext, token: &String) -> (r: Result<Action, Error>)
        requires
            old(self).wf(),
        ensures
            final(self).wf(),
            match old(self)@.withdraw_recovered_spec(ctx.predecessor@, token@) {
                Err(e) => r matches Err(x) && x == e && final(self)@ == old(self)@,
                Ok((c, a)) => r matches Ok(x) && x@ == a && final(self)@ == c,
            },
    {
        match self.assert_is_active() {
            Err(e) => return Err(e),
            Ok(_) => {},
        }
        let user = &ctx.predecessor;
        let mut vault = match self.get_vault(user) {
            Err(e) => return Err(e),
            Ok(v) => v,
        };
        let token_i = match find_index(token, &self.farm_tokens) {
            None => return Err(Error::NotListed),
            Some(i) => i,
        };
        let amount = vault.farmed_recovered[token_i];
        if amount == 0 {
            return Err(Error::ZeroRecovered);
        }
        let ghost o = self@;
        let orig = vault.clone_vault();
        vault.farmed_recovered.set(token_i, 0);
        self.put_vault(user, vault);
        match self.transfer_farmed_tokens(user, token_i, amount) {
            None => {
                self.put_vault(user, orig);
                proof {
                    assert(self@.vaults =~= o.vaults);
                }
                Err(Error::ArithmeticOverflow)
            },
            Some(a) => Ok(a),
        }
    }
}

} // verus!
