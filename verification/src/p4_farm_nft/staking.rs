//! The NFT farm's calls that receive NFTs and tokens.
use super::contract::{find_index, names, Contract};
use super::helpers::try_expected_cheddar_stake;
use super::spec::{ActionView, Error, P4View, MSG_CHEDDAR_STAKE, MSG_SETUP_DEPOSIT, MSG_TO_BOOST, MSG_TO_FARM};
use super::vault::{Vault, VaultView};
use crate::near::CallContext;
use crate::p3_lib::constants::E24;
use crate::p3_lib::helpers::round_number;
use crate::u256::checked_mul_div;
use vstd::prelude::*;
use vstd::string::{StrSliceExecFns, StringExecFns};

verus! {

/// What an NFT sent to the farm is for, read from the transfer's message.
pub enum TransferInstruction {
    /// "to farm": stake the NFT
    ToFarm,
    /// "to boost": deposit the NFT as boost
    ToBoost,
    /// any other message
    Unknown,
}

impl TransferInstruction {
    /// The instruction a message stands for.
    pub open spec fn of_msg(msg: Seq<char>) -> TransferInstruction {
        if msg == MSG_TO_BOOST@ {
            TransferInstruction::ToBoost
        } else if msg == MSG_TO_FARM@ {
            TransferInstruction::ToFarm
        } else {
            TransferInstruction::Unknown
        }
    }
}

impl From<String> for TransferInstruction {
    fn from(msg: String) -> (r: Self) {
        proof {
            reveal_strlit("to farm");
            reveal_strlit("to boost");
            assert(MSG_TO_FARM@ != MSG_TO_BOOST@) by {
                assert(MSG_TO_FARM@[0] == 't' && MSG_TO_FARM@[3] == 'f');
                assert(MSG_TO_BOOST@[3] == 'b');
            }
        }
        if msg == String::from_str(MSG_TO_FARM) {
            TransferInstruction::ToFarm
        } else if msg == String::from_str(MSG_TO_BOOST) {
            TransferInstruction::ToBoost
        } else {
            TransferInstruction::Unknown
        }
    }
}

impl vstd::std_specs::convert::FromSpecImpl<String> for TransferInstruction {
    open spec fn obeys_from_spec() -> bool {
        true
    }

    open spec fn from_spec(msg: String) -> Self {
        TransferInstruction::of_msg(msg@)
    }
}

impl Contract {
    /// Stakes NFT `token_id` of `nft_contract_id` for `user` at time `now`;
    /// the user must have locked one Cheddar rate per staked NFT, this one included.
    /// Without enough Cheddar locked the stake is refused. An `Err` stands for a failed call (the call panics): nothing of it persists.
    #[verifier::spinoff_prover]
    #[verifier::rlimit(40)]
    pub fn _nft_stake(&mut self, user: &String, nft_contract_id: &String, token_id: String, now: u64) -> (r: Result<(), Error>)
        requires
            old(self).wf(),
        ensures
            final(self).wf(),
            match old(self)@.nft_stake_spec(user@, nft_contract_id@, token_id@, now) {
                Err(e) => r == Err::<(), Error>(e) && final(self)@ == old(self)@,
                Ok(s) => r is Ok && final(self)@ == s,
            },
    {
        let idx = match find_index(nft_contract_id, &self.stake_nft_tokens) {
            None => return Err(Error::NotListed),
            Some(i) => i,
        };
        let mut vault = match self.get_vault(user) {
            Err(e) => return Err(e),
            Ok(v) => v,
        };
        let total = match vault.try_number_of_staked_tokens() {
            None => return Err(Error::ArithmeticOverflow),
            Some(n) => n,
        };
        let expected = match try_expected_cheddar_stake(total, self.cheddar_rate) {
            None => return Err(Error::ArithmeticOverflow),
            Some(e) => e,
        };
        if vault.cheddar_staked < expected {
            return Err(Error::NotEnoughCheddar { missing: expected - vault.cheddar_staked });
        }
        let round = self.current_round(now);
        let saved = self.save();
        if !self.ping_all(&mut vault, round) {
            self.restore(saved);
            return Err(Error::ArithmeticOverflow);
        }
        let ghost pv = vault@;
        if self.total_stake[idx] == u128::MAX {
            self.restore(saved);
            return Err(Error::ArithmeticOverflow);
        }
        let t = self.total_stake[idx] + 1;
        self.total_stake.set(idx, t);
        let mut inner = vault.staked[idx].clone();
        proof {
            assert(inner@ =~= vault.staked@[idx as int]@) by {
                assert forall|k: int| 0 <= k < inner@.len() implies inner@[k] == vault.staked@[idx as int]@[k] by {
                    assert(cloned::<String>(vault.staked@[idx as int]@[k], inner@[k]));
                }
            }
        }
        inner.push(token_id);
        vault.staked.set(idx, inner);
        proof {
            assert(names(vault.staked@[idx as int]@) =~= pv.staked[idx as int].push(token_id@));
            assert(vault@.staked =~= pv.staked.update(idx as int, pv.staked[idx as int].push(token_id@)));
        }
        if !self._recompute_stake(&mut vault) {
            self.restore(saved);
            return Err(Error::ArithmeticOverflow);
        }
        self.put_vault(user, vault);
        Ok(())
    }

    /// Deposits NFT `token_id` of `nft_contract_id` as `user`'s boost at time
    /// `now`, stored as `nft_contract_id@token_id`. Returns `false`, changing
    /// nothing, when the user already has a boost NFT.
    #[verifier::spinoff_prover]
    #[verifier::rlimit(40)]
    pub fn _boost_stake(&mut self, user: &String, nft_contract_id: &String, token_id: String, now: u64) -> (r: Result<bool, Error>)
        requires
            old(self).wf(),
        ensures
            final(self).wf(),
            match old(self)@.boost_stake_spec(user@, nft_contract_id@, token_id@, now) {
                Err(e) => r == Err::<bool, Error>(e) && final(self)@ == old(self)@,
                Ok((s, b)) => r == Ok::<bool, Error>(b) && final(self)@ == s,
            },
    {
        let idx = match find_index(nft_contract_id, &self.boost_nft_contracts) {
            None => return Err(Error::NotListed),
            Some(i) => i,
        };
        let mut vault = match self.get_vault(user) {
            Err(e) => return Err(e),
            Ok(v) => v,
        };
        if vault.boost_nft.as_str().unicode_len() != 0 {
            return Ok(false);
        }
        let contract_token_id = nft_contract_id.clone().concat("@").concat(token_id.as_str());
        proof {
            reveal_strlit("@");
            assert(contract_token_id@ == nft_contract_id@ + seq!['@'] + token_id@);
        }
        let round = self.current_round(now);
        let saved = self.save();
        if !self.ping_all(&mut vault, round) {
            self.restore(saved);
            return Err(Error::ArithmeticOverflow);
        }
        if self.total_boost[idx] == u128::MAX {
            self.restore(saved);
            return Err(Error::ArithmeticOverflow);
        }
        let t = self.total_boost[idx] + 1;
        self.total_boost.set(idx, t);
        vault.boost_nft = contract_token_id;
        if !self._recompute_stake(&mut vault) {
            self.restore(saved);
            return Err(Error::ArithmeticOverflow);
        }
        self.put_vault(user, vault);
        Ok(true)
    }

    /// Locks `amount` Cheddar for `user`; one Cheddar rate at least. A smaller
    /// deposit is refused. An `Err` stands for a failed call (the call panics): nothing of it persists.
    pub fn stake_cheddar(&mut self, user: &String, amount: u128) -> (r: Result<(), Error>)
        requires
            old(self).wf(),
        ensures
            final(self).wf(),
            match old(self)@.stake_cheddar_spec(user@, amount) {
                Err(e) => r == Err::<(), Error>(e) && final(self)@ == old(self)@,
                Ok(s) => r is Ok && final(self)@ == s,
            },
    {
        match self.assert_is_active() {
            Err(e) => return Err(e),
            Ok(_) => {},
        }
        let mut vault = match self.get_vault(user) {
            Err(e) => return Err(e),
            Ok(v) => v,
        };
        if amount < self.cheddar_rate {
            return Err(Error::CheddarBelowRate);
        }
        if amount > u128::MAX - vault.cheddar_staked || self.cheddar_rate > u128::MAX - self.total_cheddar_stake {
            return Err(Error::ArithmeticOverflow);
        }
        vault.cheddar_staked = vault.cheddar_staked + amount;
        self.total_cheddar_stake = self.total_cheddar_stake + self.cheddar_rate;
        self.put_vault(user, vault);
        Ok(())
    }

    /// Records the setup deposit of `amount` of `token`, which must be the
    /// expected amount for the whole farm, once per token, before finalizing.
    /// An `Err` stands for a failed call (the call panics): nothing of it persists.
    pub fn _setup_deposit(&mut self, token: &String, amount: u128) -> (r: Result<(), Error>)
        requires
            old(self).wf(),
        ensures
            final(self).wf(),
            match old(self)@.setup_deposit_spec(token@, amount) {
                Err(e) => r == Err::<(), Error>(e) && final(self)@ == old(self)@,
                Ok(s) => r is Ok && final(self)@ == s,
            },
    {
        if self.setup_finalized {
            return Err(Error::SetupFinalized);
        }
        let token_i = match find_index(token, &self.farm_tokens) {
            None => return Err(Error::NotListed),
            Some(i) => i,
        };
        let expected = match self.expected_deposit(token_i) {
            None => return Err(Error::ArithmeticOverflow),
            Some(e) => e,
        };
        if self.farm_deposits[token_i] != 0 {
            return Err(Error::DepositDone);
        }
        if amount != expected {
            return Err(Error::WrongDeposit { expected });
        }
        self.farm_deposits.set(token_i, amount);
        Ok(())
    }

    /// Deposit of farm token `token_i` the farm needs for all its rounds.
    pub fn expected_deposit(&self, token_i: usize) -> (r: Option<u128>)
        requires
            self.wf(),
            token_i < self@.farm_tokens.len(),
        ensures
            r == self@.expected_deposit(token_i as int),
    {
        let total_rounds = round_number(self.farming_start, self.farming_end, self.farming_end);
        let units = match (total_rounds as u128).checked_mul(self.farm_unit_emission) {
            None => return None,
            Some(u) => u,
        };
        checked_mul_div(units, self.farm_token_rates[token_i], E24)
    }

    /// Native NEAR setup deposit: the attached deposit.
    pub fn setup_deposit_near(&mut self, ctx: &CallContext) -> (r: Result<(), Error>)
        requires
            old(self).wf(),
        ensures
            final(self).wf(),
            match old(self)@.setup_deposit_spec(crate::p3_lib::constants::NEAR_TOKEN@, ctx.attached_deposit) {
                Err(e) => r == Err::<(), Error>(e) && final(self)@ == old(self)@,
                Ok(s) => r is Ok && final(self)@ == s,
            },
    {
        let near = crate::p3_lib::helpers::near();
        self._setup_deposit(&near, ctx.attached_deposit)
    }

    /// Receives `amount` of the calling token from `sender_id`: message
    /// "setup reward deposit" makes a setup deposit, "cheddar stake" locks
    /// Cheddar, anything else is refunded. Returns the refund.
    pub fn ft_on_transfer(&mut self, ctx: &CallContext, sender_id: &String, amount: u128, msg: &String) -> (r: Result<u128, Error>)
        requires
            old(self).wf(),
        ensures
            final(self).wf(),
            match old(self)@.ft_on_transfer_spec(ctx.predecessor@, sender_id@, amount, msg@) {
                Err(e) => r == Err::<u128, Error>(e) && final(self)@ == old(self)@,
                Ok((s, refund)) => r == Ok::<u128, Error>(refund) && final(self)@ == s,
            },
    {
        if amount == 0 {
            return Err(Error::ZeroAmount);
        }
        if *msg == String::from_str(MSG_SETUP_DEPOSIT) {
            match self._setup_deposit(&ctx.predecessor, amount) {
                Err(e) => Err(e),
                Ok(_) => Ok(0),
            }
        } else if *msg == String::from_str(MSG_CHEDDAR_STAKE) {
            match self.stake_cheddar(sender_id, amount) {
                Err(e) => Err(e),
                Ok(_) => Ok(0),
            }
        } else {
            Ok(amount)
        }
    }

    /// Receives NFT `token_id` from its collection (the caller), sent by
    /// `previous_owner_id`, who must have signed: message "to farm" stakes it,
    /// "to boost" deposits it as boost, anything else is ignored. Returns the
    /// answer to the NFT contract.
    #[verifier::spinoff_prover]
    pub fn nft_on_transfer(&mut self, ctx: &CallContext, previous_owner_id: &String, token_id: String, msg: &String) -> (r: Result<bool, Error>)
        requires
            old(self).wf(),
        ensures
            final(self).wf(),
            match old(self)@.nft_on_transfer_spec(ctx.predecessor@, ctx.signer@, previous_owner_id@, token_id@, msg@, ctx.block_timestamp) {
                Err(e) => r == Err::<bool, Error>(e) && final(self)@ == old(self)@,
                Ok((s, b)) => r == Ok::<bool, Error>(b) && final(self)@ == s,
            },
    {
        let nft_contract_id = &ctx.predecessor;
        if *nft_contract_id == ctx.signer {
            return Err(Error::NotCrossContractCall);
        }
        if *previous_owner_id != ctx.signer {
            return Err(Error::OwnerNotSigner);
        }
        let ins = TransferInstruction::from(msg.clone());
        match ins {
            TransferInstruction::ToFarm => {
                match self.assert_is_active() {
                    Err(e) => return Err(e),
                    Ok(_) => {},
                }
                match self._nft_stake(previous_owner_id, nft_contract_id, token_id, ctx.block_timestamp) {
                    Err(e) => Err(e),
                    Ok(_) => Ok(true),
                }
            },
            TransferInstruction::ToBoost => {
                match self.assert_is_active() {
                    Err(e) => return Err(e),
                    Ok(_) => {},
                }
                match self._boost_stake(previous_owner_id, nft_contract_id, token_id, ctx.block_timestamp) {
                    Err(e) => Err(e),
                    Ok(_) => Ok(true),
                }
            },
            TransferInstruction::Unknown => Ok(true),
        }
    }
}

} // verus!
