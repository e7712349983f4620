//! The multi-token farm's calls.
use super::contract::{actions_view, Action, Contract, ContractParams, Status};
use super::helpers::{checked_sum, min_stake, min_units, seq_sum, units_fit};
use super::spec::{same_config, ActionView, Error, P3View, MSG_SETUP_DEPOSIT};
use super::vault::{new_vault_spec, vault_is_empty, vault_ping_spec, Vault, VaultView};
use crate::account_map::AccountMap;
use crate::farming::next_reward_acc;
use crate::near::{CallContext, PromiseResult};
use crate::p3_lib::constants::{E24, NEAR_TOKEN, ROUND, SECOND, STORAGE_COST};
use crate::p3_lib::helpers::safe_mul_spec;
use crate::p4_farm_nft::contract::{find_index, names};
use crate::p4_farm_nft::management::{copy_names, farmed_per_token, zeros};
use crate::p4_farm_nft::vault::copy_amounts;
use crate::storage::{StorageBalance, StorageBalanceBounds};
use crate::u256::checked_mul_div;
use vstd::prelude::*;
use vstd::string::{StrSliceExecFns, StringExecFns};

verus! {

impl P3View {
    /// The state of a new farm.
    pub open spec fn initial(
        owner_id: Seq<char>,
        stake_tokens: Seq<Seq<char>>,
        stake_rates: Seq<u128>,
        farm_unit_emission: u128,
        farm_tokens: Seq<Seq<char>>,
        farm_token_rates: Seq<u128>,
        farming_start: u64,
        farming_end: u64,
        cheddar_nft: Seq<char>,
        cheddar_nft_boost: u32,
        fee_rate: u32,
        treasury: Seq<char>,
    ) -> P3View {
        P3View {
            is_active: true,
            setup_finalized: false,
            owner_id,
            treasury,
            vaults: Map::empty(),
            stake_tokens,
            staked_units: 0,
            stake_rates,
            farm_tokens,
            farm_token_rates,
            farm_unit_emission,
            farm_deposits: Seq::new(farm_tokens.len(), |i: int| 0u128),
            farming_start,
            farming_end,
            cheddar_nft,
            cheddar_nft_boost,
            total_harvested: Seq::new(farm_tokens.len(), |i: int| 0u128),
            reward_acc: 0,
            reward_acc_round: 0,
            total_stake: Seq::new(stake_tokens.len(), |i: int| 0u128),
            accounts_registered: 0,
            fee_rate: fee_rate as u128,
            fee_collected: Seq::new(stake_tokens.len(), |i: int| 0u128),
        }
    }

    /// A Cheddy NFT `token_id` from `nft_contract` for `previous_owner` at
    /// `now`: taken as the user's boost when it comes from the Cheddy contract
    /// to a registered account without one. Answers whether the NFT goes back.
    pub open spec fn nft_on_transfer_spec(self, nft_contract: Seq<char>, previous_owner: Seq<char>, token_id: Seq<char>, now: u64) -> Result<(Self, bool), Error> {
        if nft_contract != self.cheddar_nft || !self.vaults.contains_key(previous_owner)
            || self.vaults[previous_owner].cheddy.len() != 0 {
            Ok((self, true))
        } else {
            match self.ping_all(self.vaults[previous_owner], self.round_at(now)) {
                None => Err(Error::ArithmeticOverflow),
                Some((c, v)) => match c.recompute(VaultView { cheddy: token_id, ..v }) {
                    None => Err(Error::ArithmeticOverflow),
                    Some((c2, nv)) => Ok((P3View { vaults: c2.vaults.insert(previous_owner, nv), ..c2 }, false)),
                },
            }
        }
    }

    /// `withdraw_nft` by `user` to `receiver` at `now`.
    pub open spec fn withdraw_nft_call_spec(self, user: Seq<char>, receiver: Seq<char>, now: u64) -> Result<(Self, ActionView), Error> {
        if !self.vaults.contains_key(user) {
            Err(Error::NoAccount)
        } else {
            match self.withdraw_nft_spec(user, self.vaults[user], receiver, self.round_at(now)) {
                Err(e) => Err(e),
                Ok((c, nv, a)) => Ok((P3View { vaults: c.vaults.insert(user, nv), ..c }, a)),
            }
        }
    }

    /// `a` sends a nonzero collected fee of some stake token to the treasury.
    pub open spec fn is_fee_withdrawal(self, a: ActionView) -> bool {
        match a {
            ActionView::FtTransfer { receiver, token, amount, memo } => {
                &&& receiver == self.treasury
                &&& amount > 0
                &&& memo == "fee withdraw"@
                &&& exists|j: int| 0 <= j < self.stake_tokens.len() && token == self.stake_tokens[j] && amount == self.fee_collected[j]
            },
            _ => false,
        }
    }

    /// `withdraw_crop` by `user` at `now`.
    pub open spec fn withdraw_crop_call_spec(self, user: Seq<char>, now: u64) -> Result<(Self, Seq<ActionView>), Error> {
        if self.active_check() is Err {
            Err(self.active_check()->Err_0)
        } else if !self.vaults.contains_key(user) {
            Err(Error::NoAccount)
        } else {
            match self.ping_all(self.vaults[user], self.round_at(now)) {
                None => Err(Error::ArithmeticOverflow),
                Some((c, v)) => {
                    let c2 = P3View { vaults: c.vaults.insert(user, VaultView { farmed: 0, ..v }), ..c };
                    match c2.withdraw_crop_spec(user, v.farmed) {
                        None => Err(Error::ArithmeticOverflow),
                        Some((c3, acts)) => Ok((c3, acts)),
                    }
                },
            }
        }
    }

    /// The vault of `a` as `status` reports it at `now`: brought to the
    /// current round; `None` on overflow.
    pub open spec fn status_vault(self, a: Seq<char>, now: u64) -> Option<VaultView> {
        match next_reward_acc(self.reward_acc, self.reward_acc_round, self.farm_unit_emission, self.staked_units, self.round_at(now)) {
            None => None,
            Some(acc) => vault_ping_spec(self.vaults[a], acc, self.round_at(now)),
        }
    }

    /// Start (seconds) of the round `status` reports at `now`.
    pub open spec fn status_timestamp(self, now: u64) -> int {
        self.farming_start + (if self.round_at(now) > 1 { self.round_at(now) - 1 } else { 0 }) * ROUND
    }
}

impl Contract {
    /// Refuses calls before the setup is finalized and while inactive.
    pub fn assert_is_active(&self) -> (r: Result<(), Error>)
        ensures
            r == self@.active_check(),
    {
        if !self.setup_finalized {
            return Err(Error::NotSetup);
        }
        if !self.is_active {
            return Err(Error::NotActive);
        }
        Ok(())
    }

    /// Initializes the farm (starting inactive for staking until the setup is
    /// finalized). The first stake rate must be 1e24.
    pub fn new(
        owner_id: String,
        stake_tokens: Vec<String>,
        stake_rates: Vec<u128>,
        farm_unit_emission: u128,
        farm_tokens: Vec<String>,
        farm_token_rates: Vec<u128>,
        farming_start: u64,
        farming_end: u64,
        cheddar_nft: String,
        cheddar_nft_boost: u32,
        fee_rate: u32,
        treasury: String,
    ) -> (r: Result<Contract, Error>)
        ensures
            farming_end <= farming_start ==> (r matches Err(e) && e == Error::EndNotAfterStart),
            farming_end > farming_start && (stake_rates@.len() == 0 || stake_rates@[0] != E24)
                ==> (r matches Err(e) && e == Error::FirstStakeRate),
            farming_end > farming_start && stake_rates@.len() > 0 && stake_rates@[0] == E24
                && farm_token_rates@.len() != farm_tokens@.len() ==> (r matches Err(e) && e == Error::FarmVectorLength),
            farming_end > farming_start && stake_rates@.len() > 0 && stake_rates@[0] == E24
                && farm_token_rates@.len() == farm_tokens@.len() && stake_rates@.len() != stake_tokens@.len()
                ==> (r matches Err(e) && e == Error::StakeVectorLength),
            r is Ok <==> farming_end > farming_start && stake_rates@.len() > 0 && stake_rates@[0] == E24
                && farm_token_rates@.len() == farm_tokens@.len() && stake_rates@.len() == stake_tokens@.len(),
            r matches Ok(c) ==> c.wf() && c@ == P3View::initial(
                owner_id@, names(stake_tokens@), stake_rates@, farm_unit_emission, names(farm_tokens@),
                farm_token_rates@, farming_start, farming_end, cheddar_nft@, cheddar_nft_boost, fee_rate, treasury@,
            ),
    {
        if farming_end <= farming_start {
            return Err(Error::EndNotAfterStart);
        }
        if stake_rates.len() == 0 || stake_rates[0] != E24 {
            return Err(Error::FirstStakeRate);
        }
        if farm_token_rates.len() != farm_tokens.len() {
            return Err(Error::FarmVectorLength);
        }
        if stake_rates.len() != stake_tokens.len() {
            return Err(Error::StakeVectorLength);
        }
        let stake_len = stake_tokens.len();
        let farm_len = farm_tokens.len();
        Ok(Contract {
            is_active: true,
            setup_finalized: false,
            owner_id,
            treasury,
            vaults: AccountMap::new(),
            stake_tokens,
            staked_units: 0,
            stake_rates,
            farm_tokens,
            farm_token_rates,
            farm_unit_emission,
            farm_deposits: zeros(farm_len),
            farming_start,
            farming_end,
            cheddar_nft,
            cheddar_nft_boost,
            total_harvested: zeros(farm_len),
            reward_acc: 0,
            reward_acc_round: 0,
            total_stake: zeros(stake_len),
            accounts_registered: 0,
            fee_rate: fee_rate as u128,
            fee_collected: zeros(stake_len),
        })
    }

    /// Checks that the vectors of farm tokens and of stake tokens agree in length.
    pub fn check_vectors(&self) -> (r: Result<(), Error>)
        ensures
            r is Ok <==> self.farm_token_rates@.len() == self.farm_tokens@.len() && self.total_harvested@.len() == self.farm_tokens@.len()
                && self.farm_deposits@.len() == self.farm_tokens@.len() && self.stake_rates@.len() == self.stake_tokens@.len()
                && self.total_stake@.len() == self.stake_tokens@.len() && self.fee_collected@.len() == self.stake_tokens@.len(),
            !(self.farm_token_rates@.len() == self.farm_tokens@.len() && self.total_harvested@.len() == self.farm_tokens@.len()
                && self.farm_deposits@.len() == self.farm_tokens@.len()) ==> r == Err::<(), Error>(Error::FarmVectorLength),
    {
        let fl = self.farm_tokens.len();
        let sl = self.stake_tokens.len();
        if !(fl == self.farm_token_rates.len() && fl == self.total_harvested.len() && fl == self.farm_deposits.len()) {
            return Err(Error::FarmVectorLength);
        }
        if !(sl == self.stake_rates.len() && sl == self.total_stake.len() && sl == self.fee_collected.len()) {
            return Err(Error::StakeVectorLength);
        }
        Ok(())
    }

    /// Farm parameters and totals.
    pub fn get_contract_params(&self) -> (r: ContractParams)
        ensures
            r.owner_id@ == self@.owner_id,
            names(r.stake_tokens@) == self@.stake_tokens,
            r.stake_rates@ == self@.stake_rates,
            r.farm_unit_emission == self@.farm_unit_emission,
            names(r.farm_tokens@) == self@.farm_tokens,
            r.farm_token_rates@ == self@.farm_token_rates,
            r.farm_deposits@ == self@.farm_deposits,
            r.is_active == self@.is_active,
            r.farming_start == self@.farming_start,
            r.farming_end == self@.farming_end,
            r.cheddar_nft@ == self@.cheddar_nft,
            r.total_staked@ == self@.total_stake,
            r.total_farmed@ == self@.total_harvested,
            r.fee_rate == self@.fee_rate,
            r.accounts_registered == self@.accounts_registered,
    {
        ContractParams {
            owner_id: self.owner_id.clone(),
            stake_tokens: copy_names(&self.stake_tokens),
            stake_rates: copy_amounts(&self.stake_rates),
            farm_unit_emission: self.farm_unit_emission,
            farm_tokens: copy_names(&self.farm_tokens),
            farm_token_rates: copy_amounts(&self.farm_token_rates),
            farm_deposits: copy_amounts(&self.farm_deposits),
            is_active: self.is_active,
            farming_start: self.farming_start,
            farming_end: self.farming_end,
            cheddar_nft: self.cheddar_nft.clone(),
            total_staked: copy_amounts(&self.total_stake),
            total_farmed: copy_amounts(&self.total_harvested),
            fee_rate: self.fee_rate,
            accounts_registered: self.accounts_registered,
        }
    }

    /// Farming status of `account_id` at block time `now`; `Ok(None)` when
    /// not registered.
    pub fn status(&self, account_id: &String, now: u64) -> (r: Result<Option<Status>, Error>)
        requires
            self.wf(),
        ensures
            !self@.vaults.contains_key(account_id@) ==> (r matches Ok(None)),
            self@.vaults.contains_key(account_id@) ==> match self@.status_vault(account_id@, now) {
                None => r matches Err(e) && e == Error::ArithmeticOverflow,
                Some(v) => if exists|i: int| 0 <= i < self@.farm_token_rates.len() && #[trigger] safe_mul_spec(v.farmed, self@.farm_token_rates[i]) > u128::MAX {
                    r matches Err(e) && e == Error::ArithmeticOverflow
                } else if self@.status_timestamp(now) > u64::MAX {
                    r matches Err(e) && e == Error::ArithmeticOverflow
                } else {
                    r matches Ok(Some(st)) && st.stake_tokens@ == v.staked
                        && st.stake == v.min_stake && st.farmed_units == v.farmed
                        && st.farmed_tokens@.len() == self@.farm_token_rates.len()
                        && (forall|i: int| 0 <= i < self@.farm_token_rates.len() ==> #[trigger] st.farmed_tokens@[i] == safe_mul_spec(v.farmed, self@.farm_token_rates[i]))
                        && st.cheddy_nft@ == v.cheddy && st.timestamp == self@.status_timestamp(now)
                },
            },
    {
        let mut v = match self.vaults.get(account_id) {
            None => return Ok(None),
            Some(v) => v.clone_vault(),
        };
        let ghost v0 = v@;
        assert(v0 == self@.vaults[account_id@]);
        let r = self.current_round(now);
        let acc = match self.compute_reward_acc(r) {
            None => return Err(Error::ArithmeticOverflow),
            Some(a) => a,
        };
        if !v.ping(acc, r) {
            return Err(Error::ArithmeticOverflow);
        }
        assert(self@.status_vault(account_id@, now) == Some(v@));
        let r0: u64 = if r > 1 { r - 1 } else { 0 };
        let farmed = match farmed_per_token(v.farmed, &self.farm_token_rates) {
            None => {
                proof {
                    let i = choose|i: int| 0 <= i < self.farm_token_rates@.len() && #[trigger] safe_mul_spec(v.farmed, self.farm_token_rates@[i]) > u128::MAX;
                    assert(safe_mul_spec(v@.farmed, self@.farm_token_rates[i]) > u128::MAX);
                }
                return Err(Error::ArithmeticOverflow);
            },
            Some(f) => f,
        };
        let ts = match r0.checked_mul(ROUND) {
            None => return Err(Error::ArithmeticOverflow),
            Some(x) => match self.farming_start.checked_add(x) {
                None => return Err(Error::ArithmeticOverflow),
                Some(t) => t,
            },
        };
        proof {
            assert(ts == self@.status_timestamp(now));
            assert(farmed@.len() == self@.farm_token_rates.len());
            assert(forall|i: int| 0 <= i < self@.farm_token_rates.len() ==> #[trigger] farmed@[i] == safe_mul_spec(v@.farmed, self@.farm_token_rates[i]));
            assert(v.staked@ == v@.staked);
            assert(v.cheddy@ == v@.cheddy);
            if exists|i: int| 0 <= i < self@.farm_token_rates.len() && #[trigger] safe_mul_spec(v@.farmed, self@.farm_token_rates[i]) > u128::MAX {
                let i = choose|i: int| 0 <= i < self@.farm_token_rates.len() && #[trigger] safe_mul_spec(v@.farmed, self@.farm_token_rates[i]) > u128::MAX;
                assert(farmed@[i] == safe_mul_spec(v@.farmed, self@.farm_token_rates[i]));
            }
        }
        Ok(Some(Status {
            stake_tokens: v.staked,
            stake: v.min_stake,
            farmed_units: v.farmed,
            farmed_tokens: farmed,
            cheddy_nft: v.cheddy,
            timestamp: ts,
        }))
    }

    /// Receives a Cheddy NFT for `previous_owner_id` as its boost. Returns
    /// whether the NFT goes back (not a Cheddy, unregistered account, or one
    /// already deposited).
    pub fn nft_on_transfer(&mut self, ctx: &CallContext, previous_owner_id: &String, token_id: String) -> (r: Result<bool, Error>)
        requires
            old(self).wf(),
        ensures
            final(self).wf(),
            match old(self)@.nft_on_transfer_spec(ctx.predecessor@, previous_owner_id@, token_id@, ctx.block_timestamp) {
                Err(e) => r == Err::<bool, Error>(e) && final(self)@ == old(self)@,
                Ok((s, b)) => r == Ok::<bool, Error>(b) && final(self)@ == s,
            },
    {
        if ctx.predecessor != self.cheddar_nft {
            return Ok(true);
        }
        let mut v = match self.vaults.get(previous_owner_id) {
            None => return Ok(true),
            Some(v) => v.clone_vault(),
        };
        if v.cheddy.as_str().unicode_len() != 0 {
            return Ok(true);
        }
        let round = self.current_round(ctx.block_timestamp);
        let saved = self.save();
        if !self.ping_all(&mut v, round) {
            self.restore(saved);
            return Err(Error::ArithmeticOverflow);
        }
        v.cheddy = token_id;
        if !self._recompute_stake(&mut v) {
            self.restore(saved);
            return Err(Error::ArithmeticOverflow);
        }
        self.put_vault(previous_owner_id, v);
        Ok(false)
    }

    /// Takes the Cheddy NFT out of `user`'s vault `v` at `round` and sends it
    /// to `receiver`; the counters may have moved on refusal.
    pub fn _withdraw_nft(&mut self, user: &String, v: &mut Vault, receiver: &String, round: u64) -> (r: Result<Action, Error>)
        requires
            old(self).wf(),
            old(self)@.vault_fits(old(v)@),
        ensures
            final(self).wf(),
            same_config(old(self)@, final(self)@),
            match old(self)@.withdraw_nft_spec(user@, old(v)@, receiver@, round) {
                Err(e) => r matches Err(x) && x == e,
                Ok((c, nv, a)) => r matches Ok(x) && x@ == a && final(self)@ == c && final(v)@ == nv,
            },
    {
        if v.cheddy.as_str().unicode_len() == 0 {
            return Err(Error::NoNft);
        }
        if !self.ping_all(v, round) {
            return Err(Error::ArithmeticOverflow);
        }
        let token_id = v.cheddy.clone();
        v.cheddy = String::new();
        if !self._recompute_stake(v) {
            return Err(Error::ArithmeticOverflow);
        }
        Ok(Action::WithdrawNft {
            user: user.clone(),
            receiver: receiver.clone(),
            nft_contract: self.cheddar_nft.clone(),
            token_id,
        })
    }

    /// Sends the caller's Cheddy NFT to `receiver_id`.
    pub fn withdraw_nft(&mut self, ctx: &CallContext, receiver_id: &String) -> (r: Result<Action, Error>)
        requires
            old(self).wf(),
        ensures
            final(self).wf(),
            match old(self)@.withdraw_nft_call_spec(ctx.predecessor@, receiver_id@, ctx.block_timestamp) {
                Err(e) => r matches Err(x) && x == e && final(self)@ == old(self)@,
                Ok((c, a)) => r matches Ok(x) && x@ == a && final(self)@ == c,
            },
    {
        let user = &ctx.predecessor;
        let mut v = match self.get_vault(user) {
            Err(e) => return Err(e),
            Ok(v) => v,
        };
        let round = self.current_round(ctx.block_timestamp);
        let saved = self.save();
        match self._withdraw_nft(user, &mut v, receiver_id, round) {
            Err(e) => {
                self.restore(saved);
                Err(e)
            },
            Ok(a) => {
                self.put_vault(user, v);
                Ok(a)
            },
        }
    }

    /// Records the setup deposit of `amount` of `token`. Refused when the token
    /// is not a farm token, was already deposited, or `amount` is not the
    /// expected deposit. An `Err` stands for a failed call (the call panics): nothing of it persists.
    pub fn _setup_deposit(&mut self, token: &String, amount: u128) -> (r: Result<(), Error>)
        requires
            old(self).wf(),
        ensures
            final(self).wf(),
            match old(self)@.setup_deposit_spec(token@, amount) {
                Err(e) => r == Err::<(), Error>(e) && final(self)@ == old(self)@,
                Ok(s) => r is Ok && final(self)@ == s,
            },
    {
        if self.setup_finalized {
            return Err(Error::SetupFinalized);
        }
        let token_i = match find_index(token, &self.farm_tokens) {
            None => return Err(Error::NotListed),
            Some(i) => i,
        };
        let expected = match self.expected_deposit(token_i) {
            None => return Err(Error::ArithmeticOverflow),
            Some(e) => e,
        };
        if self.farm_deposits[token_i] != 0 {
            return Err(Error::DepositDone);
        }
        if amount != expected {
            return Err(Error::WrongDeposit { expected });
        }
        self.farm_deposits.set(token_i, amount);
        Ok(())
    }

    /// Deposit of farm token `token_i` the farm needs for all its rounds.
    pub fn expected_deposit(&self, token_i: usize) -> (r: Option<u128>)
        requires
            self.wf(),
            token_i < self@.farm_tokens.len(),
        ensures
            r == self@.expected_deposit(token_i as int),
    {
        let total_rounds = crate::p3_lib::helpers::round_number(self.farming_start, self.farming_end, self.farming_end);
        let units = match (total_rounds as u128).checked_mul(self.farm_unit_emission) {
            None => return None,
            Some(u) => u,
        };
        checked_mul_div(units, self.farm_token_rates[token_i], E24)
    }

    /// Native NEAR setup deposit: the attached deposit.
    pub fn setup_deposit_near(&mut self, ctx: &CallContext) -> (r: Result<(), Error>)
        requires
            old(self).wf(),
        ensures
            final(self).wf(),
            match old(self)@.setup_deposit_spec(NEAR_TOKEN@, ctx.attached_deposit) {
                Err(e) => r == Err::<(), Error>(e) && final(self)@ == old(self)@,
                Ok(s) => r is Ok && final(self)@ == s,
            },
    {
        let near = String::from_str(NEAR_TOKEN);
        self._setup_deposit(&near, ctx.attached_deposit)
    }

    /// Stakes `amount` of `token` for `user` at `now`; returns the new units.
    pub fn _stake(&mut self, user: &String, token: &String, amount: u128, now: u64) -> (r: Result<u128, Error>)
        requires
            old(self).wf(),
        ensures
            final(self).wf(),
            match old(self)@.stake_spec(user@, token@, amount, now) {
                Err(e) => r == Err::<u128, Error>(e) && final(self)@ == old(self)@,
                Ok((s, units)) => r == Ok::<u128, Error>(units) && final(self)@ == s,
            },
    {
        if amount == 0 {
            return Err(Error::ZeroAmount);
        }
        let token_i = match find_index(token, &self.stake_tokens) {
            None => return Err(Error::NotListed),
            Some(i) => i,
        };
        let mut v = match self.get_vault(user) {
            Err(e) => return Err(e),
            Ok(v) => v,
        };
        let round = self.current_round(now);
        let saved = self.save();
        if !self.ping_all(&mut v, round) {
            self.restore(saved);
            return Err(Error::ArithmeticOverflow);
        }
        if amount > u128::MAX - v.staked[token_i] || amount > u128::MAX - self.total_stake[token_i] {
            self.restore(saved);
            return Err(Error::ArithmeticOverflow);
        }
        let s = v.staked[token_i] + amount;
        v.staked.set(token_i, s);
        let t = self.total_stake[token_i] + amount;
        self.total_stake.set(token_i, t);
        if !self._recompute_stake(&mut v) {
            self.restore(saved);
            return Err(Error::ArithmeticOverflow);
        }
        let units = v.min_stake;
        self.put_vault(user, v);
        Ok(units)
    }

    /// Stakes the attached NEAR.
    pub fn stake_near(&mut self, ctx: &CallContext) -> (r: Result<u128, Error>)
        requires
            old(self).wf(),
        ensures
            final(self).wf(),
            match old(self)@.stake_spec(ctx.predecessor@, NEAR_TOKEN@, ctx.attached_deposit, ctx.block_timestamp) {
                Err(e) => r == Err::<u128, Error>(e) && final(self)@ == old(self)@,
                Ok((s, units)) => r == Ok::<u128, Error>(units) && final(self)@ == s,
            },
    {
        let near = String::from_str(NEAR_TOKEN);
        self._stake(&ctx.predecessor, &near, ctx.attached_deposit, ctx.block_timestamp)
    }

    /// Unstakes everything and closes the caller's account. Requires 1 yoctoNEAR.
    #[verifier::spinoff_prover]
    #[verifier::rlimit(60)]
    pub fn close(&mut self, ctx: &CallContext) -> (r: Result<Vec<Action>, Error>)
        requires
            old(self).wf(),
        ensures
            final(self).wf(),
            match old(self)@.close_spec(ctx.predecessor@, ctx.attached_deposit, ctx.block_timestamp) {
                Err(e) => r matches Err(x) && x == e && final(self)@ == old(self)@,
                Ok((c, acts)) => r matches Ok(a) && actions_view(a@) == acts && final(self)@ == c,
            },
    {
        match self.assert_is_active() {
            Err(e) => return Err(e),
            Ok(_) => {},
        }
        if ctx.attached_deposit != 1 {
            return Err(Error::RequiresOneYocto);
        }
        let user = &ctx.predecessor;
        let mut v = match self.get_vault(user) {
            Err(e) => return Err(e),
            Ok(v) => v,
        };
        let round = self.current_round(ctx.block_timestamp);
        let saved = self.save();
        if !self.ping_all(&mut v, round) {
            self.restore(saved);
            return Err(Error::ArithmeticOverflow);
        }
        if v.is_empty() {
            self.drop_vault(user);
            let mut actions = Vec::new();
            actions.push(Action::TransferNear { receiver: user.clone(), amount: STORAGE_COST });
            proof {
                assert(actions_view(actions@) =~= seq![ActionView::TransferNear { receiver: user@, amount: STORAGE_COST }]);
            }
            return Ok(actions);
        }
        let s = match min_stake(&v.staked, &self.stake_rates) {
            None => {
                self.restore(saved);
                return Err(Error::ArithmeticOverflow);
            },
            Some(s) => s,
        };
        if self.staked_units < s {
            self.restore(saved);
            return Err(Error::ArithmeticOverflow);
        }
        self.staked_units = self.staked_units - s;
        let mut actions: Vec<Action> = Vec::new();
        if !self.transfer_all_staked(user, &v.staked, &mut actions) {
            self.restore(saved);
            return Err(Error::ArithmeticOverflow);
        }
        let ghost a1 = actions_view(actions@);
        if !self._withdraw_crop(user, v.farmed, &mut actions) {
            self.restore(saved);
            return Err(Error::ArithmeticOverflow);
        }
        let ghost a12 = actions_view(actions@);
        if v.cheddy.as_str().unicode_len() != 0 {
            let ghost before = actions@;
            match self._withdraw_nft(user, &mut v, user, round) {
                Err(e) => {
                    self.restore(saved);
                    return Err(e);
                },
                Ok(a) => {
                    actions.push(a);
                    proof {
                        assert(actions_view(actions@) =~= actions_view(before).push(actions@.last()@));
                    }
                },
            }
        }
        self.drop_vault(user);
        proof {
            assert(actions_view(actions@) =~= a1 + a12.subrange(a1.len() as int, a12.len() as int)
                + actions_view(actions@).subrange(a12.len() as int, actions_view(actions@).len() as int));
        }
        Ok(actions)
    }

    /// Unstakes `amount` of `token` and returns it to the caller (the fee kept
    /// back); unstaking everything staked closes the account. Returns what is
    /// left staked of the token. Requires 1 yoctoNEAR.
    #[verifier::spinoff_prover]
    #[verifier::rlimit(40)]
    pub fn unstake(&mut self, ctx: &CallContext, token: &String, amount: u128) -> (r: Result<(u128, Vec<Action>), Error>)
        requires
            old(self).wf(),
        ensures
            final(self).wf(),
            match old(self)@.unstake_spec(ctx.predecessor@, token@, ctx.attached_deposit, amount, ctx.block_timestamp) {
                Err(e) => r matches Err(x) && x == e && final(self)@ == old(self)@,
                Ok((c, left, acts)) => r matches Ok((l, a)) && l == left && actions_view(a@) == acts && final(self)@ == c,
            },
    {
        match self.assert_is_active() {
            Err(e) => return Err(e),
            Ok(_) => {},
        }
        if ctx.attached_deposit != 1 {
            return Err(Error::RequiresOneYocto);
        }
        let user = &ctx.predecessor;
        let token_i = match find_index(token, &self.stake_tokens) {
            None => return Err(Error::NotListed),
            Some(i) => i,
        };
        let mut v = match self.get_vault(user) {
            Err(e) => return Err(e),
            Ok(v) => v,
        };
        if amount > v.staked[token_i] {
            return Err(Error::NotEnoughStake);
        }
        let total = match checked_sum(&v.staked) {
            None => return Err(Error::ArithmeticOverflow),
            Some(t) => t,
        };
        if amount == total {
            return match self.close(ctx) {
                Err(e) => Err(e),
                Ok(actions) => Ok((0, actions)),
            };
        }
        let round = self.current_round(ctx.block_timestamp);
        let saved = self.save();
        if !self.ping_all(&mut v, round) {
            self.restore(saved);
            return Err(Error::ArithmeticOverflow);
        }
        let remaining = v.staked[token_i] - amount;
        v.staked.set(token_i, remaining);
        if !self._recompute_stake(&mut v) {
            self.restore(saved);
            return Err(Error::ArithmeticOverflow);
        }
        let mut actions = Vec::new();
        if !self.transfer_staked_tokens(user, token_i, amount, &mut actions) {
            self.restore(saved);
            return Err(Error::ArithmeticOverflow);
        }
        self.put_vault(user, v);
        proof {
            assert(actions_view(actions@) =~= Seq::<ActionView>::empty() + actions_view(actions@));
        }
        Ok((remaining, actions))
    }

    /// Pays out all farmed tokens of the caller; the account stays open.
    pub fn withdraw_crop(&mut self, ctx: &CallContext) -> (r: Result<Vec<Action>, Error>)
        requires
            old(self).wf(),
        ensures
            final(self).wf(),
            match old(self)@.withdraw_crop_call_spec(ctx.predecessor@, ctx.block_timestamp) {
                Err(e) => r matches Err(x) && x == e && final(self)@ == old(self)@,
                Ok((c, acts)) => r matches Ok(a) && actions_view(a@) == acts && final(self)@ == c,
            },
    {
        match self.assert_is_active() {
            Err(e) => return Err(e),
            Ok(_) => {},
        }
        let user = &ctx.predecessor;
        let mut v = match self.get_vault(user) {
            Err(e) => return Err(e),
            Ok(v) => v,
        };
        let round = self.current_round(ctx.block_timestamp);
        let ghost o = self@;
        let saved = self.save();
        let orig = v.clone_vault();
        if !self.ping_all(&mut v, round) {
            self.restore(saved);
            return Err(Error::ArithmeticOverflow);
        }
        let farmed_units = v.farmed;
        v.farmed = 0;
        self.put_vault(user, v);
        let mut actions = Vec::new();
        if !self._withdraw_crop(user, farmed_units, &mut actions) {
            self.put_vault(user, orig);
            self.restore(saved);
            proof {
                assert(self@.vaults =~= o.vaults);
            }
            return Err(Error::ArithmeticOverflow);
        }
        proof {
            assert(actions_view(actions@) =~= Seq::<ActionView>::empty() + actions_view(actions@));
        }
        Ok(actions)
    }

    /// Fees collected and not yet withdrawn, per stake token.
    pub fn get_collected_fee(&self) -> (r: Vec<u128>)
        ensures
            r@ == self@.fee_collected,
    {
        copy_amounts(&self.fee_collected)
    }

    /// Sends every nonzero collected fee to the treasury (memo "fee withdraw").
    pub fn withdraw_fees(&mut self) -> (r: Vec<Action>)
        requires
            old(self).wf(),
        ensures
            final(self).wf(),
            final(self)@ == (P3View { fee_collected: Seq::new(old(self)@.fee_collected.len(), |i: int| 0u128), ..old(self)@ }),
            r@.len() <= old(self)@.stake_tokens.len(),
            forall|k: int| 0 <= k < r@.len() ==> old(self)@.is_fee_withdrawal(#[trigger] r@[k]@),
    {
        let ghost o = self@;
        let mut actions: Vec<Action> = Vec::new();
        let mut i: usize = 0;
        while i < self.stake_tokens.len()
            invariant
                self.wf(),
                i <= o.stake_tokens.len(),
                self.stake_tokens@.len() == o.stake_tokens.len(),
                self@ == (P3View { fee_collected: self@.fee_collected, ..o }),
                self@.fee_collected.len() == o.fee_collected.len(),
                forall|j: int| 0 <= j < i ==> self@.fee_collected[j] == 0,
                forall|j: int| i <= j < o.fee_collected.len() ==> self@.fee_collected[j] == o.fee_collected[j],
                actions@.len() <= i,
                forall|k: int| 0 <= k < actions@.len() ==> o.is_fee_withdrawal(#[trigger] actions@[k]@),
            decreases o.stake_tokens.len() - i,
        {
            if self.fee_collected[i] != 0 {
                let ghost before = actions@;
                proof {
                    assert(names(self.stake_tokens@)[i as int] == self.stake_tokens@[i as int]@);
                }
                actions.push(Action::FtTransfer {
                    receiver: self.treasury.clone(),
                    token: self.stake_tokens[i].clone(),
                    amount: self.fee_collected[i],
                    memo: String::from_str("fee withdraw"),
                });
                let ghost prev = self@;
                self.fee_collected.set(i, 0);
                proof {
                    assert(self@ == (P3View { fee_collected: self@.fee_collected, ..prev }));
                    assert forall|a: Seq<char>| #[trigger] self@.vaults.contains_key(a) implies self@.vault_fits(self@.vaults[a]) by {
                        assert(prev.vaults.contains_key(a));
                    }
                    assert(self@.consistent());
                    assert(actions@[actions@.len() - 1] == actions@.last());
                    assert forall|k: int| 0 <= k < actions@.len() implies o.is_fee_withdrawal(#[trigger] actions@[k]@) by {
                        if k < before.len() {
                            assert(actions@[k] == before[k]);
                        } else {
                            assert(o.stake_tokens[i as int] == self.stake_tokens@[i as int]@);
                        }
                    }
                }
            }
            i = i + 1;
        }
        proof {
            assert(self@.fee_collected =~= Seq::new(o.fee_collected.len(), |i: int| 0u128));
        }
        actions
    }

    /// The owner opens or closes the farm.
    pub fn set_active(&mut self, ctx: &CallContext, is_open: bool) -> (r: Result<(), Error>)
        requires
            old(self).wf(),
        ensures
            final(self).wf(),
            ctx.predecessor@ != old(self)@.owner_id ==> r == Err::<(), Error>(Error::NotOwner) && final(self)@ == old(self)@,
            ctx.predecessor@ == old(self)@.owner_id ==> r is Ok && final(self)@ == (P3View { is_active: is_open, ..old(self)@ }),
    {
        if ctx.predecessor != self.owner_id {
            return Err(Error::NotOwner);
        }
        self.is_active = is_open;
        Ok(())
    }

    /// The owner moves the farming period; it must start in the future and
    /// end after it starts.
    pub fn set_start_end(&mut self, ctx: &CallContext, start: u64, end: u64) -> (r: Result<(), Error>)
        requires
            old(self).wf(),
        ensures
            final(self).wf(),
            ctx.predecessor@ != old(self)@.owner_id ==> r == Err::<(), Error>(Error::NotOwner) && final(self)@ == old(self)@,
            ctx.predecessor@ == old(self)@.owner_id && start <= ctx.block_timestamp / SECOND
                ==> r == Err::<(), Error>(Error::StartNotInFuture) && final(self)@ == old(self)@,
            ctx.predecessor@ == old(self)@.owner_id && start > ctx.block_timestamp / SECOND && start >= end
                ==> r == Err::<(), Error>(Error::EndNotAfterStart) && final(self)@ == old(self)@,
            r is Ok <==> ctx.predecessor@ == old(self)@.owner_id && start > ctx.block_timestamp / SECOND && start < end,
            r is Ok ==> final(self)@ == (P3View { farming_start: start, farming_end: end, ..old(self)@ }),
    {
        if ctx.predecessor != self.owner_id {
            return Err(Error::NotOwner);
        }
        if start <= ctx.block_timestamp / SECOND {
            return Err(Error::StartNotInFuture);
        }
        if start >= end {
            return Err(Error::EndNotAfterStart);
        }
        self.farming_start = start;
        self.farming_end = end;
        Ok(())
    }

    /// The owner withdraws `amount` of `token` to itself (memo
    /// "admin-withdrawing-back").
    pub fn admin_withdraw(&self, ctx: &CallContext, token: &String, amount: u128) -> (r: Result<Action, Error>)
        ensures
            ctx.predecessor@ != self@.owner_id ==> (r matches Err(e) && e == Error::NotOwner),
            ctx.predecessor@ == self@.owner_id ==> (r matches Ok(a) && a@ == ActionView::FtTransfer {
                receiver: self@.owner_id,
                token: token@,
                amount,
                memo: "admin-withdrawing-back"@,
            }),
    {
        if ctx.predecessor != self.owner_id {
            return Err(Error::NotOwner);
        }
        Ok(Action::FtTransfer {
            receiver: self.owner_id.clone(),
            token: token.clone(),
            amount,
            memo: String::from_str("admin-withdrawing-back"),
        })
    }

    /// Finalizes the setup once every farm deposit is done, at least one
    /// round before the farm starts.
    pub fn finalize_setup(&mut self, ctx: &CallContext) -> (r: Result<(), Error>)
        requires
            old(self).wf(),
        ensures
            final(self).wf(),
            ({
                let o = old(self)@;
                let now = ctx.block_timestamp / SECOND;
                if o.setup_finalized {
                    r == Err::<(), Error>(Error::SetupFinalized) && final(self)@ == o
                } else if o.farming_start < ROUND {
                    r == Err::<(), Error>(Error::ArithmeticOverflow) && final(self)@ == o
                } else if now >= o.farming_start - ROUND {
                    r == Err::<(), Error>(Error::TooLateToFinalize) && final(self)@ == o
                } else if exists|i: int| 0 <= i < o.farm_deposits.len() && o.farm_deposits[i] == 0 {
                    r == Err::<(), Error>(Error::DepositMissing) && final(self)@ == o
                } else {
                    r is Ok && final(self)@ == (P3View { setup_finalized: true, ..o })
                }
            }),
    {
        if self.setup_finalized {
            return Err(Error::SetupFinalized);
        }
        if self.farming_start < ROUND {
            return Err(Error::ArithmeticOverflow);
        }
        let now = ctx.block_timestamp / SECOND;
        if now >= self.farming_start - ROUND {
            return Err(Error::TooLateToFinalize);
        }
        let mut i: usize = 0;
        while i < self.farm_deposits.len()
            invariant
                self.wf(),
                self@ == old(self)@,
                !old(self)@.setup_finalized,
                old(self)@.farming_start >= ROUND,
                now == ctx.block_timestamp / SECOND,
                now < old(self)@.farming_start - ROUND,
                i <= self.farm_deposits@.len(),
                forall|j: int| 0 <= j < i ==> self.farm_deposits@[j] != 0,
            decreases self.farm_deposits@.len() - i,
        {
            if self.farm_deposits[i] == 0 {
                proof {
                    assert(old(self)@.farm_deposits[i as int] == 0);
                }
                return Err(Error::DepositMissing);
            }
            i = i + 1;
        }
        self.setup_finalized = true;
        Ok(())
    }

    /// The expected and the received farm deposits, per farm token.
    pub fn finalize_setup_expected(&self) -> (r: Result<(Vec<u128>, Vec<u128>), Error>)
        requires
            self.wf(),
        ensures
            (exists|i: int| 0 <= i < self@.farm_tokens.len() && self@.expected_deposit(i) is None) ==> (r matches Err(e) && e == Error::ArithmeticOverflow),
            !(exists|i: int| 0 <= i < self@.farm_tokens.len() && self@.expected_deposit(i) is None) ==> (r matches Ok((e, d))
                && e@.len() == self@.farm_tokens.len() && (forall|i: int| 0 <= i < e@.len() ==> Some(#[trigger] e@[i]) == self@.expected_deposit(i))
                && d@ == self@.farm_deposits),
    {
        let mut out: Vec<u128> = Vec::new();
        let mut i: usize = 0;
        while i < self.farm_token_rates.len()
            invariant
                self.wf(),
                i <= self@.farm_tokens.len(),
                out@.len() == i,
                forall|j: int| 0 <= j < i ==> Some(#[trigger] out@[j]) == self@.expected_deposit(j),
            decreases self@.farm_tokens.len() - i,
        {
            match self.expected_deposit(i) {
                None => return Err(Error::ArithmeticOverflow),
                Some(x) => out.push(x),
            }
            i = i + 1;
        }
        proof {
            assert forall|j: int| 0 <= j < self@.farm_tokens.len() implies self@.expected_deposit(j) is Some by {
                assert(Some(out@[j]) == self@.expected_deposit(j));
            }
        }
        Ok((out, copy_amounts(&self.farm_deposits)))
    }

    /// Puts back `amount` of stake token `token_i` (`is_staked`) or of
    /// harvested farm token `token_i` for `user` after a failed transfer.
    pub fn recover_state(&mut self, user: &String, is_staked: bool, token_i: usize, amount: u128) -> (r: bool)
        requires
            old(self).wf(),
            is_staked ==> token_i < old(self)@.stake_tokens.len(),
            !is_staked ==> token_i < old(self)@.farm_tokens.len(),
        ensures
            final(self).wf(),
            match old(self)@.recover_state_spec(user@, is_staked, token_i as int, amount) {
                None => !r && final(self)@ == old(self)@,
                Some(s) => r && final(self)@ == s,
            },
    {
        let saved = self.save();
        let mut v = match self.vaults.get(user) {
            Some(v) => v.clone_vault(),
            None => {
                if self.accounts_registered == u64::MAX {
                    return false;
                }
                self.accounts_registered = self.accounts_registered + 1;
                Vault::new(self.stake_tokens.len(), self.farm_tokens.len(), self.reward_acc)
            },
        };
        proof {
            assert(names(self.stake_tokens@).len() == self.stake_tokens@.len());
            assert(names(self.farm_tokens@).len() == self.farm_tokens@.len());
        }
        if is_staked {
            if amount > u128::MAX - v.staked[token_i] {
                self.restore(saved);
                return false;
            }
            let st = v.staked[token_i] + amount;
            v.staked.set(token_i, st);
            let s = match min_stake(&v.staked, &self.stake_rates) {
                None => {
                    self.restore(saved);
                    return false;
                },
                Some(s) => s,
            };
            if s < v.min_stake {
                self.restore(saved);
                return false;
            }
            let diff = s - v.min_stake;
            if diff > 0 {
                if diff > u128::MAX - self.staked_units {
                    self.restore(saved);
                    return false;
                }
                self.staked_units = self.staked_units + diff;
            }
        } else {
            if self.total_harvested[token_i] < amount {
                self.restore(saved);
                return false;
            }
            let h = self.total_harvested[token_i] - amount;
            self.total_harvested.set(token_i, h);
        }
        self.put_vault(user, v);
        true
    }

    /// After the return of unstaked tokens: the fee is collected on success;
    /// on failure the full amount is staked again for the user.
    pub fn transfer_staked_callback(&mut self, user: &String, token_i: usize, amount: u128, fee: u128, result: &PromiseResult) -> (r: Result<(), Error>)
        requires
            old(self).wf(),
            token_i < old(self)@.stake_tokens.len(),
        ensures
            final(self).wf(),
            ({
                let o = old(self)@;
                match *result {
                    PromiseResult::NotReady => r == Err::<(), Error>(Error::PromiseNotReady) && final(self)@ == o,
                    PromiseResult::Successful(_) => if o.fee_collected[token_i as int] + fee > u128::MAX {
                        r == Err::<(), Error>(Error::ArithmeticOverflow) && final(self)@ == o
                    } else {
                        r is Ok && final(self)@ == (P3View {
                            fee_collected: o.fee_collected.update(token_i as int, (o.fee_collected[token_i as int] + fee) as u128),
                            ..o
                        })
                    },
                    PromiseResult::Failed => if amount + fee > u128::MAX || o.total_stake[token_i as int] + amount + fee > u128::MAX {
                        r == Err::<(), Error>(Error::ArithmeticOverflow) && final(self)@ == o
                    } else {
                        match (P3View {
                            total_stake: o.total_stake.update(token_i as int, (o.total_stake[token_i as int] + amount + fee) as u128),
                            ..o
                        }).recover_state_spec(user@, true, token_i as int, (amount + fee) as u128) {
                            None => r == Err::<(), Error>(Error::ArithmeticOverflow) && final(self)@ == o,
                            Some(s) => r is Ok && final(self)@ == s,
                        }
                    },
                }
            }),
    {
        match result {
            PromiseResult::NotReady => Err(Error::PromiseNotReady),
            PromiseResult::Successful(_) => {
                if fee > u128::MAX - self.fee_collected[token_i] {
                    return Err(Error::ArithmeticOverflow);
                }
                let f = self.fee_collected[token_i] + fee;
                self.fee_collected.set(token_i, f);
                Ok(())
            },
            PromiseResult::Failed => {
                if fee > u128::MAX - amount {
                    return Err(Error::ArithmeticOverflow);
                }
                let full_amount = amount + fee;
                if full_amount > u128::MAX - self.total_stake[token_i] {
                    return Err(Error::ArithmeticOverflow);
                }
                let saved = self.save();
                let t = self.total_stake[token_i] + full_amount;
                self.total_stake.set(token_i, t);
                if !self.recover_state(user, true, token_i, full_amount) {
                    self.restore(saved);
                    return Err(Error::ArithmeticOverflow);
                }
                Ok(())
            },
        }
    }

    /// After the payout of farm token `token_i`: on failure the harvested
    /// total is reduced again.
    pub fn transfer_farmed_callback(&mut self, user: &String, token_i: usize, amount: u128, result: &PromiseResult) -> (r: Result<(), Error>)
        requires
            old(self).wf(),
            token_i < old(self)@.farm_tokens.len(),
        ensures
            final(self).wf(),
            *result is NotReady ==> r == Err::<(), Error>(Error::PromiseNotReady) && final(self)@ == old(self)@,
            *result is Successful ==> r is Ok && final(self)@ == old(self)@,
            *result is Failed ==> match old(self)@.recover_state_spec(user@, false, token_i as int, amount) {
                None => r == Err::<(), Error>(Error::ArithmeticOverflow) && final(self)@ == old(self)@,
                Some(s) => r is Ok && final(self)@ == s,
            },
    {
        match result {
            PromiseResult::NotReady => Err(Error::PromiseNotReady),
            PromiseResult::Successful(_) => Ok(()),
            PromiseResult::Failed => if self.recover_state(user, false, token_i, amount) {
                Ok(())
            } else {
                Err(Error::ArithmeticOverflow)
            },
        }
    }

    /// Receives `amount` of the calling token from `sender_id`: message
    /// "setup reward deposit" makes a setup deposit, anything else stakes.
    /// NEAR must come through `stake_near` or `setup_deposit_near`. Returns
    /// the refund (always 0).
    pub fn ft_on_transfer(&mut self, ctx: &CallContext, sender_id: &String, amount: u128, msg: &String) -> (r: Result<u128, Error>)
        requires
            old(self).wf(),
        ensures
            final(self).wf(),
            ({
                let o = old(self)@;
                if !o.is_active {
                    r == Err::<u128, Error>(Error::NotActive) && final(self)@ == o
                } else if ctx.predecessor@ == NEAR_TOKEN@ {
                    r == Err::<u128, Error>(Error::NearViaTransfer) && final(self)@ == o
                } else if amount == 0 {
                    r == Err::<u128, Error>(Error::ZeroAmount) && final(self)@ == o
                } else if msg@ == MSG_SETUP_DEPOSIT@ {
                    match o.setup_deposit_spec(ctx.predecessor@, amount) {
                        Err(e) => r == Err::<u128, Error>(e) && final(self)@ == o,
                        Ok(s) => r == Ok::<u128, Error>(0) && final(self)@ == s,
                    }
                } else if o.active_check() is Err {
                    r == Err::<u128, Error>(o.active_check()->Err_0) && final(self)@ == o
                } else {
                    match o.stake_spec(sender_id@, ctx.predecessor@, amount, ctx.block_timestamp) {
                        Err(e) => r == Err::<u128, Error>(e) && final(self)@ == o,
                        Ok((s, _)) => r == Ok::<u128, Error>(0) && final(self)@ == s,
                    }
                }
            }),
    {
        if !self.is_active {
            return Err(Error::NotActive);
        }
        if ctx.predecessor == String::from_str(NEAR_TOKEN) {
            return Err(Error::NearViaTransfer);
        }
        if amount == 0 {
            return Err(Error::ZeroAmount);
        }
        if *msg == String::from_str(MSG_SETUP_DEPOSIT) {
            match self._setup_deposit(&ctx.predecessor, amount) {
                Err(e) => Err(e),
                Ok(_) => Ok(0),
            }
        } else {
            match self.assert_is_active() {
                Err(e) => return Err(e),
                Ok(_) => {},
            }
            match self._stake(sender_id, &ctx.predecessor, amount, ctx.block_timestamp) {
                Err(e) => Err(e),
                Ok(_) => Ok(0),
            }
        }
    }

    /// Registers `account_id` (the caller when `None`) for the attached
    /// deposit, which must cover `STORAGE_COST`; the rest, or all of it for
    /// an account already registered, is refunded. Returns the storage
    /// balance and the refund.
    pub fn storage_deposit(&mut self, ctx: &CallContext, account_id: Option<String>) -> (r: Result<(StorageBalance, u128), Error>)
        requires
            old(self).wf(),
        ensures
            final(self).wf(),
            ({
                let o = old(self)@;
                let a = match account_id { Some(x) => x@, None => ctx.predecessor@ };
                let sb = StorageBalance { total: STORAGE_COST, available: 0 };
                if !o.is_active {
                    r == Err::<(StorageBalance, u128), Error>(Error::NotActive) && final(self)@ == o
                } else if o.vaults.contains_key(a) {
                    r == Ok::<(StorageBalance, u128), Error>((sb, ctx.attached_deposit)) && final(self)@ == o
                } else if ctx.attached_deposit < STORAGE_COST {
                    r == Err::<(StorageBalance, u128), Error>(Error::DepositBelowStorageCost) && final(self)@ == o
                } else if o.accounts_registered == u64::MAX {
                    r == Err::<(StorageBalance, u128), Error>(Error::ArithmeticOverflow) && final(self)@ == o
                } else {
                    r == Ok::<(StorageBalance, u128), Error>((sb, (ctx.attached_deposit - STORAGE_COST) as u128))
                        && final(self)@ == (P3View {
                            vaults: o.vaults.insert(a, new_vault_spec(o.stake_tokens.len(), o.farm_tokens.len(), o.reward_acc)),
                            accounts_registered: (o.accounts_registered + 1) as u64,
                            ..o
                        })
                }
            }),
    {
        if !self.is_active {
            return Err(Error::NotActive);
        }
        let a = match account_id {
            Some(x) => x,
            None => ctx.predecessor.clone(),
        };
        let sb = StorageBalance { total: STORAGE_COST, available: 0 };
        if self.vaults.contains_key(&a) {
            return Ok((sb, ctx.attached_deposit));
        }
        if ctx.attached_deposit < STORAGE_COST {
            return Err(Error::DepositBelowStorageCost);
        }
        if self.accounts_registered == u64::MAX {
            return Err(Error::ArithmeticOverflow);
        }
        self.create_account(&a);
        Ok((sb, ctx.attached_deposit - STORAGE_COST))
    }

    /// Storage cannot be withdrawn: close the account instead.
    pub fn storage_withdraw(&self) -> (r: Result<StorageBalance, Error>)
        ensures
            r == Err::<StorageBalance, Error>(Error::StorageWithdrawNotPossible),
    {
        Err(Error::StorageWithdrawNotPossible)
    }

    /// With `force` set, closes the caller's account (as `close`); otherwise
    /// does nothing.
    pub fn storage_unregister(&mut self, ctx: &CallContext, force: Option<bool>) -> (r: Result<(bool, Vec<Action>), Error>)
        requires
            old(self).wf(),
        ensures
            final(self).wf(),
            force != Some(true) ==> (r matches Ok((b, a)) && !b && a@.len() == 0 && final(self)@ == old(self)@),
            force == Some(true) ==> match old(self)@.close_spec(ctx.predecessor@, ctx.attached_deposit, ctx.block_timestamp) {
                Err(e) => r matches Err(x) && x == e && final(self)@ == old(self)@,
                Ok((c, acts)) => r matches Ok((b, a)) && b && actions_view(a@) == acts && final(self)@ == c,
            },
    {
        match force {
            Some(true) => match self.close(ctx) {
                Err(e) => Err(e),
                Ok(actions) => Ok((true, actions)),
            },
            _ => Ok((false, Vec::new())),
        }
    }

    /// Every account deposits exactly `STORAGE_COST`.
    pub fn storage_balance_bounds(&self) -> (r: StorageBalanceBounds)
        ensures
            r == (StorageBalanceBounds { min: STORAGE_COST, max: Some(STORAGE_COST) }),
    {
        StorageBalanceBounds { min: STORAGE_COST, max: Some(STORAGE_COST) }
    }

    /// Storage balance of `account_id`: `STORAGE_COST` when registered.
    pub fn storage_balance_of(&self, account_id: &String) -> (r: Option<StorageBalance>)
        requires
            self.wf(),
        ensures
            r == (if self@.vaults.contains_key(account_id@) {
                Some(StorageBalance { total: STORAGE_COST, available: 0 })
            } else {
                None::<StorageBalance>
            }),
    {
        if self.vaults.contains_key(account_id) {
            Some(StorageBalance { total: STORAGE_COST, available: 0 })
        } else {
            None
        }
    }
}

} // verus!
