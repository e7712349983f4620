//! The NFT farm's setup, owner calls, views and storage management.
use super::contract::{actions_view, names, Action, Contract};
use super::interfaces::{P4ContractParams, P4Status};
use super::spec::{ActionView, Error, P4View};
use super::vault::{copy_amounts, Vault, VaultView, vault_ping_spec};
use crate::account_map::AccountMap;
use crate::farming::next_reward_acc;
use crate::near::CallContext;
use crate::p3_lib::constants::{E24, ROUND, SECOND, STORAGE_COST};
use crate::p3_lib::helpers::safe_mul_spec;
use crate::storage::{StorageBalance, StorageBalanceBounds};
use crate::u256::checked_mul_div;
use vstd::prelude::*;

verus! {

/// A vector of `n` zeros.
pub fn zeros(n: usize) -> (r: Vec<u128>)
    ensures
        r@ == Seq::new(n as nat, |i: int| 0u128),
{
    let mut r: Vec<u128> = Vec::new();
    let mut i: usize = 0;
    while i < n
        invariant
            i <= n,
            r@ == Seq::new(i as nat, |j: int| 0u128),
        decreases n - i,
    {
        r.push(0);
        proof {
            assert(r@ =~= Seq::new((i + 1) as nat, |j: int| 0u128));
        }
        i = i + 1;
    }
    r
}

/// A copy of a list of account names.
pub fn copy_names(v: &Vec<String>) -> (r: Vec<String>)
    ensures
        names(r@) == names(v@),
{
    let r = v.clone();
    proof {
        assert(names(r@) =~= names(v@)) by {
            assert forall|k: int| 0 <= k < r@.len() implies names(r@)[k] == names(v@)[k] by {
                assert(cloned::<String>(v@[k], r@[k]));
            }
        }
    }
    r
}

/// `units * rate / 1e24` for each rate, `None` when one overflows.
pub fn farmed_per_token(units: u128, rates: &Vec<u128>) -> (r: Option<Vec<u128>>)
    ensures
        match r {
            Some(v) => v@.len() == rates@.len() && forall|i: int| 0 <= i < rates@.len() ==> #[trigger] v@[i] == safe_mul_spec(units, rates@[i]),
            None => exists|i: int| 0 <= i < rates@.len() && #[trigger] safe_mul_spec(units, rates@[i]) > u128::MAX,
        },
{
    let mut out: Vec<u128> = Vec::new();
    let mut i: usize = 0;
    while i < rates.len()
        invariant
            i <= rates@.len(),
            out@.len() == i,
            forall|j: int| 0 <= j < i ==> #[trigger] out@[j] == safe_mul_spec(units, rates@[j]),
        decreases rates@.len() - i,
    {
        match checked_mul_div(units, rates[i], E24) {
            None => {
                proof {
                    assert(safe_mul_spec(units, rates@[i as int]) > u128::MAX);
                }
                return None;
            },
            Some(x) => out.push(x),
        }
        i = i + 1;
    }
    Some(out)
}

impl P4View {
    /// The state of a new farm.
    pub open spec fn initial(
        owner_id: Seq<char>,
        stake_nft_tokens: Seq<Seq<char>>,
        stake_rates: Seq<u128>,
        farm_unit_emission: u128,
        farm_tokens: Seq<Seq<char>>,
        farm_token_rates: Seq<u128>,
        farming_start: u64,
        farming_end: u64,
        boost_nft_contracts: Seq<Seq<char>>,
        cheddy: Seq<char>,
        nft_boost: u32,
        cheddy_boost: u32,
        cheddar_rate: u128,
        cheddar: Seq<char>,
        treasury: Seq<char>,
    ) -> P4View {
        P4View {
            is_active: true,
            setup_finalized: false,
            owner_id,
            treasury,
            vaults: Map::empty(),
            stake_nft_tokens,
            staked_units: 0,
            stake_rates,
            farm_tokens,
            farm_token_rates,
            farm_unit_emission,
            farm_deposits: Seq::new(farm_tokens.len(), |i: int| 0u128),
            farming_start,
            farming_end,
            boost_nft_contracts,
            cheddy,
            total_boost: Seq::new(boost_nft_contracts.len(), |i: int| 0u128),
            nft_boost,
            cheddy_boost,
            total_harvested: Seq::new(farm_tokens.len(), |i: int| 0u128),
            reward_acc: 0,
            reward_acc_round: 0,
            total_stake: Seq::new(stake_nft_tokens.len(), |i: int| 0u128),
            total_cheddar_stake: 0,
            accounts_registered: 0,
            cheddar_rate,
            cheddar,
        }
    }

    /// The vault of `a` as `status` shows it at `now`: pinged with the
    /// accumulator of the current round; `None` when that overflows.
    pub open spec fn status_vault(self, a: Seq<char>, now: u64) -> Option<VaultView> {
        match next_reward_acc(self.reward_acc, self.reward_acc_round, self.farm_unit_emission, self.staked_units, self.round_at(now)) {
            None => None,
            Some(acc) => vault_ping_spec(self.vaults[a], acc, self.round_at(now)),
        }
    }

    /// Start (seconds) of the round `status` reports at `now`.
    pub open spec fn status_timestamp(self, now: u64) -> int {
        self.farming_start + (if self.round_at(now) > 1 { self.round_at(now) - 1 } else { 0 }) * ROUND
    }
}

impl Contract {
    /// Initializes the farm at block time `now` (nanoseconds). The farm starts
    /// inactive for staking until the farm deposits are made and the setup is
    /// finalized. Rates are given times 1e24.
    pub fn new(
        now: u64,
        owner_id: String,
        stake_nft_tokens: Vec<String>,
        stake_rates: Vec<u128>,
        farm_unit_emission: u128,
        farm_tokens: Vec<String>,
        farm_token_rates: Vec<u128>,
        farming_start: u64,
        farming_end: u64,
        boost_nft_contracts: Vec<String>,
        cheddy: String,
        nft_boost: u32,
        cheddy_boost: u32,
        cheddar_rate: u128,
        cheddar: String,
        treasury: String,
    ) -> (r: Result<Contract, Error>)
        ensures
            farming_start <= now / SECOND ==> (r matches Err(e) && e == Error::StartNotInFuture),
            farming_start > now / SECOND && farming_end <= farming_start ==> (r matches Err(e) && e == Error::EndNotAfterStart),
            farming_start > now / SECOND && farming_end > farming_start && cheddar_rate == 0
                ==> (r matches Err(e) && e == Error::ZeroCheddarRate),
            farming_start > now / SECOND && farming_end > farming_start && cheddar_rate > 0
                && farm_token_rates@.len() != farm_tokens@.len() ==> (r matches Err(e) && e == Error::FarmVectorLength),
            farming_start > now / SECOND && farming_end > farming_start && cheddar_rate > 0
                && farm_token_rates@.len() == farm_tokens@.len() && stake_rates@.len() != stake_nft_tokens@.len()
                ==> (r matches Err(e) && e == Error::StakeVectorLength),
            r is Ok <==> farming_start > now / SECOND && farming_end > farming_start && cheddar_rate > 0
                && farm_token_rates@.len() == farm_tokens@.len() && stake_rates@.len() == stake_nft_tokens@.len(),
            r matches Ok(c) ==> c.wf() && c@ == P4View::initial(
                owner_id@, names(stake_nft_tokens@), stake_rates@, farm_unit_emission, names(farm_tokens@),
                farm_token_rates@, farming_start, farming_end, names(boost_nft_contracts@), cheddy@, nft_boost,
                cheddy_boost, cheddar_rate, cheddar@, treasury@,
            ),
    {
        if farming_start <= now / SECOND {
            return Err(Error::StartNotInFuture);
        }
        if farming_end <= farming_start {
            return Err(Error::EndNotAfterStart);
        }
        if cheddar_rate == 0 {
            return Err(Error::ZeroCheddarRate);
        }
        let stake_len = stake_nft_tokens.len();
        let farm_len = farm_tokens.len();
        let boost_len = boost_nft_contracts.len();
        let c = Contract {
            is_active: true,
            setup_finalized: false,
            owner_id,
            treasury,
            vaults: AccountMap::new(),
            stake_nft_tokens,
            staked_units: 0,
            stake_rates,
            farm_tokens,
            farm_token_rates,
            farm_unit_emission,
            farm_deposits: zeros(farm_len),
            farming_start,
            farming_end,
            boost_nft_contracts,
            cheddy,
            total_boost: zeros(boost_len),
            nft_boost,
            cheddy_boost,
            total_harvested: zeros(farm_len),
            reward_acc: 0,
            reward_acc_round: 0,
            total_stake: zeros(stake_len),
            total_cheddar_stake: 0,
            accounts_registered: 0,
            cheddar_rate,
            cheddar,
        };
        match c.check_vectors() {
            Err(e) => Err(e),
            Ok(_) => Ok(c),
        }
    }

    /// Checks that the vectors of the farm tokens and of the staked NFT
    /// collections agree in length.
    pub fn check_vectors(&self) -> (r: Result<(), Error>)
        ensures
            self.farm_token_rates@.len() != self.farm_tokens@.len() || self.total_harvested@.len() != self.farm_tokens@.len()
                || self.farm_deposits@.len() != self.farm_tokens@.len() ==> r == Err::<(), Error>(Error::FarmVectorLength),
            self.farm_token_rates@.len() == self.farm_tokens@.len() && self.total_harvested@.len() == self.farm_tokens@.len()
                && self.farm_deposits@.len() == self.farm_tokens@.len()
                && (self.stake_rates@.len() != self.stake_nft_tokens@.len() || self.total_stake@.len() != self.stake_nft_tokens@.len())
                ==> r == Err::<(), Error>(Error::StakeVectorLength),
            r is Ok <==> self.farm_token_rates@.len() == self.farm_tokens@.len() && self.total_harvested@.len() == self.farm_tokens@.len()
                && self.farm_deposits@.len() == self.farm_tokens@.len() && self.stake_rates@.len() == self.stake_nft_tokens@.len()
                && self.total_stake@.len() == self.stake_nft_tokens@.len() && self.total_boost@.len() == self.boost_nft_contracts@.len(),
            r is Err ==> r != Ok::<(), Error>(()),
    {
        let fl = self.farm_tokens.len();
        let sl = self.stake_nft_tokens.len();
        let bl = self.boost_nft_contracts.len();
        if !(fl == self.farm_token_rates.len() && fl == self.total_harvested.len() && fl == self.farm_deposits.len()) {
            return Err(Error::FarmVectorLength);
        }
        if !(sl == self.stake_rates.len() && sl == self.total_stake.len()) {
            return Err(Error::StakeVectorLength);
        }
        if bl != self.total_boost.len() {
            return Err(Error::BoostVectorLength);
        }
        Ok(())
    }

    /// Farm parameters and totals.
    pub fn get_contract_params(&self) -> (r: P4ContractParams)
        ensures
            r.is_active == self@.is_active,
            r.owner_id@ == self@.owner_id,
            names(r.stake_tokens@) == self@.stake_nft_tokens,
            r.stake_rates@ == self@.stake_rates,
            r.farm_unit_emission == self@.farm_unit_emission,
            names(r.farm_tokens@) == self@.farm_tokens,
            r.farm_token_rates@ == self@.farm_token_rates,
            r.farm_deposits@ == self@.farm_deposits,
            r.farming_start == self@.farming_start,
            r.farming_end == self@.farming_end,
            names(r.boost_nft_contracts@) == self@.boost_nft_contracts,
            r.total_staked@ == self@.total_stake,
            r.total_farmed@ == self@.total_harvested,
            r.total_boost@ == self@.total_boost,
            r.fee_rate == 0,
            r.accounts_registered == self@.accounts_registered,
            r.cheddar_rate == self@.cheddar_rate,
            r.cheddar@ == self@.cheddar,
    {
        P4ContractParams {
            is_active: self.is_active,
            owner_id: self.owner_id.clone(),
            stake_tokens: copy_names(&self.stake_nft_tokens),
            stake_rates: copy_amounts(&self.stake_rates),
            farm_unit_emission: self.farm_unit_emission,
            farm_tokens: copy_names(&self.farm_tokens),
            farm_token_rates: copy_amounts(&self.farm_token_rates),
            farm_deposits: copy_amounts(&self.farm_deposits),
            farming_start: self.farming_start,
            farming_end: self.farming_end,
            boost_nft_contracts: copy_names(&self.boost_nft_contracts),
            total_staked: copy_amounts(&self.total_stake),
            total_farmed: copy_amounts(&self.total_harvested),
            total_boost: copy_amounts(&self.total_boost),
            fee_rate: 0,
            accounts_registered: self.accounts_registered,
            cheddar_rate: self.cheddar_rate,
            cheddar: self.cheddar.clone(),
        }
    }

    /// Farming status of `account_id` at block time `now`: its vault pinged
    /// with the current round. `Ok(None)` for an unregistered account.
    pub fn status(&self, account_id: &String, now: u64) -> (r: Result<Option<P4Status>, Error>)
        requires
            self.wf(),
        ensures
            !self@.vaults.contains_key(account_id@) ==> (r matches Ok(None)),
            self@.vaults.contains_key(account_id@) ==> match self@.status_vault(account_id@, now) {
                None => r matches Err(e) && e == Error::ArithmeticOverflow,
                Some(v) => if exists|i: int| 0 <= i < self@.farm_token_rates.len() && #[trigger] safe_mul_spec(v.farmed, self@.farm_token_rates[i]) > u128::MAX {
                    r matches Err(e) && e == Error::ArithmeticOverflow
                } else if self@.status_timestamp(now) > u64::MAX {
                    r matches Err(e) && e == Error::ArithmeticOverflow
                } else {
                    r matches Ok(Some(st)) && st.stake_tokens@.map_values(|t: Vec<String>| names(t@)) == v.staked
                        && st.stake == v.min_stake && st.farmed_units == v.farmed
                        && st.farmed_tokens@.len() == self@.farm_token_rates.len()
                        && (forall|i: int| 0 <= i < self@.farm_token_rates.len() ==> #[trigger] st.farmed_tokens@[i] == safe_mul_spec(v.farmed, self@.farm_token_rates[i]))
                        && st.boost_nfts@ == v.boost_nft && st.timestamp == self@.status_timestamp(now)
                        && st.total_cheddar_staked == v.cheddar_staked
                },
            },
    {
        let mut v = match self.vaults.get(account_id) {
            None => return Ok(None),
            Some(v) => v.clone_vault(),
        };
        let ghost v0 = v@;
        assert(v0 == self@.vaults[account_id@]);
        let r = self.current_round(now);
        let acc = match self.compute_reward_acc(r) {
            None => return Err(Error::ArithmeticOverflow),
            Some(a) => a,
        };
        if !v.ping(acc, r) {
            return Err(Error::ArithmeticOverflow);
        }
        assert(self@.status_vault(account_id@, now) == Some(v@));
        let r0: u64 = if r > 1 { r - 1 } else { 0 };
        let farmed = match farmed_per_token(v.farmed, &self.farm_token_rates) {
            None => {
                proof {
                    let i = choose|i: int| 0 <= i < self.farm_token_rates@.len() && #[trigger] safe_mul_spec(v.farmed, self.farm_token_rates@[i]) > u128::MAX;
                    assert(safe_mul_spec(v@.farmed, self@.farm_token_rates[i]) > u128::MAX);
                }
                return Err(Error::ArithmeticOverflow);
            },
            Some(f) => f,
        };
        let ts = match r0.checked_mul(ROUND) {
            None => return Err(Error::ArithmeticOverflow),
            Some(x) => match self.farming_start.checked_add(x) {
                None => return Err(Error::ArithmeticOverflow),
                Some(t) => t,
            },
        };
        proof {
            assert(v@.staked =~= v.staked@.map_values(|t: Vec<String>| names(t@))) by {
                assert forall|k: int| 0 <= k < v.staked@.len() implies v@.staked[k] == names(v.staked@[k]@) by {
                    assert(v@.staked[k] == v.staked@[k]@.map_values(|s: String| s@));
                    assert(names(v.staked@[k]@) =~= v.staked@[k]@.map_values(|s: String| s@));
                }
            }
            assert(ts == self@.status_timestamp(now));
            assert(farmed@.len() == self@.farm_token_rates.len());
            assert(forall|i: int| 0 <= i < self@.farm_token_rates.len() ==> #[trigger] farmed@[i] == safe_mul_spec(v@.farmed, self@.farm_token_rates[i]));
            assert(v.boost_nft@ == v@.boost_nft);
            if exists|i: int| 0 <= i < self@.farm_token_rates.len() && #[trigger] safe_mul_spec(v@.farmed, self@.farm_token_rates[i]) > u128::MAX {
                let i = choose|i: int| 0 <= i < self@.farm_token_rates.len() && #[trigger] safe_mul_spec(v@.farmed, self@.farm_token_rates[i]) > u128::MAX;
                assert(farmed@[i] == safe_mul_spec(v@.farmed, self@.farm_token_rates[i]));
            }
        }
        Ok(Some(P4Status {
            stake_tokens: v.staked,
            stake: v.min_stake,
            farmed_units: v.farmed,
            farmed_tokens: farmed,
            boost_nfts: v.boost_nft,
            timestamp: ts,
            total_cheddar_staked: v.cheddar_staked,
        }))
    }

    /// The owner opens or closes the farm.
    pub fn set_active(&mut self, ctx: &CallContext, is_open: bool) -> (r: Result<(), Error>)
        requires
            old(self).wf(),
        ensures
            final(self).wf(),
            ctx.predecessor@ != old(self)@.owner_id ==> r == Err::<(), Error>(Error::NotOwner) && final(self)@ == old(self)@,
            ctx.predecessor@ == old(self)@.owner_id ==> r is Ok && final(self)@ == (P4View { is_active: is_open, ..old(self)@ }),
    {
        if ctx.predecessor != self.owner_id {
            return Err(Error::NotOwner);
        }
        self.is_active = is_open;
        Ok(())
    }

    /// The owner moves the farming period (unix seconds); it must start in
    /// the future and end after it starts.
    pub fn set_start_end(&mut self, ctx: &CallContext, start: u64, end: u64) -> (r: Result<(), Error>)
        requires
            old(self).wf(),
        ensures
            final(self).wf(),
            ctx.predecessor@ != old(self)@.owner_id ==> r == Err::<(), Error>(Error::NotOwner) && final(self)@ == old(self)@,
            ctx.predecessor@ == old(self)@.owner_id && start <= ctx.block_timestamp / SECOND
                ==> r == Err::<(), Error>(Error::StartNotInFuture) && final(self)@ == old(self)@,
            ctx.predecessor@ == old(self)@.owner_id && start > ctx.block_timestamp / SECOND && start >= end
                ==> r == Err::<(), Error>(Error::EndNotAfterStart) && final(self)@ == old(self)@,
            r is Ok <==> ctx.predecessor@ == old(self)@.owner_id && start > ctx.block_timestamp / SECOND && start < end,
            r is Ok ==> final(self)@ == (P4View { farming_start: start, farming_end: end, ..old(self)@ }),
    {
        if ctx.predecessor != self.owner_id {
            return Err(Error::NotOwner);
        }
        if start <= ctx.block_timestamp / SECOND {
            return Err(Error::StartNotInFuture);
        }
        if start >= end {
            return Err(Error::EndNotAfterStart);
        }
        self.farming_start = start;
        self.farming_end = end;
        Ok(())
    }

    /// Finalizes the setup once every farm deposit is done, at least one
    /// round before the farm starts.
    pub fn finalize_setup(&mut self, ctx: &CallContext) -> (r: Result<(), Error>)
        requires
            old(self).wf(),
        ensures
            final(self).wf(),
            ({
                let o = old(self)@;
                let now = ctx.block_timestamp / SECOND;
                if o.setup_finalized {
                    r == Err::<(), Error>(Error::SetupFinalized) && final(self)@ == o
                } else if o.farming_start < ROUND {
                    r == Err::<(), Error>(Error::ArithmeticOverflow) && final(self)@ == o
                } else if now >= o.farming_start - ROUND {
                    r == Err::<(), Error>(Error::TooLateToFinalize) && final(self)@ == o
                } else if exists|i: int| 0 <= i < o.farm_deposits.len() && o.farm_deposits[i] == 0 {
                    r == Err::<(), Error>(Error::DepositMissing) && final(self)@ == o
                } else {
                    r is Ok && final(self)@ == (P4View { setup_finalized: true, ..o })
                }
            }),
    {
        if self.setup_finalized {
            return Err(Error::SetupFinalized);
        }
        if self.farming_start < ROUND {
            return Err(Error::ArithmeticOverflow);
        }
        let now = ctx.block_timestamp / SECOND;
        if now >= self.farming_start - ROUND {
            return Err(Error::TooLateToFinalize);
        }
        let mut i: usize = 0;
        while i < self.farm_deposits.len()
            invariant
                self.wf(),
                self@ == old(self)@,
                !old(self)@.setup_finalized,
                old(self)@.farming_start >= ROUND,
                now == ctx.block_timestamp / SECOND,
                now < old(self)@.farming_start - ROUND,
                i <= self.farm_deposits@.len(),
                forall|j: int| 0 <= j < i ==> self.farm_deposits@[j] != 0,
            decreases self.farm_deposits@.len() - i,
        {
            if self.farm_deposits[i] == 0 {
                proof {
                    assert(old(self)@.farm_deposits[i as int] == 0);
                }
                return Err(Error::DepositMissing);
            }
            i = i + 1;
        }
        self.setup_finalized = true;
        Ok(())
    }

    /// The expected and the received farm deposits, per farm token.
    pub fn finalize_setup_expected(&self) -> (r: Result<(Vec<u128>, Vec<u128>), Error>)
        requires
            self.wf(),
        ensures
            (exists|i: int| 0 <= i < self@.farm_tokens.len() && self@.expected_deposit(i) is None) ==> (r matches Err(e) && e == Error::ArithmeticOverflow),
            !(exists|i: int| 0 <= i < self@.farm_tokens.len() && self@.expected_deposit(i) is None) ==> (r matches Ok((e, d))
                && e@.len() == self@.farm_tokens.len() && (forall|i: int| 0 <= i < e@.len() ==> Some(#[trigger] e@[i]) == self@.expected_deposit(i))
                && d@ == self@.farm_deposits),
    {
        let mut out: Vec<u128> = Vec::new();
        let mut i: usize = 0;
        while i < self.farm_token_rates.len()
            invariant
                self.wf(),
                i <= self@.farm_tokens.len(),
                out@.len() == i,
                forall|j: int| 0 <= j < i ==> Some(#[trigger] out@[j]) == self@.expected_deposit(j),
            decreases self@.farm_tokens.len() - i,
        {
            match self.expected_deposit(i) {
                None => return Err(Error::ArithmeticOverflow),
                Some(x) => out.push(x),
            }
            i = i + 1;
        }
        proof {
            assert forall|j: int| 0 <= j < self@.farm_tokens.len() implies self@.expected_deposit(j) is Some by {
                assert(Some(out@[j]) == self@.expected_deposit(j));
            }
        }
        Ok((out, copy_amounts(&self.farm_deposits)))
    }

    /// Registers `account_id` (the caller when `None`) for the attached
    /// deposit, which must cover `STORAGE_COST`; the rest, or all of it for
    /// an account already registered, is refunded to the caller. Returns the
    /// storage balance and the refund.
    pub fn storage_deposit(&mut self, ctx: &CallContext, account_id: Option<String>) -> (r: Result<(StorageBalance, u128), Error>)
        requires
            old(self).wf(),
        ensures
            final(self).wf(),
            ({
                let o = old(self)@;
                let a = match account_id { Some(x) => x@, None => ctx.predecessor@ };
                let sb = StorageBalance { total: STORAGE_COST, available: 0 };
                if o.vaults.contains_key(a) {
                    r == Ok::<(StorageBalance, u128), Error>((sb, ctx.attached_deposit)) && final(self)@ == o
                } else if ctx.attached_deposit < STORAGE_COST {
                    r == Err::<(StorageBalance, u128), Error>(Error::DepositBelowStorageCost) && final(self)@ == o
                } else if o.accounts_registered == u64::MAX {
                    r == Err::<(StorageBalance, u128), Error>(Error::ArithmeticOverflow) && final(self)@ == o
                } else {
                    r == Ok::<(StorageBalance, u128), Error>((sb, (ctx.attached_deposit - STORAGE_COST) as u128))
                        && final(self)@ == (P4View {
                            vaults: o.vaults.insert(a, o.fresh_vault()),
                            accounts_registered: (o.accounts_registered + 1) as u64,
                            ..o
                        })
                }
            }),
    {
        let a = match account_id {
            Some(x) => x,
            None => ctx.predecessor.clone(),
        };
        let sb = StorageBalance { total: STORAGE_COST, available: 0 };
        if self.vaults.contains_key(&a) {
            return Ok((sb, ctx.attached_deposit));
        }
        if ctx.attached_deposit < STORAGE_COST {
            return Err(Error::DepositBelowStorageCost);
        }
        if !self.create_account(&a) {
            return Err(Error::ArithmeticOverflow);
        }
        Ok((sb, ctx.attached_deposit - STORAGE_COST))
    }

    /// Storage cannot be withdrawn: close the account instead.
    pub fn storage_withdraw(&self) -> (r: Result<StorageBalance, Error>)
        ensures
            r == Err::<StorageBalance, Error>(Error::StorageWithdrawNotPossible),
    {
        Err(Error::StorageWithdrawNotPossible)
    }

    /// With `force` set, closes the caller's account (as `close`); otherwise
    /// does nothing. Returns whether the account was closed, and the actions.
    /// Requires 1 yoctoNEAR.
    pub fn storage_unregister(&mut self, ctx: &CallContext, force: Option<bool>) -> (r: Result<(bool, Vec<Action>), Error>)
        requires
            old(self).wf(),
        ensures
            final(self).wf(),
            ctx.attached_deposit != 1 ==> (r matches Err(e) && e == Error::RequiresOneYocto && final(self)@ == old(self)@),
            ctx.attached_deposit == 1 && force != Some(true) ==> (r matches Ok((b, a)) && !b && a@.len() == 0 && final(self)@ == old(self)@),
            ctx.attached_deposit == 1 && force == Some(true) ==> match old(self)@.close_spec(ctx.predecessor@, ctx.attached_deposit, ctx.block_timestamp) {
                Err(e) => r matches Err(x) && x == e && final(self)@ == old(self)@,
                Ok((c, acts)) => r matches Ok((b, a)) && b && actions_view(a@) == acts && final(self)@ == c,
            },
    {
        if ctx.attached_deposit != 1 {
            return Err(Error::RequiresOneYocto);
        }
        match force {
            Some(true) => match self.close(ctx) {
                Err(e) => Err(e),
                Ok(actions) => Ok((true, actions)),
            },
            _ => Ok((false, Vec::new())),
        }
    }

    /// Every account deposits exactly `STORAGE_COST`.
    pub fn storage_balance_bounds(&self) -> (r: StorageBalanceBounds)
        ensures
            r == (StorageBalanceBounds { min: STORAGE_COST, max: Some(STORAGE_COST) }),
    {
        StorageBalanceBounds { min: STORAGE_COST, max: Some(STORAGE_COST) }
    }

    /// Storage balance of `account_id`: `STORAGE_COST` when registered.
    pub fn storage_balance_of(&self, account_id: &String) -> (r: Option<StorageBalance>)
        requires
            self.wf(),
        ensures
            r == (if self@.vaults.contains_key(account_id@) {
                Some(StorageBalance { total: STORAGE_COST, available: 0 })
            } else {
                None::<StorageBalance>
            }),
    {
        if self.vaults.contains_key(account_id) {
            Some(StorageBalance { total: STORAGE_COST, available: 0 })
        } else {
            None
        }
    }
}

} // verus!
