//! xCheddar: users lock Cheddar and receive xCheddar at the price
//! `P = locked Cheddar / xCheddar supply`; rewards added to the contract are
//! released into the locked amount month by month, which raises `P`.
pub mod utils;

use crate::account_map::AccountMap;
use crate::cheddar_coin::metadata::{FtMetadata, FT_METADATA_SPEC};
use crate::near::{is_valid_account_id, spec_valid_account_id, storage_byte_cost, CallContext, PromiseResult, STORAGE_PRICE_PER_BYTE};
use crate::storage::{StorageBalance, StorageBalanceBounds};
use crate::u256::{checked_mul_div, mul_div_spec};
use utils::{nano_to_sec, DURATION_30DAYS_IN_SEC, ONE_CHEDDAR, PRICE_DECIMALS};
use vstd::prelude::*;
use vstd::string::{StrSliceExecFns, StringExecFns};

verus! {

/// Version reported by `contract_metadata`.
pub const VERSION: &'static str = "1.0.2";

/// The message of a transfer that stakes.
pub const MSG_DEPOSIT: &'static str = "";
/// The message of a transfer that adds rewards.
pub const MSG_REWARD: &'static str = "reward";

/// Why a call is refused. A refused call fails as a whole (on chain it
/// panics): calls return the reason and leave the state as it was.
#[derive(Clone, Copy, PartialEq, Eq, Debug)]
pub enum Error {
    /// "Owner's method"
    NotAllowed,
    /// "The account ... is not registered"
    NotRegistered,
    /// "Amount of locked token must be greater than 0"
    Internal,
    /// "Stake more than 0 tokens"
    StakeTooSmall,
    /// "Total supply cannot be empty!"
    EmptyTotalSupply,
    /// "At least 1 Cheddar must be on lockup contract account"
    KeepAtLeastOneXCheddar,
    /// "Only Cheddar tokrn contract may calls this lockup contract"
    MismatchToken,
    /// "Expected 1 promise result"
    PromiseResult,
    /// "Used reward_genesis_time_in_sec must be less than current time!"
    ResetTimeIsPastTime,
    /// "Setting in contract Genesis time must be less than current time!"
    RewardGenesisTimePassed,
    /// "Requires attached deposit of exactly 1 yoctoNEAR"
    RequiresOneYocto,
    /// "The account doesn't have enough balance"
    NotEnoughBalance,
    /// "Sender and receiver should be different"
    SameAccount,
    /// "The amount should be a positive number"
    ZeroAmount,
    /// "Account ... is invalid!"
    InvalidAccount,
    /// "The attached deposit is less than the minimum storage balance"
    DepositBelowMinimum,
    /// "The amount is greater than the available storage balance"
    StorageWithdrawTooLarge,
    /// "Can't unregister the account with the positive balance without force"
    PositiveBalance,
    /// an arithmetic operation overflowed
    ArithmeticOverflow,
}

/// What a Cheddar transfer to the lockup is for, read from its message.
pub enum TransferInstruction {
    /// "": stake the Cheddar
    Deposit,
    /// "reward": add the Cheddar to the rewards
    Reward,
    /// any other message
    Unknown,
}

impl TransferInstruction {
    /// The instruction a message stands for.
    pub open spec fn of_msg(msg: Seq<char>) -> TransferInstruction {
        if msg == MSG_DEPOSIT@ {
            TransferInstruction::Deposit
        } else if msg == MSG_REWARD@ {
            TransferInstruction::Reward
        } else {
            TransferInstruction::Unknown
        }
    }
}

impl From<String> for TransferInstruction {
    fn from(msg: String) -> (r: Self) {
        if msg == String::from_str(MSG_DEPOSIT) {
            TransferInstruction::Deposit
        } else if msg == String::from_str(MSG_REWARD) {
            TransferInstruction::Reward
        } else {
            TransferInstruction::Unknown
        }
    }
}

impl vstd::std_specs::convert::FromSpecImpl<String> for TransferInstruction {
    open spec fn obeys_from_spec() -> bool {
        true
    }

    open spec fn from_spec(msg: String) -> Self {
        TransferInstruction::of_msg(msg@)
    }
}

/// Transfer of unlocked Cheddar back to an unstaking user: `ft_transfer` of
/// `amount` on the locked token, then `callback_post_unstake(user, amount, share)`.
pub struct UnstakeTransfer {
    pub user: String,
    pub amount: u128,
    pub share: u128,
}

/// Contract parameters and totals.
pub struct ContractMetadata {
    pub version: String,
    pub owner_id: String,
    pub locked_token: String,
    /// at `prev_distribution_time`, the reward not yet distributed
    pub undistributed_reward: u128,
    /// at `prev_distribution_time`, the locked amount
    pub locked_token_amount: u128,
    /// at call time, the reward not yet distributed
    pub cur_undistributed_reward: u128,
    /// at call time, the locked amount
    pub cur_locked_token_amount: u128,
    /// xCheddar supply
    pub supply: u128,
    pub prev_distribution_time_in_sec: u32,
    pub reward_genesis_time_in_sec: u32,
    /// reward released per 30 days
    pub monthly_reward: u128,
    /// number of registered accounts
    pub account_number: u64,
}

/// `ContractMetadata` with amounts in whole tokens (rounded).
pub struct ContractMetadataHumanReadable {
    pub version: String,
    pub owner_id: String,
    pub locked_token: String,
    pub undistributed_reward: u128,
    pub locked_token_amount: u128,
    pub cur_undistributed_reward: u128,
    pub cur_locked_token_amount: u128,
    pub supply: u128,
    pub prev_distribution_time_in_sec: u32,
    pub reward_genesis_time_in_sec: u32,
    pub monthly_reward: u128,
    pub account_number: u64,
}

pub struct Contract {
    /// xCheddar balances of registered accounts
    pub accounts: AccountMap<u128>,
    /// xCheddar supply
    pub total_supply: u128,
    /// storage bytes one account takes
    pub account_storage_usage: u64,
    pub owner_id: String,
    pub locked_token: String,
    /// deposited reward not yet distributed to the locked Cheddar
    pub undistributed_reward: u128,
    /// locked Cheddar
    pub locked_token_amount: u128,
    /// previous distribution time in seconds
    pub prev_distribution_time_in_sec: u32,
    /// when the reward starts to be distributed
    pub reward_genesis_time_in_sec: u32,
    /// reward per 30-day period
    pub monthly_reward: u128,
    /// number of registered accounts
    pub account_number: u64,
}

/// The contract state as mathematical values.
pub struct XCheddarView {
    pub accounts: Map<Seq<char>, u128>,
    pub total_supply: u128,
    pub account_storage_usage: u64,
    pub owner_id: Seq<char>,
    pub locked_token: Seq<char>,
    pub undistributed_reward: u128,
    pub locked_token_amount: u128,
    pub prev_distribution_time_in_sec: u32,
    pub reward_genesis_time_in_sec: u32,
    pub monthly_reward: u128,
    pub account_number: u64,
}

impl View for Contract {
    type V = XCheddarView;

    open spec fn view(&self) -> XCheddarView {
        XCheddarView {
            accounts: self.accounts@,
            total_supply: self.total_supply,
            account_storage_usage: self.account_storage_usage,
            owner_id: self.owner_id@,
            locked_token: self.locked_token@,
            undistributed_reward: self.undistributed_reward,
            locked_token_amount: self.locked_token_amount,
            prev_distribution_time_in_sec: self.prev_distribution_time_in_sec,
            reward_genesis_time_in_sec: self.reward_genesis_time_in_sec,
            monthly_reward: self.monthly_reward,
            account_number: self.account_number,
        }
    }
}

/// Seconds of a nanosecond timestamp, as `nano_to_sec` computes them.
pub open spec fn sec_of(nano: u64) -> u32 {
    (nano / 1_000_000_000) as u32
}

impl XCheddarView {
    /// Reward due at `cur` (seconds): `monthly_reward` for each whole 30 days
    /// since the previous distribution, no more than what is undistributed,
    /// and nothing before the genesis time. `None` when the product overflows.
    pub open spec fn reward_due(self, cur: u32) -> Option<u128> {
        if cur > self.reward_genesis_time_in_sec && cur > self.prev_distribution_time_in_sec {
            let ideal = self.monthly_reward * ((cur - self.prev_distribution_time_in_sec) / (DURATION_30DAYS_IN_SEC as int));
            if ideal > u128::MAX {
                None
            } else if ideal < self.undistributed_reward {
                Some(ideal as u128)
            } else {
                Some(self.undistributed_reward)
            }
        } else {
            Some(0)
        }
    }

    /// The state after distributing the reward due at `cur`.
    pub open spec fn distributed(self, cur: u32) -> Option<Self> {
        match self.reward_due(cur) {
            None => None,
            Some(r) => if r == 0 {
                Some(self)
            } else if self.locked_token_amount + r > u128::MAX {
                None
            } else {
                Some(XCheddarView {
                    undistributed_reward: (self.undistributed_reward - r) as u128,
                    locked_token_amount: (self.locked_token_amount + r) as u128,
                    prev_distribution_time_in_sec: if cur > self.reward_genesis_time_in_sec { cur } else { self.reward_genesis_time_in_sec },
                    ..self
                })
            },
        }
    }

    /// xCheddar balance of `a`, 0 when not registered.
    pub open spec fn balance_of(self, a: Seq<char>) -> u128 {
        if self.accounts.contains_key(a) { self.accounts[a] } else { 0 }
    }

    /// Crediting `amount` xCheddar to the registered account `a`.
    pub open spec fn deposit_spec(self, a: Seq<char>, amount: u128) -> Result<Self, Error> {
        if !self.accounts.contains_key(a) {
            Err(Error::NotRegistered)
        } else if self.accounts[a] + amount > u128::MAX || self.total_supply + amount > u128::MAX {
            Err(Error::ArithmeticOverflow)
        } else {
            Ok(XCheddarView {
                accounts: self.accounts.insert(a, (self.accounts[a] + amount) as u128),
                total_supply: (self.total_supply + amount) as u128,
                ..self
            })
        }
    }

    /// Debiting `amount` xCheddar from the registered account `a`.
    pub open spec fn withdraw_spec(self, a: Seq<char>, amount: u128) -> Result<Self, Error> {
        if !self.accounts.contains_key(a) {
            Err(Error::NotRegistered)
        } else if self.accounts[a] < amount {
            Err(Error::NotEnoughBalance)
        } else if self.total_supply < amount {
            Err(Error::ArithmeticOverflow)
        } else {
            Ok(XCheddarView {
                accounts: self.accounts.insert(a, (self.accounts[a] - amount) as u128),
                total_supply: (self.total_supply - amount) as u128,
                ..self
            })
        }
    }

    /// xCheddar minted for `amount` staked Cheddar: `amount * supply / locked`,
    /// or `amount` itself while the supply is empty.
    pub open spec fn minted_for(self, amount: u128) -> int {
        if self.total_supply == 0 {
            amount as int
        } else {
            mul_div_spec(amount as int, self.total_supply as int, self.locked_token_amount as int)
        }
    }

    /// Staking `amount` Cheddar for `a`.
    pub open spec fn stake_spec(self, a: Seq<char>, amount: u128) -> Result<Self, Error> {
        if !self.accounts.contains_key(a) {
            Err(Error::NotRegistered)
        } else if self.total_supply != 0 && self.locked_token_amount == 0 {
            Err(Error::Internal)
        } else if self.minted_for(amount) > u128::MAX {
            Err(Error::ArithmeticOverflow)
        } else if self.minted_for(amount) == 0 {
            Err(Error::StakeTooSmall)
        } else if self.locked_token_amount + amount > u128::MAX {
            Err(Error::ArithmeticOverflow)
        } else {
            XCheddarView { locked_token_amount: (self.locked_token_amount + amount) as u128, ..self }
                .deposit_spec(a, self.minted_for(amount) as u128)
        }
    }

    /// A transfer of `amount` of `token_in` from `sender` with message `msg` at
    /// `now`: stakes for message "", adds rewards for "reward", and refunds all
    /// of it for any other message. Answers the refunded amount.
    pub open spec fn ft_on_transfer_spec(self, token_in: Seq<char>, sender: Seq<char>, amount: u128, msg: Seq<char>, now: u64) -> Result<(Self, u128), Error> {
        match self.distributed(sec_of(now)) {
            None => Err(Error::ArithmeticOverflow),
            Some(d) => if token_in != self.locked_token {
                Err(Error::MismatchToken)
            } else if msg == MSG_DEPOSIT@ {
                match d.stake_spec(sender, amount) {
                    Ok(s) => Ok((s, 0u128)),
                    Err(e) => Err(e),
                }
            } else if msg == MSG_REWARD@ {
                if d.undistributed_reward + amount > u128::MAX {
                    Err(Error::ArithmeticOverflow)
                } else {
                    Ok((XCheddarView { undistributed_reward: (d.undistributed_reward + amount) as u128, ..d }, 0u128))
                }
            } else {
                Ok((d, amount))
            },
        }
    }

    /// Cheddar unlocked for `amount` xCheddar: `amount * locked / supply`.
    pub open spec fn unlocked_for(self, amount: u128) -> int {
        mul_div_spec(amount as int, self.locked_token_amount as int, self.total_supply as int)
    }

    /// Unstaking `amount` xCheddar of `a` at `now`: the Cheddar it stands for is
    /// unlocked and sent back. At least one xCheddar must stay in supply.
    pub open spec fn unstake_spec(self, a: Seq<char>, attached: u128, amount: u128, now: u64) -> Result<(Self, u128), Error> {
        match self.distributed(sec_of(now)) {
            None => Err(Error::ArithmeticOverflow),
            Some(d) => if attached != 1 {
                Err(Error::RequiresOneYocto)
            } else if d.total_supply == 0 {
                Err(Error::EmptyTotalSupply)
            } else if d.unlocked_for(amount) > u128::MAX {
                Err(Error::ArithmeticOverflow)
            } else {
                match d.withdraw_spec(a, amount) {
                    Err(e) => Err(e),
                    Ok(w) => if w.total_supply < ONE_CHEDDAR {
                        Err(Error::KeepAtLeastOneXCheddar)
                    } else if w.locked_token_amount < d.unlocked_for(amount) {
                        Err(Error::ArithmeticOverflow)
                    } else {
                        Ok((
                            XCheddarView { locked_token_amount: (w.locked_token_amount - d.unlocked_for(amount)) as u128, ..w },
                            d.unlocked_for(amount) as u128,
                        ))
                    },
                }
            },
        }
    }

    /// After the transfer of an unstake answered `result`: a failed transfer
    /// gives the Cheddar and the xCheddar back, when the account still exists.
    pub open spec fn post_unstake_spec(self, sender: Seq<char>, amount: u128, share: u128, result: PromiseResult) -> Result<Self, Error> {
        match result {
            PromiseResult::Failed => if self.accounts.contains_key(sender) {
                if self.locked_token_amount + amount > u128::MAX {
                    Err(Error::ArithmeticOverflow)
                } else {
                    XCheddarView { locked_token_amount: (self.locked_token_amount + amount) as u128, ..self }.deposit_spec(sender, share)
                }
            } else {
                Ok(self)
            },
            _ => Ok(self),
        }
    }

    /// Storage balance every account must deposit.
    pub open spec fn min_storage_balance(self) -> int {
        self.account_storage_usage * STORAGE_PRICE_PER_BYTE
    }

    /// xCheddar per Cheddar locked, with 8 decimals, at `now`.
    pub open spec fn virtual_price(self, now: u64) -> int {
        if self.total_supply == 0 {
            PRICE_DECIMALS as int
        } else {
            (self.locked_token_amount + self.reward_due(sec_of(now))->Some_0) * PRICE_DECIMALS / (self.total_supply as int)
        }
    }
}

impl Contract {
    /// Well-formed account map.
    pub open spec fn wf(&self) -> bool {
        self.accounts.wf()
    }

    /// Initializes the lockup for `locked_token` at block time `now`; rewards
    /// start 30 days later. `account_storage_usage` is the storage one account takes.
    pub fn new(owner_id: String, locked_token: String, now: u64, account_storage_usage: u64) -> (r: Contract)
        requires
            sec_of(now) + DURATION_30DAYS_IN_SEC <= u32::MAX,
        ensures
            r.wf(),
            r@ == (XCheddarView {
                accounts: Map::empty(),
                total_supply: 0,
                account_storage_usage,
                owner_id: owner_id@,
                locked_token: locked_token@,
                undistributed_reward: 0,
                locked_token_amount: 0,
                prev_distribution_time_in_sec: (sec_of(now) + DURATION_30DAYS_IN_SEC) as u32,
                reward_genesis_time_in_sec: (sec_of(now) + DURATION_30DAYS_IN_SEC) as u32,
                monthly_reward: 0,
                account_number: 0,
            }),
    {
        let genesis = DURATION_30DAYS_IN_SEC + nano_to_sec(now);
        Contract {
            accounts: AccountMap::new(),
            total_supply: 0,
            account_storage_usage,
            owner_id,
            locked_token,
            undistributed_reward: 0,
            locked_token_amount: 0,
            prev_distribution_time_in_sec: genesis,
            reward_genesis_time_in_sec: genesis,
            monthly_reward: 0,
            account_number: 0,
        }
    }

    /// The reward to distribute at `cur_timestamp_in_sec`; `None` when the
    /// monthly product overflows.
    pub fn try_distribute_reward(&self, cur_timestamp_in_sec: u32) -> (r: Option<u128>)
        ensures
            r == self@.reward_due(cur_timestamp_in_sec),
    {
        if cur_timestamp_in_sec > self.reward_genesis_time_in_sec && cur_timestamp_in_sec > self.prev_distribution_time_in_sec {
            let months = ((cur_timestamp_in_sec - self.prev_distribution_time_in_sec) / DURATION_30DAYS_IN_SEC) as u128;
            match self.monthly_reward.checked_mul(months) {
                None => None,
                Some(ideal) => if ideal < self.undistributed_reward {
                    Some(ideal)
                } else {
                    Some(self.undistributed_reward)
                },
            }
        } else {
            Some(0)
        }
    }

    /// Releases the reward due at block time `now` into the locked amount.
    /// Returns `false`, changing nothing, when the amounts overflow.
    pub fn distribute_reward(&mut self, now: u64) -> (r: bool)
        requires
            old(self).wf(),
        ensures
            final(self).wf(),
            match old(self)@.distributed(sec_of(now)) {
                Some(s) => r && final(self)@ == s,
                None => !r && final(self)@ == old(self)@,
            },
    {
        let cur_time = nano_to_sec(now);
        let new_reward = match self.try_distribute_reward(cur_time) {
            None => return false,
            Some(x) => x,
        };
        if new_reward > 0 {
            if new_reward > u128::MAX - self.locked_token_amount {
                return false;
            }
            self.undistributed_reward = self.undistributed_reward - new_reward;
            self.locked_token_amount = self.locked_token_amount + new_reward;
            self.prev_distribution_time_in_sec = if cur_time > self.reward_genesis_time_in_sec {
                cur_time
            } else {
                self.reward_genesis_time_in_sec
            };
        }
        true
    }

    /// Credits `amount` xCheddar to the registered account `account_id`.
    pub fn internal_deposit(&mut self, account_id: &String, amount: u128) -> (r: Result<(), Error>)
        requires
            old(self).wf(),
        ensures
            final(self).wf(),
            match old(self)@.deposit_spec(account_id@, amount) {
                Ok(s) => r is Ok && final(self)@ == s,
                Err(e) => r == Err::<(), Error>(e) && final(self)@ == old(self)@,
            },
    {
        let b = match self.accounts.get(account_id) {
            Some(b) => *b,
            None => return Err(Error::NotRegistered),
        };
        if amount > u128::MAX - b || amount > u128::MAX - self.total_supply {
            return Err(Error::ArithmeticOverflow);
        }
        self.accounts.insert(account_id.clone(), b + amount);
        self.total_supply = self.total_supply + amount;
        Ok(())
    }

    /// Debits `amount` xCheddar from the registered account `account_id`.
    pub fn internal_withdraw(&mut self, account_id: &String, amount: u128) -> (r: Result<(), Error>)
        requires
            old(self).wf(),
        ensures
            final(self).wf(),
            match old(self)@.withdraw_spec(account_id@, amount) {
                Ok(s) => r is Ok && final(self)@ == s,
                Err(e) => r == Err::<(), Error>(e) && final(self)@ == old(self)@,
            },
    {
        let b = match self.accounts.get(account_id) {
            Some(b) => *b,
            None => return Err(Error::NotRegistered),
        };
        if b < amount {
            return Err(Error::NotEnoughBalance);
        }
        if self.total_supply < amount {
            return Err(Error::ArithmeticOverflow);
        }
        self.accounts.insert(account_id.clone(), b - amount);
        self.total_supply = self.total_supply - amount;
        Ok(())
    }

    /// Locks `amount` Cheddar for `account_id` and mints xCheddar at the current price.
    pub fn internal_stake(&mut self, account_id: &String, amount: u128) -> (r: Result<(), Error>)
        requires
            old(self).wf(),
        ensures
            final(self).wf(),
            match old(self)@.stake_spec(account_id@, amount) {
                Ok(s) => r is Ok && final(self)@ == s,
                Err(e) => r == Err::<(), Error>(e) && final(self)@ == old(self)@,
            },
    {
        if !self.accounts.contains_key(account_id) {
            return Err(Error::NotRegistered);
        }
        let mut minted = amount;
        if self.total_supply != 0 {
            if self.locked_token_amount == 0 {
                return Err(Error::Internal);
            }
            minted = match checked_mul_div(amount, self.total_supply, self.locked_token_amount) {
                None => return Err(Error::ArithmeticOverflow),
                Some(m) => m,
            };
        }
        if minted == 0 {
            return Err(Error::StakeTooSmall);
        }
        if amount > u128::MAX - self.locked_token_amount {
            return Err(Error::ArithmeticOverflow);
        }
        let b = match self.accounts.get(account_id) {
            Some(b) => *b,
            None => return Err(Error::NotRegistered),
        };
        if minted > u128::MAX - b || minted > u128::MAX - self.total_supply {
            return Err(Error::ArithmeticOverflow);
        }
        self.locked_token_amount = self.locked_token_amount + amount;
        self.internal_deposit(account_id, minted)
    }

    /// Handles a transfer of the locked token (the predecessor) from
    /// `sender_id`: message "" stakes, "reward" adds rewards, anything else is
    /// refunded. Returns the amount to refund.
    #[verifier::spinoff_prover]
    pub fn ft_on_transfer(&mut self, ctx: &CallContext, sender_id: &String, amount: u128, msg: &String) -> (r: Result<u128, Error>)
        requires
            old(self).wf(),
        ensures
            final(self).wf(),
            match old(self)@.ft_on_transfer_spec(ctx.predecessor@, sender_id@, amount, msg@, ctx.block_timestamp) {
                Ok((s, refund)) => r == Ok::<u128, Error>(refund) && final(self)@ == s,
                Err(e) => r == Err::<u128, Error>(e) && final(self)@ == old(self)@,
            },
    {
        let (pre_undistributed, pre_locked, pre_prev) = (self.undistributed_reward, self.locked_token_amount, self.prev_distribution_time_in_sec);
        if !self.distribute_reward(ctx.block_timestamp) {
            return Err(Error::ArithmeticOverflow);
        }
        if ctx.predecessor != self.locked_token {
            self.restore(pre_undistributed, pre_locked, pre_prev);
            return Err(Error::MismatchToken);
        }
        match TransferInstruction::from(msg.clone()) {
            TransferInstruction::Deposit => match self.internal_stake(sender_id, amount) {
                Ok(_) => Ok(0),
                Err(e) => {
                    self.restore(pre_undistributed, pre_locked, pre_prev);
                    Err(e)
                },
            },
            TransferInstruction::Reward => match self.internal_add_reward(amount) {
                Ok(_) => Ok(0),
                Err(e) => {
                    self.restore(pre_undistributed, pre_locked, pre_prev);
                    Err(e)
                },
            },
            TransferInstruction::Unknown => Ok(amount),
        }
    }

    /// Adds `amount` to the reward not yet distributed.
    pub fn internal_add_reward(&mut self, amount: u128) -> (r: Result<(), Error>)
        requires
            old(self).wf(),
        ensures
            final(self).wf(),
            old(self)@.undistributed_reward + amount > u128::MAX ==> r == Err::<(), Error>(Error::ArithmeticOverflow) && final(self)@ == old(self)@,
            old(self)@.undistributed_reward + amount <= u128::MAX ==> r is Ok && final(self)@ == (XCheddarView {
                undistributed_reward: (old(self)@.undistributed_reward + amount) as u128,
                ..old(self)@
            }),
    {
        if amount > u128::MAX - self.undistributed_reward {
            return Err(Error::ArithmeticOverflow);
        }
        self.undistributed_reward = self.undistributed_reward + amount;
        Ok(())
    }

    /// Unstakes `amount` xCheddar of the caller: the Cheddar it stands for is
    /// unlocked and sent back, then `callback_post_unstake` runs. Rewards due
    /// are distributed first. Requires 1 yoctoNEAR. An `Err` stands for a failed call (the call panics): nothing of it persists.
    pub fn unstake(&mut self, ctx: &CallContext, amount: u128) -> (r: Result<UnstakeTransfer, Error>)
        requires
            old(self).wf(),
        ensures
            final(self).wf(),
            match old(self)@.unstake_spec(ctx.predecessor@, ctx.attached_deposit, amount, ctx.block_timestamp) {
                Ok((s, unlocked)) => r matches Ok(t) && final(self)@ == s && t.user@ == ctx.predecessor@
                    && t.amount == unlocked && t.share == amount,
                Err(e) => r matches Err(x) && x == e && final(self)@ == old(self)@,
            },
    {
        let (pre_undistributed, pre_locked, pre_prev) = (self.undistributed_reward, self.locked_token_amount, self.prev_distribution_time_in_sec);
        if !self.distribute_reward(ctx.block_timestamp) {
            return Err(Error::ArithmeticOverflow);
        }
        if ctx.attached_deposit != 1 {
            self.restore(pre_undistributed, pre_locked, pre_prev);
            return Err(Error::RequiresOneYocto);
        }
        let account_id = &ctx.predecessor;
        if self.total_supply == 0 {
            self.restore(pre_undistributed, pre_locked, pre_prev);
            return Err(Error::EmptyTotalSupply);
        }
        let unlocked = match checked_mul_div(amount, self.locked_token_amount, self.total_supply) {
            None => {
                self.restore(pre_undistributed, pre_locked, pre_prev);
                return Err(Error::ArithmeticOverflow);
            },
            Some(u) => u,
        };
        let ghost d = self@;
        let b = match self.accounts.get(account_id) {
            Some(b) => *b,
            None => {
                self.restore(pre_undistributed, pre_locked, pre_prev);
                return Err(Error::NotRegistered);
            },
        };
        if b < amount {
            self.restore(pre_undistributed, pre_locked, pre_prev);
            return Err(Error::NotEnoughBalance);
        }
        if self.total_supply < amount {
            self.restore(pre_undistributed, pre_locked, pre_prev);
            return Err(Error::ArithmeticOverflow);
        }
        if self.total_supply - amount < ONE_CHEDDAR {
            self.restore(pre_undistributed, pre_locked, pre_prev);
            return Err(Error::KeepAtLeastOneXCheddar);
        }
        if self.locked_token_amount < unlocked {
            self.restore(pre_undistributed, pre_locked, pre_prev);
            return Err(Error::ArithmeticOverflow);
        }
        let _ = self.internal_withdraw(account_id, amount);
        self.locked_token_amount = self.locked_token_amount - unlocked;
        Ok(UnstakeTransfer { user: account_id.clone(), amount: unlocked, share: amount })
    }

    /// After the Cheddar transfer of an unstake: when it failed, the unlocked
    /// Cheddar and the xCheddar go back to the account, if it still exists.
    pub fn callback_post_unstake(&mut self, sender_id: &String, amount: u128, share: u128, promise_results_count: u64, result: &PromiseResult) -> (r: Result<(), Error>)
        requires
            old(self).wf(),
            !(*result is NotReady),
        ensures
            final(self).wf(),
            promise_results_count != 1 ==> r == Err::<(), Error>(Error::PromiseResult) && final(self)@ == old(self)@,
            promise_results_count == 1 ==> match old(self)@.post_unstake_spec(sender_id@, amount, share, *result) {
                Ok(s) => r is Ok && final(self)@ == s,
                Err(e) => r == Err::<(), Error>(e) && final(self)@ == old(self)@,
            },
    {
        if promise_results_count != 1 {
            return Err(Error::PromiseResult);
        }
        match result {
            PromiseResult::Failed => {
                let b = match self.accounts.get(sender_id) {
                    Some(b) => *b,
                    None => return Ok(()),
                };
                if amount > u128::MAX - self.locked_token_amount || share > u128::MAX - b
                    || share > u128::MAX - self.total_supply {
                    return Err(Error::ArithmeticOverflow);
                }
                self.locked_token_amount = self.locked_token_amount + amount;
                self.internal_deposit(sender_id, share)
            },
            _ => Ok(()),
        }
    }

    fn assert_owner(&self, ctx: &CallContext) -> (r: Result<(), Error>)
        ensures
            r is Ok <==> ctx.predecessor@ == self@.owner_id,
            r is Err ==> r == Err::<(), Error>(Error::NotAllowed),
    {
        if ctx.predecessor == self.owner_id {
            Ok(())
        } else {
            Err(Error::NotAllowed)
        }
    }

    /// The owner sets the reward per 30 days, distributing what is due at the
    /// old rate first when `distribute_before_change`.
    pub fn modify_monthly_reward(&mut self, ctx: &CallContext, monthly_reward: u128, distribute_before_change: bool) -> (r: Result<(), Error>)
        requires
            old(self).wf(),
        ensures
            final(self).wf(),
            ctx.predecessor@ != old(self)@.owner_id ==> r == Err::<(), Error>(Error::NotAllowed) && final(self)@ == old(self)@,
            ctx.predecessor@ == old(self)@.owner_id && !distribute_before_change ==> r is Ok
                && final(self)@ == (XCheddarView { monthly_reward, ..old(self)@ }),
            ctx.predecessor@ == old(self)@.owner_id && distribute_before_change ==> match old(self)@.distributed(sec_of(ctx.block_timestamp)) {
                Some(d) => r is Ok && final(self)@ == (XCheddarView { monthly_reward, ..d }),
                None => r == Err::<(), Error>(Error::ArithmeticOverflow) && final(self)@ == old(self)@,
            },
    {
        match self.assert_owner(ctx) {
            Err(e) => return Err(e),
            Ok(_) => {},
        }
        if distribute_before_change {
            if !self.distribute_reward(ctx.block_timestamp) {
                return Err(Error::ArithmeticOverflow);
            }
        }
        self.monthly_reward = monthly_reward;
        Ok(())
    }

    /// The owner moves the reward genesis time, which must not be in the past,
    /// while the current genesis time has not passed. An `Err` stands for a failed call (the call panics): nothing of it persists.
    pub fn reset_reward_genesis_time_in_sec(&mut self, ctx: &CallContext, reward_genesis_time_in_sec: u32) -> (r: Result<(), Error>)
        requires
            old(self).wf(),
        ensures
            final(self).wf(),
            ({
                let cur = sec_of(ctx.block_timestamp);
                if ctx.predecessor@ != old(self)@.owner_id {
                    r == Err::<(), Error>(Error::NotAllowed) && final(self)@ == old(self)@
                } else if reward_genesis_time_in_sec < cur {
                    r == Err::<(), Error>(Error::ResetTimeIsPastTime) && final(self)@ == old(self)@
                } else if old(self)@.reward_genesis_time_in_sec < cur {
                    r == Err::<(), Error>(Error::RewardGenesisTimePassed) && final(self)@ == old(self)@
                } else {
                    r is Ok && final(self)@ == (XCheddarView {
                        reward_genesis_time_in_sec,
                        prev_distribution_time_in_sec: reward_genesis_time_in_sec,
                        ..old(self)@
                    })
                }
            }),
    {
        match self.assert_owner(ctx) {
            Err(e) => return Err(e),
            Ok(_) => {},
        }
        let cur_time = nano_to_sec(ctx.block_timestamp);
        if reward_genesis_time_in_sec < cur_time {
            return Err(Error::ResetTimeIsPastTime);
        } else if self.reward_genesis_time_in_sec < cur_time {
            return Err(Error::RewardGenesisTimePassed);
        }
        self.reward_genesis_time_in_sec = reward_genesis_time_in_sec;
        self.prev_distribution_time_in_sec = reward_genesis_time_in_sec;
        Ok(())
    }

    /// The owner hands ownership to `owner_id`, which must be a valid account id.
    pub fn set_owner(&mut self, ctx: &CallContext, owner_id: String) -> (r: Result<(), Error>)
        requires
            old(self).wf(),
        ensures
            final(self).wf(),
            ctx.predecessor@ != old(self)@.owner_id ==> r == Err::<(), Error>(Error::NotAllowed),
            ctx.predecessor@ == old(self)@.owner_id && !spec_valid_account_id(vstd::utf8::encode_utf8(owner_id@))
                ==> r == Err::<(), Error>(Error::InvalidAccount),
            r is Ok <==> ctx.predecessor@ == old(self)@.owner_id && spec_valid_account_id(vstd::utf8::encode_utf8(owner_id@)),
            r is Ok ==> final(self)@ == (XCheddarView { owner_id: owner_id@, ..old(self)@ }),
            r is Err ==> final(self)@ == old(self)@,
    {
        match self.assert_owner(ctx) {
            Err(e) => return Err(e),
            Ok(_) => {},
        }
        if !is_valid_account_id(owner_id.as_str().as_bytes()) {
            return Err(Error::InvalidAccount);
        }
        self.owner_id = owner_id;
        Ok(())
    }

    /// The owner.
    pub fn get_owner(&self) -> (r: String)
        ensures
            r@ == self@.owner_id,
    {
        self.owner_id.clone()
    }

    /// Contract parameters and totals at block time `now`, counting the reward
    /// due as already distributed in the `cur_` amounts.
    pub fn contract_metadata(&self, now: u64) -> (r: ContractMetadata)
        requires
            self@.reward_due(sec_of(now)) is Some,
            self@.locked_token_amount + self@.reward_due(sec_of(now))->Some_0 <= u128::MAX,
        ensures
            r.version@ == VERSION@,
            r.owner_id@ == self@.owner_id,
            r.locked_token@ == self@.locked_token,
            r.undistributed_reward == self@.undistributed_reward,
            r.locked_token_amount == self@.locked_token_amount,
            r.cur_undistributed_reward == self@.undistributed_reward - self@.reward_due(sec_of(now))->Some_0,
            r.cur_locked_token_amount == self@.locked_token_amount + self@.reward_due(sec_of(now))->Some_0,
            r.supply == self@.total_supply,
            r.prev_distribution_time_in_sec == self@.prev_distribution_time_in_sec,
            r.reward_genesis_time_in_sec == self@.reward_genesis_time_in_sec,
            r.monthly_reward == self@.monthly_reward,
            r.account_number == self@.account_number,
    {
        let to_be_distributed = match self.try_distribute_reward(nano_to_sec(now)) {
            Some(x) => x,
            None => 0,
        };
        ContractMetadata {
            version: String::from_str(VERSION),
            owner_id: self.owner_id.clone(),
            locked_token: self.locked_token.clone(),
            undistributed_reward: self.undistributed_reward,
            locked_token_amount: self.locked_token_amount,
            cur_undistributed_reward: self.undistributed_reward - to_be_distributed,
            cur_locked_token_amount: self.locked_token_amount + to_be_distributed,
            supply: self.total_supply,
            prev_distribution_time_in_sec: self.prev_distribution_time_in_sec,
            reward_genesis_time_in_sec: self.reward_genesis_time_in_sec,
            monthly_reward: self.monthly_reward,
            account_number: self.account_number,
        }
    }

    /// `contract_metadata` with amounts in whole tokens, rounded.
    pub fn contract_metadata_human_readable(&self, now: u64) -> (r: ContractMetadataHumanReadable)
        requires
            self@.reward_due(sec_of(now)) is Some,
            self@.locked_token_amount + self@.reward_due(sec_of(now))->Some_0 + utils::HALF_CHEDDAR <= u128::MAX,
            self@.undistributed_reward + utils::HALF_CHEDDAR <= u128::MAX,
            self@.total_supply + utils::HALF_CHEDDAR <= u128::MAX,
            self@.monthly_reward + utils::HALF_CHEDDAR <= u128::MAX,
        ensures
            r.version@ == VERSION@,
            r.owner_id@ == self@.owner_id,
            r.locked_token@ == self@.locked_token,
            r.undistributed_reward == (self@.undistributed_reward + utils::HALF_CHEDDAR) / (ONE_CHEDDAR as int),
            r.locked_token_amount == (self@.locked_token_amount + utils::HALF_CHEDDAR) / (ONE_CHEDDAR as int),
            r.cur_undistributed_reward == (self@.undistributed_reward - self@.reward_due(sec_of(now))->Some_0 + utils::HALF_CHEDDAR) / (ONE_CHEDDAR as int),
            r.cur_locked_token_amount == (self@.locked_token_amount + self@.reward_due(sec_of(now))->Some_0 + utils::HALF_CHEDDAR) / (ONE_CHEDDAR as int),
            r.supply == (self@.total_supply + utils::HALF_CHEDDAR) / (ONE_CHEDDAR as int),
            r.prev_distribution_time_in_sec == self@.prev_distribution_time_in_sec,
            r.reward_genesis_time_in_sec == self@.reward_genesis_time_in_sec,
            r.monthly_reward == (self@.monthly_reward + utils::HALF_CHEDDAR) / (ONE_CHEDDAR as int),
            r.account_number == self@.account_number,
    {
        let m = self.contract_metadata(now);
        ContractMetadataHumanReadable {
            version: m.version,
            owner_id: m.owner_id,
            locked_token: m.locked_token,
            undistributed_reward: utils::convert_from_yocto_cheddar(m.undistributed_reward),
            locked_token_amount: utils::convert_from_yocto_cheddar(m.locked_token_amount),
            cur_undistributed_reward: utils::convert_from_yocto_cheddar(m.cur_undistributed_reward),
            cur_locked_token_amount: utils::convert_from_yocto_cheddar(m.cur_locked_token_amount),
            supply: utils::convert_from_yocto_cheddar(m.supply),
            prev_distribution_time_in_sec: m.prev_distribution_time_in_sec,
            reward_genesis_time_in_sec: m.reward_genesis_time_in_sec,
            monthly_reward: utils::convert_from_yocto_cheddar(m.monthly_reward),
            account_number: m.account_number,
        }
    }

    /// Cheddar per xCheddar with 8 decimals, at block time `now`, counting the
    /// reward due as distributed.
    pub fn get_virtual_price(&self, now: u64) -> (r: u128)
        requires
            self@.total_supply != 0 ==> self@.reward_due(sec_of(now)) is Some
                && (self@.locked_token_amount + self@.reward_due(sec_of(now))->Some_0) * PRICE_DECIMALS <= u128::MAX,
        ensures
            r == self@.virtual_price(now),
    {
        if self.total_supply == 0 {
            PRICE_DECIMALS
        } else {
            let due = match self.try_distribute_reward(nano_to_sec(now)) {
                Some(x) => x,
                None => 0,
            };
            (self.locked_token_amount + due) * PRICE_DECIMALS / self.total_supply
        }
    }

    /// Metadata of the xCheddar token.
    pub fn ft_metadata(&self) -> (r: FtMetadata)
        ensures
            r@.spec == FT_METADATA_SPEC@,
            r@.name == "xCheddar Token"@,
            r@.symbol == "xCHEDDAR"@,
            r@.icon == Some(utils::XCHEDDAR_ICON@),
            r@.reference is None,
            r@.reference_hash is None,
            r@.decimals == 24,
    {
        FtMetadata {
            spec: String::from_str(FT_METADATA_SPEC),
            name: String::from_str("xCheddar Token"),
            symbol: String::from_str("xCHEDDAR"),
            icon: Some(String::from_str(utils::XCHEDDAR_ICON)),
            reference: None,
            reference_hash: None,
            decimals: 24,
        }
    }

    /// xCheddar supply.
    pub fn ft_total_supply(&self) -> (r: u128)
        ensures
            r == self@.total_supply,
    {
        self.total_supply
    }

    /// xCheddar balance of `account_id`, 0 when not registered.
    pub fn ft_balance_of(&self, account_id: &String) -> (r: u128)
        requires
            self.wf(),
        ensures
            r == self@.balance_of(account_id@),
    {
        match self.accounts.get(account_id) {
            Some(b) => *b,
            None => 0,
        }
    }

    /// Transfers `amount` xCheddar from the caller to `receiver_id`; both must
    /// be registered. Requires 1 yoctoNEAR.
    pub fn ft_transfer(&mut self, ctx: &CallContext, receiver_id: &String, amount: u128) -> (r: Result<(), Error>)
        requires
            old(self).wf(),
        ensures
            final(self).wf(),
            ({
                let o = old(self)@;
                if ctx.attached_deposit != 1 {
                    r == Err::<(), Error>(Error::RequiresOneYocto) && final(self)@ == o
                } else if ctx.predecessor@ == receiver_id@ {
                    r == Err::<(), Error>(Error::SameAccount) && final(self)@ == o
                } else if amount == 0 {
                    r == Err::<(), Error>(Error::ZeroAmount) && final(self)@ == o
                } else {
                    match o.withdraw_spec(ctx.predecessor@, amount) {
                        Err(e) => r == Err::<(), Error>(e) && final(self)@ == o,
                        Ok(w) => match w.deposit_spec(receiver_id@, amount) {
                            Err(e) => r == Err::<(), Error>(e) && final(self)@ == o,
                            Ok(s) => r is Ok && final(self)@ == s,
                        },
                    }
                }
            }),
    {
        if ctx.attached_deposit != 1 {
            return Err(Error::RequiresOneYocto);
        }
        if ctx.predecessor == *receiver_id {
            return Err(Error::SameAccount);
        }
        if amount == 0 {
            return Err(Error::ZeroAmount);
        }
        let sb = match self.accounts.get(&ctx.predecessor) {
            Some(b) => *b,
            None => return Err(Error::NotRegistered),
        };
        if sb < amount {
            return Err(Error::NotEnoughBalance);
        }
        if self.total_supply < amount {
            return Err(Error::ArithmeticOverflow);
        }
        let rb = match self.accounts.get(receiver_id) {
            Some(b) => *b,
            None => return Err(Error::NotRegistered),
        };
        if amount > u128::MAX - rb {
            return Err(Error::ArithmeticOverflow);
        }
        let _ = self.internal_withdraw(&ctx.predecessor, amount);
        self.internal_deposit(receiver_id, amount)
    }

    /// Storage balance every account must deposit and may not exceed.
    pub fn storage_balance_bounds(&self) -> (r: StorageBalanceBounds)
        requires
            self@.min_storage_balance() <= u128::MAX,
        ensures
            r.min == self@.min_storage_balance(),
            r.max == Some(r.min),
    {
        let m = (self.account_storage_usage as u128) * storage_byte_cost();
        StorageBalanceBounds { min: m, max: Some(m) }
    }

    /// Storage balance of `account_id`: the minimum, when registered.
    pub fn storage_balance_of(&self, account_id: &String) -> (r: Option<StorageBalance>)
        requires
            self.wf(),
            self@.min_storage_balance() <= u128::MAX,
        ensures
            r == (if self@.accounts.contains_key(account_id@) {
                Some(StorageBalance { total: self@.min_storage_balance() as u128, available: 0 })
            } else {
                None::<StorageBalance>
            }),
    {
        if self.accounts.contains_key(account_id) {
            Some(StorageBalance { total: self.storage_balance_bounds().min, available: 0 })
        } else {
            None
        }
    }

    /// Registers `account_id` (the caller when `None`) for the attached
    /// deposit, which must cover the minimum storage balance; the rest, or all
    /// of it for an account already registered, is refunded to the caller.
    /// Returns the storage balance and the refund.
    pub fn storage_deposit(&mut self, ctx: &CallContext, account_id: Option<String>) -> (r: Result<(StorageBalance, u128), Error>)
        requires
            old(self).wf(),
            old(self)@.min_storage_balance() <= u128::MAX,
        ensures
            final(self).wf(),
            ({
                let o = old(self)@;
                let a = match account_id { Some(x) => x@, None => ctx.predecessor@ };
                let sb = StorageBalance { total: o.min_storage_balance() as u128, available: 0 };
                if o.accounts.contains_key(a) {
                    r == Ok::<(StorageBalance, u128), Error>((sb, ctx.attached_deposit)) && final(self)@ == o
                } else if ctx.attached_deposit < o.min_storage_balance() {
                    r == Err::<(StorageBalance, u128), Error>(Error::DepositBelowMinimum) && final(self)@ == o
                } else if o.account_number + 1 > u64::MAX {
                    r == Err::<(StorageBalance, u128), Error>(Error::ArithmeticOverflow) && final(self)@ == o
                } else {
                    r == Ok::<(StorageBalance, u128), Error>((sb, (ctx.attached_deposit - o.min_storage_balance()) as u128))
                        && final(self)@ == (XCheddarView {
                            accounts: o.accounts.insert(a, 0),
                            account_number: (o.account_number + 1) as u64,
                            ..o
                        })
                }
            }),
    {
        let a = match account_id {
            Some(x) => x,
            None => ctx.predecessor.clone(),
        };
        let min_balance = self.storage_balance_bounds().min;
        let sb = StorageBalance { total: min_balance, available: 0 };
        if self.accounts.contains_key(&a) {
            return Ok((sb, ctx.attached_deposit));
        }
        if ctx.attached_deposit < min_balance {
            return Err(Error::DepositBelowMinimum);
        }
        if self.account_number == u64::MAX {
            return Err(Error::ArithmeticOverflow);
        }
        self.account_number = self.account_number + 1;
        self.accounts.insert(a, 0);
        Ok((sb, ctx.attached_deposit - min_balance))
    }

    /// Storage cannot be withdrawn: only a zero (or no) amount is accepted.
    /// Requires 1 yoctoNEAR.
    pub fn storage_withdraw(&self, ctx: &CallContext, amount: Option<u128>) -> (r: Result<StorageBalance, Error>)
        requires
            self.wf(),
            self@.min_storage_balance() <= u128::MAX,
        ensures
            ({
                let reg = self@.accounts.contains_key(ctx.predecessor@);
                if ctx.attached_deposit != 1 {
                    r == Err::<StorageBalance, Error>(Error::RequiresOneYocto)
                } else if !reg {
                    r == Err::<StorageBalance, Error>(Error::NotRegistered)
                } else if amount matches Some(x) && x > 0 {
                    r == Err::<StorageBalance, Error>(Error::StorageWithdrawTooLarge)
                } else {
                    r == Ok::<StorageBalance, Error>(StorageBalance { total: self@.min_storage_balance() as u128, available: 0 })
                }
            }),
    {
        if ctx.attached_deposit != 1 {
            return Err(Error::RequiresOneYocto);
        }
        match self.storage_balance_of(&ctx.predecessor) {
            None => Err(Error::NotRegistered),
            Some(b) => match amount {
                Some(x) => if x > 0 {
                    Err(Error::StorageWithdrawTooLarge)
                } else {
                    Ok(b)
                },
                None => Ok(b),
            },
        }
    }

    /// Unregisters the caller, burning its xCheddar when `force`; refused for
    /// a positive balance without `force`. Returns whether an account was
    /// removed, and the NEAR to send back (the storage balance plus one yocto).
    /// Requires 1 yoctoNEAR.
    pub fn storage_unregister(&mut self, ctx: &CallContext, force: Option<bool>) -> (r: Result<(bool, u128), Error>)
        requires
            old(self).wf(),
            old(self)@.min_storage_balance() < u128::MAX,
        ensures
            final(self).wf(),
            ({
                let o = old(self)@;
                let a = ctx.predecessor@;
                let f = match force { Some(x) => x, None => false };
                if ctx.attached_deposit != 1 {
                    r == Err::<(bool, u128), Error>(Error::RequiresOneYocto) && final(self)@ == o
                } else if !o.accounts.contains_key(a) {
                    r == Ok::<(bool, u128), Error>((false, 0u128)) && final(self)@ == o
                } else if o.accounts[a] != 0 && !f {
                    r == Err::<(bool, u128), Error>(Error::PositiveBalance) && final(self)@ == o
                } else if o.total_supply < o.accounts[a] {
                    r == Err::<(bool, u128), Error>(Error::ArithmeticOverflow) && final(self)@ == o
                } else {
                    r == Ok::<(bool, u128), Error>((true, (o.min_storage_balance() + 1) as u128))
                        && final(self)@ == (XCheddarView {
                            accounts: o.accounts.remove(a),
                            total_supply: (o.total_supply - o.accounts[a]) as u128,
                            account_number: if o.account_number > 0 { (o.account_number - 1) as u64 } else { 0 },
                            ..o
                        })
                }
            }),
    {
        if ctx.attached_deposit != 1 {
            return Err(Error::RequiresOneYocto);
        }
        let force = match force {
            Some(x) => x,
            None => false,
        };
        let balance = match self.accounts.get(&ctx.predecessor) {
            Some(b) => *b,
            None => return Ok((false, 0)),
        };
        if balance != 0 && !force {
            return Err(Error::PositiveBalance);
        }
        if self.total_supply < balance {
            return Err(Error::ArithmeticOverflow);
        }
        let refund = self.storage_balance_bounds().min + 1;
        let _ = self.accounts.remove(&ctx.predecessor);
        self.total_supply = self.total_supply - balance;
        self.account_number = match self.account_number.checked_sub(1) {
            Some(n) => n,
            None => 0,
        };
        Ok((true, refund))
    }

    /// Puts back the reward distribution fields read before a refused call
    /// distributed rewards.
    fn restore(&mut self, undistributed: u128, locked: u128, prev: u32)
        requires
            old(self).wf(),
        ensures
            final(self).wf(),
            final(self)@ == (XCheddarView {
                undistributed_reward: undistributed,
                locked_token_amount: locked,
                prev_distribution_time_in_sec: prev,
                ..old(self)@
            }),
    {
        self.undistributed_reward = undistributed;
        self.locked_token_amount = locked;
        self.prev_distribution_time_in_sec = prev;
    }
}

proof fn lemma_mul_div_floor(a: int, b: int, d: int)
    requires
        a >= 0,
        b >= 0,
        d > 0,
    ensures
        mul_div_spec(a, b, d) * d <= a * b,
        mul_div_spec(a, b, d) >= 0,
{
    vstd::arithmetic::div_mod::lemma_fundamental_div_mod(a * b, d);
    vstd::arithmetic::div_mod::lemma_mod_pos_bound(a * b, d);
    assert(a * b >= 0) by (nonlinear_arith)
        requires a >= 0, b >= 0;
    vstd::arithmetic::div_mod::lemma_div_pos_is_pos(a * b, d);
    assert(d * ((a * b) / d) == ((a * b) / d) * d) by (nonlinear_arith);
}

/// Staking never lowers the price of xCheddar in Cheddar (locked / supply)
/// while some xCheddar exists: the staker gets at most what the Cheddar is
/// worth, and the locked amount grows by exactly the staked Cheddar.
pub proof fn law_stake_keeps_price(c: XCheddarView, a: Seq<char>, amount: u128)
    requires
        c.total_supply > 0,
        c.stake_spec(a, amount) is Ok,
    ensures
        ({
            let n = c.stake_spec(a, amount)->Ok_0;
            &&& n.locked_token_amount == c.locked_token_amount + amount
            &&& n.locked_token_amount * c.total_supply >= c.locked_token_amount * n.total_supply
            &&& n.balance_of(a) - c.balance_of(a) == n.total_supply - c.total_supply
        }),
{
    let n = c.stake_spec(a, amount)->Ok_0;
    let s = c.total_supply as int;
    let l = c.locked_token_amount as int;
    let m = c.minted_for(amount);
    lemma_mul_div_floor(amount as int, s, l);
    assert(n.total_supply == s + m);
    assert((l + amount) * s >= l * (s + m)) by (nonlinear_arith)
        requires m * l <= amount * s, l > 0, s > 0, m >= 0;
}

/// Unstaking never lowers the price of xCheddar in Cheddar: the Cheddar sent
/// back is at most what the burned xCheddar is worth at the price after the
/// reward distribution, and the supply falls by exactly the burned xCheddar.
pub proof fn law_unstake_keeps_price(c: XCheddarView, a: Seq<char>, attached: u128, amount: u128, now: u64)
    requires
        c.unstake_spec(a, attached, amount, now) is Ok,
    ensures
        ({
            let d = c.distributed(sec_of(now))->Some_0;
            let (n, unlocked) = c.unstake_spec(a, attached, amount, now)->Ok_0;
            &&& n.total_supply == d.total_supply - amount
            &&& n.locked_token_amount == d.locked_token_amount - unlocked
            &&& n.locked_token_amount * d.total_supply >= d.locked_token_amount * n.total_supply
        }),
{
    let d = c.distributed(sec_of(now))->Some_0;
    let s = d.total_supply as int;
    let l = d.locked_token_amount as int;
    let u = d.unlocked_for(amount);
    lemma_mul_div_floor(amount as int, l, s);
    assert((l - u) * s >= l * (s - amount)) by (nonlinear_arith)
        requires u * s <= amount * l, s > 0;
}

/// Distributing rewards moves Cheddar from the undistributed reward into the
/// locked amount: their sum stays the same, the locked amount never falls,
/// and distributing twice at the same time is the same as once.
pub proof fn law_distribution_conserves(c: XCheddarView, cur: u32)
    requires
        c.distributed(cur) is Some,
    ensures
        ({
            let d = c.distributed(cur)->Some_0;
            &&& d.undistributed_reward + d.locked_token_amount == c.undistributed_reward + c.locked_token_amount
            &&& d.locked_token_amount >= c.locked_token_amount
            &&& d.total_supply == c.total_supply
            &&& d.accounts == c.accounts
            &&& d.distributed(cur) == Some(d)
        }),
{
    let d = c.distributed(cur)->Some_0;
    let r = c.reward_due(cur)->Some_0;
    if r != 0 {
        assert(d.prev_distribution_time_in_sec >= cur);
        assert(d.reward_due(cur) == Some(0u128));
    }
}

/// A failed Cheddar transfer after an unstake gives the account back its
/// xCheddar and the locked Cheddar back its amount: the state is the one
/// right after the reward distribution of the unstake.
pub proof fn law_failed_unstake_is_undone(c: XCheddarView, a: Seq<char>, amount: u128, now: u64)
    requires
        c.unstake_spec(a, 1, amount, now) is Ok,
    ensures
        ({
            let d = c.distributed(sec_of(now))->Some_0;
            let (n, unlocked) = c.unstake_spec(a, 1, amount, now)->Ok_0;
            n.post_unstake_spec(a, unlocked, amount, PromiseResult::Failed) == Ok::<XCheddarView, Error>(d)
        }),
{
    let d = c.distributed(sec_of(now))->Some_0;
    let (n, unlocked) = c.unstake_spec(a, 1, amount, now)->Ok_0;
    let back = n.post_unstake_spec(a, unlocked, amount, PromiseResult::Failed)->Ok_0;
    assert(back.accounts =~= d.accounts);
}

/// Staking Cheddar and unstaking at once all the xCheddar it minted gives
/// back at most the Cheddar staked: when no reward comes due in between,
/// nobody gains from a round trip.
pub proof fn law_stake_unstake_round_trip(c: XCheddarView, a: Seq<char>, amount: u128, attached: u128, now: u64)
    requires
        c.total_supply > 0,
        c.stake_spec(a, amount) is Ok,
        c.stake_spec(a, amount)->Ok_0.reward_due(sec_of(now)) == Some(0u128),
        c.stake_spec(a, amount)->Ok_0.unstake_spec(a, attached, (c.stake_spec(a, amount)->Ok_0.total_supply - c.total_supply) as u128, now) is Ok,
    ensures
        ({
            let n = c.stake_spec(a, amount)->Ok_0;
            let m = (n.total_supply - c.total_supply) as u128;
            n.unstake_spec(a, attached, m, now)->Ok_0.1 <= amount
        }),
{
    let n = c.stake_spec(a, amount)->Ok_0;
    let s = c.total_supply as int;
    let l = c.locked_token_amount as int;
    let m = c.minted_for(amount);
    lemma_mul_div_floor(amount as int, s, l);
    assert(n.total_supply == s + m);
    assert(n.locked_token_amount == l + amount);
    let x = m * (l + amount);
    let y = s + m;
    assert(x <= amount * y) by (nonlinear_arith)
        requires m * l <= amount * s, m >= 0, amount >= 0, x == m * (l + amount), y == s + m;
    assert(x >= 0) by (nonlinear_arith)
        requires m >= 0, l >= 0, amount >= 0, x == m * (l + amount);
    vstd::arithmetic::div_mod::lemma_div_is_ordered(x, amount * y, y);
    vstd::arithmetic::div_mod::lemma_div_multiples_vanish(amount as int, y);
    assert(amount * y == y * amount) by (nonlinear_arith);
    assert(n.unlocked_for(m as u128) == x / y);
}

} // verus!
