//! Cheddar Coin: a NEP-141 fungible token with several minters, no fixed
//! total supply and vesting schedules. Accounts need no storage deposit: an
//! account is registered the first time it receives tokens.
pub mod metadata;
pub mod util;
pub mod vesting;

use crate::account_map::AccountMap;
use crate::map_sum::{lemma_sum_all_insert, lemma_sum_on_empty, sum_all};
use crate::near::{is_valid_account_id, parse_json_u128, spec_json_u128, spec_valid_account_id, CallContext, PromiseResult};
use crate::p3_lib::helpers::{contains_account, position};
use metadata::{FtMetadata, FtMetadataView, metadata_valid, opt_str_view, FT_METADATA_SPEC};
use vesting::{locked_at, VestingRecord};
use vstd::prelude::*;
use vstd::string::{StrSliceExecFns, StringExecFns, StringSliceAdditionalSpecFns};

verus! {

/// The Cheddar logo, an SVG image.
pub const CHEDDAR_ICON: &'static str = "<svg xmlns=\"http://www.w3.org/2000/svg\" viewBox=\"0 0 56 56\"><style>.a{fill:#F4C647;}.b{fill:#EEAF4B;}</style><path d=\"M45 19.5v5.5l4.8 0.6 0-11.4c-0.1-3.2-11.2-6.7-24.9-6.7 -13.7 0-24.8 3.6-24.9 6.7L0 32.5c0 3.2 10.7 7.1 24.5 7.1 0.2 0 0.3 0 0.5 0V21.5l-4.7-7.2L45 19.5z\" class=\"a\"/><path d=\"M25 31.5v-10l-4.7-7.2L45 19.5v5.5l-14-1.5v10C31 33.5 25 31.5 25 31.5z\" fill=\"#F9E295\"/><path d=\"M24.9 7.5C11.1 7.5 0 11.1 0 14.3s10.7 7.2 24.5 7.2c0.2 0 0.3 0 0.5 0l-4.7-7.2 25 5.2c2.8-0.9 4.4-4 4.4-5.2C49.8 11.1 38.6 7.5 24.9 7.5z\" class=\"b\"/><path d=\"M36 29v19.6c8.3 0 15.6-1 20-2.5V26.5L31 23.2 36 29z\" class=\"a\"/><path d=\"M31 23.2l5 5.8c8.2 0 15.6-1 19.9-2.5L31 23.2z\" class=\"b\"/><polygon points=\"36 29 36 48.5 31 42.5 31 23.2 \" fill=\"#FCDF76\"/></svg>";

/// Why a call is refused. A refused call fails as a whole (on chain it
/// panics): calls return the reason and leave the state as it was.
#[derive(Clone, Copy, PartialEq, Eq, Debug)]
pub enum Error {
    /// "can only be called by the owner"
    NotOwner,
    /// "not a minter"
    NotMinter,
    /// "already in the list"
    AlreadyMinter,
    /// "Requires attached deposit of exactly 1 yoctoNEAR"
    RequiresOneYocto,
    /// "Requires attached deposit at least 1 yoctoNEAR"
    RequiresDeposit,
    /// "Account ... is not registered"
    NotRegistered,
    /// "Sender and receiver should be different"
    SameAccount,
    /// "The amount should be a positive number" / "can't burn 0 tokens"
    ZeroAmount,
    /// "The account doesn't have enough balance"
    NotEnoughBalance,
    /// "Account with vesting, balance can't go lower than the locked amount"
    VestingLocked,
    /// "vesting amount must be > 0"
    ZeroVesting,
    /// "Cliff timestamp can't be later than vesting end timestamp"
    CliffAfterEnd,
    /// "account already vested"
    AlreadyVested,
    /// "account not vested"
    NotVested,
    /// "past the cliff, vesting can't be changed"
    PastCliff,
    /// "Account is invalid!"
    InvalidAccount,
    /// the metadata does not pass its validity check
    InvalidMetadata,
    /// an arithmetic operation overflowed
    ArithmeticOverflow,
}

/// `ft_on_transfer(sender_id, amount, msg)` on the receiver, then
/// `ft_resolve_transfer(sender_id, receiver_id, amount)` on this contract.
pub struct TransferCall {
    pub receiver_id: String,
    pub sender_id: String,
    pub amount: u128,
    pub msg: String,
}

pub struct Contract {
    pub metadata: FtMetadata,
    /// token balance of every registered account
    pub accounts: AccountMap<u128>,
    pub owner_id: String,
    pub minters: Vec<String>,
    pub total_supply: u128,
    /// vesting schedules
    pub vested: AccountMap<VestingRecord>,
}

/// The contract state as mathematical values.
pub struct CheddarView {
    pub metadata: FtMetadataView,
    pub accounts: Map<Seq<char>, u128>,
    pub owner_id: Seq<char>,
    pub minters: Seq<Seq<char>>,
    pub total_supply: u128,
    pub vested: Map<Seq<char>, VestingRecord>,
}

/// The account names of a list of accounts.
pub open spec fn names(v: Seq<String>) -> Seq<Seq<char>> {
    v.map_values(|s: String| s@)
}

impl View for Contract {
    type V = CheddarView;

    open spec fn view(&self) -> CheddarView {
        CheddarView {
            metadata: self.metadata@,
            accounts: self.accounts@,
            owner_id: self.owner_id@,
            minters: names(self.minters@),
            total_supply: self.total_supply,
            vested: self.vested@,
        }
    }
}

/// `min(a, b)`.
pub open spec fn min_u128(a: u128, b: u128) -> u128 {
    if a < b { a } else { b }
}

/// The amount the receiver of `ft_transfer_call` did not use, as reported by
/// the result of its `ft_on_transfer`: the reported amount capped at `amount`,
/// or all of `amount` when the call failed or its answer does not parse.
pub open spec fn unused_amount_spec(amount: u128, result: PromiseResult) -> u128 {
    match result {
        PromiseResult::Successful(value) => match spec_json_u128(value@) {
            Some(u) => min_u128(amount, u),
            None => amount,
        },
        _ => amount,
    }
}

impl CheddarView {
    /// Token balance of `a`, 0 when not registered.
    pub open spec fn balance_of(self, a: Seq<char>) -> u128 {
        if self.accounts.contains_key(a) { self.accounts[a] } else { 0 }
    }

    /// Minting `amount` to `a`, registering `a` when needed.
    pub open spec fn mint_spec(self, a: Seq<char>, amount: u128) -> Result<Self, Error> {
        if self.balance_of(a) + amount > u128::MAX || self.total_supply + amount > u128::MAX {
            Err(Error::ArithmeticOverflow)
        } else {
            Ok(CheddarView {
                accounts: self.accounts.insert(a, (self.balance_of(a) + amount) as u128),
                total_supply: (self.total_supply + amount) as u128,
                ..self
            })
        }
    }

    /// `ft_mint` by `caller` with `attached` yoctoNEAR.
    pub open spec fn ft_mint_spec(self, caller: Seq<char>, attached: u128, receiver: Seq<char>, amount: u128) -> Result<Self, Error> {
        if attached < 1 {
            Err(Error::RequiresDeposit)
        } else if !self.minters.contains(caller) {
            Err(Error::NotMinter)
        } else {
            self.mint_spec(receiver, amount)
        }
    }

    /// Burning `amount` from `a`.
    pub open spec fn burn_spec(self, a: Seq<char>, amount: u128) -> Result<Self, Error> {
        if amount == 0 {
            Err(Error::ZeroAmount)
        } else if !self.accounts.contains_key(a) {
            Err(Error::NotRegistered)
        } else if self.accounts[a] < amount {
            Err(Error::NotEnoughBalance)
        } else if self.total_supply < amount {
            Err(Error::ArithmeticOverflow)
        } else {
            Ok(CheddarView {
                accounts: self.accounts.insert(a, (self.accounts[a] - amount) as u128),
                total_supply: (self.total_supply - amount) as u128,
                ..self
            })
        }
    }

    /// Transferring `amount` from `sender` to `receiver` at time `now`. A
    /// vesting schedule keeps the locked amount in the sender's account, and
    /// is dropped once nothing is locked.
    pub open spec fn transfer_spec(self, sender: Seq<char>, receiver: Seq<char>, amount: u128, now: u64) -> Result<Self, Error> {
        if sender == receiver {
            Err(Error::SameAccount)
        } else if amount == 0 {
            Err(Error::ZeroAmount)
        } else if !self.accounts.contains_key(sender) {
            Err(Error::NotRegistered)
        } else if amount > self.accounts[sender] {
            Err(Error::NotEnoughBalance)
        } else {
            let left = (self.accounts[sender] - amount) as u128;
            let locked = if self.vested.contains_key(sender) { locked_at(self.vested[sender], now) } else { 0 };
            if self.vested.contains_key(sender) && locked != 0 && left < locked {
                Err(Error::VestingLocked)
            } else if self.balance_of(receiver) + amount > u128::MAX {
                Err(Error::ArithmeticOverflow)
            } else {
                Ok(CheddarView {
                    accounts: self.accounts.insert(sender, left).insert(receiver, (self.balance_of(receiver) + amount) as u128),
                    vested: if self.vested.contains_key(sender) && locked == 0 {
                        self.vested.remove(sender)
                    } else {
                        self.vested
                    },
                    ..self
                })
            }
        }
    }

    /// Giving back `unused` of an `ft_transfer_call` of `amount`: taken from the
    /// receiver (no more than it holds) and refunded to the sender, or burned
    /// when the sender's account is gone. Answers the amount kept by the
    /// receiver and the amount burned.
    pub open spec fn resolve_spec(self, sender: Seq<char>, receiver: Seq<char>, amount: u128, unused: u128) -> Result<(Self, (u128, u128)), Error> {
        if unused == 0 {
            Ok((self, (amount, 0u128)))
        } else if !self.accounts.contains_key(receiver) {
            Err(Error::NotRegistered)
        } else if self.accounts[receiver] == 0 {
            Ok((self, (amount, 0u128)))
        } else {
            let refund = min_u128(self.accounts[receiver], unused);
            let s1 = CheddarView {
                accounts: self.accounts.insert(receiver, (self.accounts[receiver] - refund) as u128),
                ..self
            };
            if refund > amount {
                Err(Error::ArithmeticOverflow)
            } else if s1.accounts.contains_key(sender) {
                if s1.accounts[sender] + refund > u128::MAX {
                    Err(Error::ArithmeticOverflow)
                } else {
                    Ok((
                        CheddarView { accounts: s1.accounts.insert(sender, (s1.accounts[sender] + refund) as u128), ..s1 },
                        ((amount - refund) as u128, 0u128),
                    ))
                }
            } else if s1.total_supply < refund {
                Err(Error::ArithmeticOverflow)
            } else {
                Ok((
                    CheddarView { total_supply: (s1.total_supply - refund) as u128, ..s1 },
                    ((amount - refund) as u128, refund),
                ))
            }
        }
    }
}

impl Contract {
    /// Well-formed maps.
    pub open spec fn wf(&self) -> bool {
        self.accounts.wf() && self.vested.wf()
    }

    /// Initializes the token with `owner_id` as owner and only minter, no supply.
    pub fn new(owner_id: String) -> (r: Contract)
        ensures
            r.wf(),
            r@.owner_id == owner_id@,
            r@.minters == seq![owner_id@],
            r@.total_supply == 0,
            r@.accounts == Map::<Seq<char>, u128>::empty(),
            r@.vested == Map::<Seq<char>, VestingRecord>::empty(),
            r@.metadata.spec == FT_METADATA_SPEC@,
            r@.metadata.name == "Cheddar"@,
            r@.metadata.symbol == "Cheddar"@,
            r@.metadata.icon == Some(CHEDDAR_ICON@),
            r@.metadata.reference is None,
            r@.metadata.reference_hash is None,
            r@.metadata.decimals == 24,
    {
        let m = FtMetadata {
            spec: String::from_str(FT_METADATA_SPEC),
            name: String::from_str("Cheddar"),
            symbol: String::from_str("Cheddar"),
            icon: Some(String::from_str(CHEDDAR_ICON)),
            reference: None,
            reference_hash: None,
            decimals: 24,
        };
        let mut minters = Vec::new();
        minters.push(owner_id.clone());
        proof {
            assert(names(minters@) =~= seq![owner_id@]);
        }
        Contract {
            metadata: m,
            accounts: AccountMap::new(),
            owner_id,
            minters,
            total_supply: 0,
            vested: AccountMap::new(),
        }
    }

    /// Returns account ID of the owner.
    pub fn get_owner_id(&self) -> (r: String)
        ensures
            r@ == self@.owner_id,
    {
        self.owner_id.clone()
    }

    /// Get the owner of this account.
    pub fn get_owner(&self) -> (r: String)
        ensures
            r@ == self@.owner_id,
    {
        self.owner_id.clone()
    }

    /// The registered minters.
    pub fn get_minters(&self) -> (r: &Vec<String>)
        ensures
            names(r@) == self@.minters,
    {
        &self.minters
    }

    /// The token metadata.
    pub fn ft_metadata(&self) -> (r: &FtMetadata)
        ensures
            r@ == self@.metadata,
    {
        &self.metadata
    }

    /// Total supply of the token.
    pub fn ft_total_supply(&self) -> (r: u128)
        ensures
            r == self@.total_supply,
    {
        self.total_supply
    }

    /// Token balance of `account_id` (0 when not registered).
    pub fn ft_balance_of(&self, account_id: &String) -> (r: u128)
        requires
            self.wf(),
        ensures
            r == self@.balance_of(account_id@),
    {
        match self.accounts.get(account_id) {
            Some(b) => *b,
            None => 0,
        }
    }

    fn assert_owner(&self, ctx: &CallContext) -> (r: Result<(), Error>)
        ensures
            r is Ok <==> ctx.predecessor@ == self@.owner_id,
            r is Err ==> r == Err::<(), Error>(Error::NotOwner),
    {
        if ctx.predecessor == self.owner_id {
            Ok(())
        } else {
            Err(Error::NotOwner)
        }
    }

    fn is_minter(&self, account_id: &String) -> (r: bool)
        ensures
            r == self@.minters.contains(account_id@),
    {
        proof {
            assert(contains_account(self.minters@, account_id@) == names(self.minters@).contains(account_id@)) by {
                if names(self.minters@).contains(account_id@) {
                    let j = choose|j: int| 0 <= j < names(self.minters@).len() && names(self.minters@)[j] == account_id@;
                    assert(self.minters@[j]@ == account_id@);
                }
                if contains_account(self.minters@, account_id@) {
                    let j = choose|j: int| 0 <= j < self.minters@.len() && #[trigger] self.minters@[j]@ == account_id@;
                    assert(names(self.minters@)[j] == account_id@);
                }
            }
        }
        match position(account_id, &self.minters) {
            Some(_) => true,
            None => false,
        }
    }

    /// Mints `amount` to `account_id`, registering it when needed.
    pub fn mint(&mut self, account_id: &String, amount: u128) -> (r: Result<(), Error>)
        requires
            old(self).wf(),
        ensures
            final(self).wf(),
            match old(self)@.mint_spec(account_id@, amount) {
                Ok(s) => r is Ok && final(self)@ == s,
                Err(e) => r == Err::<(), Error>(e) && final(self)@ == old(self)@,
            },
    {
        let b = self.ft_balance_of(account_id);
        if amount > u128::MAX - b || amount > u128::MAX - self.total_supply {
            return Err(Error::ArithmeticOverflow);
        }
        self.accounts.insert(account_id.clone(), b + amount);
        self.total_supply = self.total_supply + amount;
        Ok(())
    }

    /// Mints new tokens to `receiver_id`. Only a minter can mint, with at least
    /// 1 yoctoNEAR attached.
    pub fn ft_mint(&mut self, ctx: &CallContext, receiver_id: &String, amount: u128) -> (r: Result<(), Error>)
        requires
            old(self).wf(),
        ensures
            final(self).wf(),
            match old(self)@.ft_mint_spec(ctx.predecessor@, ctx.attached_deposit, receiver_id@, amount) {
                Ok(s) => r is Ok && final(self)@ == s,
                Err(e) => r == Err::<(), Error>(e) && final(self)@ == old(self)@,
            },
    {
        if ctx.attached_deposit < 1 {
            return Err(Error::RequiresDeposit);
        }
        if !self.is_minter(&ctx.predecessor) {
            return Err(Error::NotMinter);
        }
        self.mint(receiver_id, amount)
    }

    /// Burns `amount` from `account_id`.
    pub fn internal_burn(&mut self, account_id: &String, amount: u128) -> (r: Result<(), Error>)
        requires
            old(self).wf(),
        ensures
            final(self).wf(),
            match old(self)@.burn_spec(account_id@, amount) {
                Ok(s) => r is Ok && final(self)@ == s,
                Err(e) => r == Err::<(), Error>(e) && final(self)@ == old(self)@,
            },
    {
        if amount == 0 {
            return Err(Error::ZeroAmount);
        }
        let b = match self.accounts.get(account_id) {
            Some(b) => *b,
            None => return Err(Error::NotRegistered),
        };
        if b < amount {
            return Err(Error::NotEnoughBalance);
        }
        if self.total_supply < amount {
            return Err(Error::ArithmeticOverflow);
        }
        self.accounts.insert(account_id.clone(), b - amount);
        self.total_supply = self.total_supply - amount;
        Ok(())
    }

    /// Burns `amount` from the caller's own tokens. Requires 1 yoctoNEAR.
    pub fn self_burn(&mut self, ctx: &CallContext, amount: u128) -> (r: Result<(), Error>)
        requires
            old(self).wf(),
        ensures
            final(self).wf(),
            ctx.attached_deposit != 1 ==> r == Err::<(), Error>(Error::RequiresOneYocto) && final(self)@ == old(self)@,
            ctx.attached_deposit == 1 ==> match old(self)@.burn_spec(ctx.predecessor@, amount) {
                Ok(s) => r is Ok && final(self)@ == s,
                Err(e) => r == Err::<(), Error>(e) && final(self)@ == old(self)@,
            },
    {
        if ctx.attached_deposit != 1 {
            return Err(Error::RequiresOneYocto);
        }
        self.internal_burn(&ctx.predecessor, amount)
    }

    /// The owner adds a minter. Requires 1 yoctoNEAR.
    pub fn add_minter(&mut self, ctx: &CallContext, account_id: String) -> (r: Result<(), Error>)
        requires
            old(self).wf(),
        ensures
            final(self).wf(),
            ctx.attached_deposit != 1 ==> r == Err::<(), Error>(Error::RequiresOneYocto),
            ctx.attached_deposit == 1 && ctx.predecessor@ != old(self)@.owner_id ==> r == Err::<(), Error>(Error::NotOwner),
            ctx.attached_deposit == 1 && ctx.predecessor@ == old(self)@.owner_id && old(self)@.minters.contains(account_id@)
                ==> r == Err::<(), Error>(Error::AlreadyMinter),
            r is Err ==> final(self)@ == old(self)@,
            r is Ok <==> ctx.attached_deposit == 1 && ctx.predecessor@ == old(self)@.owner_id && !old(self)@.minters.contains(account_id@),
            r is Ok ==> final(self)@ == (CheddarView { minters: old(self)@.minters.push(account_id@), ..old(self)@ }),
    {
        if ctx.attached_deposit != 1 {
            return Err(Error::RequiresOneYocto);
        }
        match self.assert_owner(ctx) {
            Err(e) => return Err(e),
            Ok(_) => {},
        }
        if self.is_minter(&account_id) {
            return Err(Error::AlreadyMinter);
        }
        self.minters.push(account_id);
        proof {
            assert(names(self.minters@) =~= names(old(self).minters@).push(self.minters@.last()@));
        }
        Ok(())
    }

    /// The owner removes a minter; the last minter takes its place. Requires
    /// 1 yoctoNEAR.
    pub fn remove_minter(&mut self, ctx: &CallContext, account_id: &String) -> (r: Result<(), Error>)
        requires
            old(self).wf(),
        ensures
            final(self).wf(),
            ctx.attached_deposit != 1 ==> r == Err::<(), Error>(Error::RequiresOneYocto),
            ctx.attached_deposit == 1 && ctx.predecessor@ != old(self)@.owner_id ==> r == Err::<(), Error>(Error::NotOwner),
            ctx.attached_deposit == 1 && ctx.predecessor@ == old(self)@.owner_id && !old(self)@.minters.contains(account_id@)
                ==> r == Err::<(), Error>(Error::NotMinter),
            r is Err ==> final(self)@ == old(self)@,
            r is Ok <==> ctx.attached_deposit == 1 && ctx.predecessor@ == old(self)@.owner_id && old(self)@.minters.contains(account_id@),
            r is Ok ==> exists|i: int|
                0 <= i < old(self)@.minters.len() && old(self)@.minters[i] == account_id@
                    && (forall|j: int| 0 <= j < i ==> old(self)@.minters[j] != account_id@)
                    && final(self)@ == (CheddarView {
                        minters: old(self)@.minters.update(i, old(self)@.minters.last()).drop_last(),
                        ..old(self)@
                    }),
    {
        if ctx.attached_deposit != 1 {
            return Err(Error::RequiresOneYocto);
        }
        match self.assert_owner(ctx) {
            Err(e) => return Err(e),
            Ok(_) => {},
        }
        proof {
            assert(contains_account(self.minters@, account_id@) == names(self.minters@).contains(account_id@)) by {
                if names(self.minters@).contains(account_id@) {
                    let j = choose|j: int| 0 <= j < names(self.minters@).len() && names(self.minters@)[j] == account_id@;
                    assert(self.minters@[j]@ == account_id@);
                }
                if contains_account(self.minters@, account_id@) {
                    let j = choose|j: int| 0 <= j < self.minters@.len() && #[trigger] self.minters@[j]@ == account_id@;
                    assert(names(self.minters@)[j] == account_id@);
                }
            }
        }
        match position(account_id, &self.minters) {
            Some(inx) => {
                let ghost old_names = names(self.minters@);
                let _removed = self.minters.swap_remove(inx);
                proof {
                    assert(names(self.minters@) =~= old_names.update(inx as int, old_names.last()).drop_last());
                    assert forall|j: int| 0 <= j < inx implies old_names[j] != account_id@ by {
                        assert(old_names[j] == old(self).minters@[j]@);
                    }
                    assert(old_names[inx as int] == account_id@);
                    assert(self@ == (CheddarView {
                        minters: old(self)@.minters.update(inx as int, old(self)@.minters.last()).drop_last(),
                        ..old(self)@
                    }));
                }
                Ok(())
            },
            None => Err(Error::NotMinter),
        }
    }

    /// The owner sets the metadata icon. Requires 1 yoctoNEAR.
    pub fn set_metadata_icon(&mut self, ctx: &CallContext, svg_string: String) -> (r: Result<(), Error>)
        requires
            old(self).wf(),
        ensures
            final(self).wf(),
            r is Ok <==> ctx.attached_deposit == 1 && ctx.predecessor@ == old(self)@.owner_id,
            ctx.attached_deposit != 1 ==> r == Err::<(), Error>(Error::RequiresOneYocto),
            ctx.attached_deposit == 1 && ctx.predecessor@ != old(self)@.owner_id ==> r == Err::<(), Error>(Error::NotOwner),
            r is Err ==> final(self)@ == old(self)@,
            r is Ok ==> final(self)@ == (CheddarView {
                metadata: FtMetadataView { icon: Some(svg_string@), ..old(self)@.metadata },
                ..old(self)@
            }),
    {
        if ctx.attached_deposit != 1 {
            return Err(Error::RequiresOneYocto);
        }
        match self.assert_owner(ctx) {
            Err(e) => return Err(e),
            Ok(_) => {},
        }
        self.metadata.icon = Some(svg_string);
        Ok(())
    }

    /// The owner sets the metadata reference and its hash (the bytes of
    /// `reference_hash`, which must be 32). Requires 1 yoctoNEAR.
    pub fn set_metadata_reference(&mut self, ctx: &CallContext, reference: String, reference_hash: String) -> (r: Result<(), Error>)
        requires
            old(self).wf(),
        ensures
            final(self).wf(),
            ({
                let m = FtMetadataView {
                    reference: Some(reference@),
                    reference_hash: Some(vstd::utf8::encode_utf8(reference_hash@)),
                    ..old(self)@.metadata
                };
                &&& ctx.attached_deposit != 1 ==> r == Err::<(), Error>(Error::RequiresOneYocto)
                &&& ctx.attached_deposit == 1 && ctx.predecessor@ != old(self)@.owner_id ==> r == Err::<(), Error>(Error::NotOwner)
                &&& ctx.attached_deposit == 1 && ctx.predecessor@ == old(self)@.owner_id && !metadata_valid(m)
                    ==> r == Err::<(), Error>(Error::InvalidMetadata)
                &&& r is Ok <==> ctx.attached_deposit == 1 && ctx.predecessor@ == old(self)@.owner_id && metadata_valid(m)
                &&& r is Ok ==> final(self)@ == (CheddarView { metadata: m, ..old(self)@ })
                &&& r is Err ==> final(self)@ == old(self)@
            }),
    {
        if ctx.attached_deposit != 1 {
            return Err(Error::RequiresOneYocto);
        }
        match self.assert_owner(ctx) {
            Err(e) => return Err(e),
            Ok(_) => {},
        }
        let hash = reference_hash.as_str().as_bytes_vec();
        let m = FtMetadata {
            spec: self.metadata.spec.clone(),
            name: self.metadata.name.clone(),
            symbol: self.metadata.symbol.clone(),
            icon: match &self.metadata.icon {
                Some(i) => Some(i.clone()),
                None => None,
            },
            reference: Some(reference),
            reference_hash: Some(hash),
            decimals: self.metadata.decimals,
        };
        if !m.is_valid() {
            return Err(Error::InvalidMetadata);
        }
        self.metadata = m;
        Ok(())
    }

    /// The owner hands ownership to `owner_id`, which must be a valid account id.
    pub fn set_owner(&mut self, ctx: &CallContext, owner_id: String) -> (r: Result<(), Error>)
        requires
            old(self).wf(),
        ensures
            final(self).wf(),
            ctx.predecessor@ != old(self)@.owner_id ==> r == Err::<(), Error>(Error::NotOwner),
            ctx.predecessor@ == old(self)@.owner_id && !spec_valid_account_id(vstd::utf8::encode_utf8(owner_id@))
                ==> r == Err::<(), Error>(Error::InvalidAccount),
            r is Ok <==> ctx.predecessor@ == old(self)@.owner_id && spec_valid_account_id(vstd::utf8::encode_utf8(owner_id@)),
            r is Ok ==> final(self)@ == (CheddarView { owner_id: owner_id@, ..old(self)@ }),
            r is Err ==> final(self)@ == old(self)@,
    {
        match self.assert_owner(ctx) {
            Err(e) => return Err(e),
            Ok(_) => {},
        }
        if !is_valid_account_id(owner_id.as_str().as_bytes()) {
            return Err(Error::InvalidAccount);
        }
        self.owner_id = owner_id;
        Ok(())
    }

    /// Amount of tokens of `account` locked by vesting at time `now`.
    pub fn get_locked_amount(&self, account: &String, now: u64) -> (r: u128)
        requires
            self.wf(),
        ensures
            r == (if self@.vested.contains_key(account@) { locked_at(self@.vested[account@], now) } else { 0 }),
    {
        match self.vested.get(account) {
            Some(v) => v.compute_amount_locked(now),
            None => 0,
        }
    }

    /// Vesting schedule of `account_id`, if it has one.
    pub fn get_vesting_info(&self, account_id: &String) -> (r: Option<VestingRecord>)
        requires
            self.wf(),
        ensures
            r == (if self@.vested.contains_key(account_id@) { Some(self@.vested[account_id@]) } else { None }),
    {
        match self.vested.get(account_id) {
            Some(v) => Some(*v),
            None => None,
        }
    }

    /// A minter mints `amount` to `receiver_id` locked by a vesting schedule.
    pub fn mint_vested(&mut self, ctx: &CallContext, receiver_id: &String, amount: u128, cliff_timestamp: u64, end_timestamp: u64) -> (r: Result<(), Error>)
        requires
            old(self).wf(),
        ensures
            final(self).wf(),
            match old(self)@.ft_mint_spec(ctx.predecessor@, ctx.attached_deposit, receiver_id@, amount) {
                Err(e) => r == Err::<(), Error>(e) && final(self)@ == old(self)@,
                Ok(s) => if amount == 0 {
                    r == Err::<(), Error>(Error::ZeroVesting) && final(self)@ == old(self)@
                } else if cliff_timestamp > end_timestamp {
                    r == Err::<(), Error>(Error::CliffAfterEnd) && final(self)@ == old(self)@
                } else if old(self)@.vested.contains_key(receiver_id@) {
                    r == Err::<(), Error>(Error::AlreadyVested) && final(self)@ == old(self)@
                } else {
                    r is Ok && final(self)@ == (CheddarView {
                        vested: s.vested.insert(receiver_id@, VestingRecord { amount, cliff_timestamp, end_timestamp }),
                        ..s
                    })
                },
            },
    {
        if ctx.attached_deposit < 1 {
            return Err(Error::RequiresDeposit);
        }
        if !self.is_minter(&ctx.predecessor) {
            return Err(Error::NotMinter);
        }
        let b = self.ft_balance_of(receiver_id);
        if amount > u128::MAX - b || amount > u128::MAX - self.total_supply {
            return Err(Error::ArithmeticOverflow);
        }
        if amount == 0 {
            return Err(Error::ZeroVesting);
        }
        if cliff_timestamp > end_timestamp {
            return Err(Error::CliffAfterEnd);
        }
        if self.vested.contains_key(receiver_id) {
            return Err(Error::AlreadyVested);
        }
        let _ = self.mint(receiver_id, amount);
        let record = VestingRecord::new(amount, cliff_timestamp, end_timestamp);
        self.vested.insert(receiver_id.clone(), record);
        Ok(())
    }

    /// The owner cancels the vesting of `account_id`: the tokens not vested yet
    /// (those still locked at the call's time) are burned, the vested ones stay
    /// with the account. Requires 1 yoctoNEAR.
    pub fn cancel_vesting(&mut self, ctx: &CallContext, account_id: &String) -> (r: Result<(), Error>)
        requires
            old(self).wf(),
        ensures
            final(self).wf(),
            ({
                let o = old(self)@;
                if ctx.attached_deposit != 1 {
                    r == Err::<(), Error>(Error::RequiresOneYocto) && final(self)@ == o
                } else if ctx.predecessor@ != o.owner_id {
                    r == Err::<(), Error>(Error::NotOwner) && final(self)@ == o
                } else if !o.vested.contains_key(account_id@) {
                    r == Err::<(), Error>(Error::NotVested) && final(self)@ == o
                } else if locked_at(o.vested[account_id@], ctx.block_timestamp) == 0 {
                    r == Err::<(), Error>(Error::PastCliff) && final(self)@ == o
                } else {
                    match o.burn_spec(account_id@, locked_at(o.vested[account_id@], ctx.block_timestamp) as u128) {
                        Err(e) => r == Err::<(), Error>(e) && final(self)@ == o,
                        Ok(s) => r is Ok && final(self)@ == (CheddarView { vested: s.vested.remove(account_id@), ..s }),
                    }
                }
            }),
    {
        if ctx.attached_deposit != 1 {
            return Err(Error::RequiresOneYocto);
        }
        match self.assert_owner(ctx) {
            Err(e) => return Err(e),
            Ok(_) => {},
        }
        let vesting = match self.vested.get(account_id) {
            Some(v) => *v,
            None => return Err(Error::NotVested),
        };
        let locked = vesting.compute_amount_locked(ctx.block_timestamp);
        if locked == 0 {
            return Err(Error::PastCliff);
        }
        match self.internal_burn(account_id, locked) {
            Err(e) => return Err(e),
            Ok(_) => {},
        }
        let _ = self.vested.remove(account_id);
        Ok(())
    }

    /// Transfers `amount` from `sender_id` to `receiver_id` at time `now`.
    /// Refused when sender and receiver are the same, the amount is zero, the
    /// sender is not registered or lacks the balance, or locked vesting tokens
    /// would be spent. An `Err` stands for a failed call (the call panics): nothing of it persists.
    pub fn internal_transfer(&mut self, sender_id: &String, receiver_id: &String, amount: u128, now: u64) -> (r: Result<(), Error>)
        requires
            old(self).wf(),
        ensures
            final(self).wf(),
            match old(self)@.transfer_spec(sender_id@, receiver_id@, amount, now) {
                Ok(s) => r is Ok && final(self)@ == s,
                Err(e) => r == Err::<(), Error>(e) && final(self)@ == old(self)@,
            },
    {
        if *sender_id == *receiver_id {
            return Err(Error::SameAccount);
        }
        if amount == 0 {
            return Err(Error::ZeroAmount);
        }
        let sb = match self.accounts.get(sender_id) {
            Some(b) => *b,
            None => return Err(Error::NotRegistered),
        };
        if amount > sb {
            return Err(Error::NotEnoughBalance);
        }
        let left = sb - amount;
        let mut drop_vesting = false;
        match self.vested.get(sender_id) {
            Some(vesting) => {
                let locked = vesting.compute_amount_locked(now);
                if locked == 0 {
                    drop_vesting = true;
                } else if left < locked {
                    return Err(Error::VestingLocked);
                }
            },
            None => {},
        }
        let rb = self.ft_balance_of(receiver_id);
        if amount > u128::MAX - rb {
            return Err(Error::ArithmeticOverflow);
        }
        self.accounts.insert(sender_id.clone(), left);
        if drop_vesting {
            let _ = self.vested.remove(sender_id);
        }
        self.accounts.insert(receiver_id.clone(), rb + amount);
        Ok(())
    }

    /// Transfers `amount` from the caller to `receiver_id`. Requires 1 yoctoNEAR.
    pub fn ft_transfer(&mut self, ctx: &CallContext, receiver_id: &String, amount: u128) -> (r: Result<(), Error>)
        requires
            old(self).wf(),
        ensures
            final(self).wf(),
            ctx.attached_deposit != 1 ==> r == Err::<(), Error>(Error::RequiresOneYocto) && final(self)@ == old(self)@,
            ctx.attached_deposit == 1 ==> match old(self)@.transfer_spec(ctx.predecessor@, receiver_id@, amount, ctx.block_timestamp) {
                Ok(s) => r is Ok && final(self)@ == s,
                Err(e) => r == Err::<(), Error>(e) && final(self)@ == old(self)@,
            },
    {
        if ctx.attached_deposit != 1 {
            return Err(Error::RequiresOneYocto);
        }
        self.internal_transfer(&ctx.predecessor, receiver_id, amount, ctx.block_timestamp)
    }

    /// Transfers `amount` from the caller to `receiver_id` and asks for the
    /// receiver's `ft_on_transfer` and this contract's `ft_resolve_transfer`.
    /// Requires 1 yoctoNEAR.
    pub fn ft_transfer_call(&mut self, ctx: &CallContext, receiver_id: &String, amount: u128, msg: String) -> (r: Result<TransferCall, Error>)
        requires
            old(self).wf(),
        ensures
            final(self).wf(),
            ctx.attached_deposit != 1 ==> (r matches Err(e) && e == Error::RequiresOneYocto && final(self)@ == old(self)@),
            ctx.attached_deposit == 1 ==> match old(self)@.transfer_spec(ctx.predecessor@, receiver_id@, amount, ctx.block_timestamp) {
                Ok(s) => r matches Ok(c) && final(self)@ == s && c.receiver_id@ == receiver_id@
                    && c.sender_id@ == ctx.predecessor@ && c.amount == amount && c.msg@ == msg@,
                Err(e) => r matches Err(x) && x == e && final(self)@ == old(self)@,
            },
    {
        if ctx.attached_deposit != 1 {
            return Err(Error::RequiresOneYocto);
        }
        match self.internal_transfer(&ctx.predecessor, receiver_id, amount, ctx.block_timestamp) {
            Err(e) => Err(e),
            Ok(_) => Ok(TransferCall {
                receiver_id: receiver_id.clone(),
                sender_id: ctx.predecessor.clone(),
                amount,
                msg,
            }),
        }
    }

    /// The amount the receiver did not use, from the result of its
    /// `ft_on_transfer` (a JSON `U128`).
    pub fn unused_amount(amount: u128, result: &PromiseResult) -> (r: u128)
        ensures
            r == unused_amount_spec(amount, *result),
    {
        match result {
            PromiseResult::Successful(value) => match parse_json_u128(value.as_slice()) {
                Some(u) => if amount < u { amount } else { u },
                None => amount,
            },
            _ => amount,
        }
    }

    /// Gives back `unused` of an `ft_transfer_call` of `amount` from
    /// `receiver_id` to `sender_id`, or burns it when the sender's account is
    /// gone. Returns the amount kept by the receiver and the amount burned.
    pub fn resolve_unused(&mut self, sender_id: &String, receiver_id: &String, amount: u128, unused: u128) -> (r: Result<(u128, u128), Error>)
        requires
            old(self).wf(),
        ensures
            final(self).wf(),
            match old(self)@.resolve_spec(sender_id@, receiver_id@, amount, unused) {
                Ok((s, res)) => r == Ok::<(u128, u128), Error>(res) && final(self)@ == s,
                Err(e) => r == Err::<(u128, u128), Error>(e) && final(self)@ == old(self)@,
            },
    {
        if unused == 0 {
            return Ok((amount, 0));
        }
        let rb = match self.accounts.get(receiver_id) {
            Some(b) => *b,
            None => return Err(Error::NotRegistered),
        };
        if rb == 0 {
            return Ok((amount, 0));
        }
        let refund = if rb < unused { rb } else { unused };
        if refund > amount {
            return Err(Error::ArithmeticOverflow);
        }
        let ghost old_accounts = self@.accounts;
        let ghost s1_accounts = old_accounts.insert(receiver_id@, (rb - refund) as u128);
        let sender_balance = if *sender_id == *receiver_id {
            Some(rb - refund)
        } else {
            match self.accounts.get(sender_id) {
                Some(b) => Some(*b),
                None => None,
            }
        };
        proof {
            assert(sender_balance is Some <==> s1_accounts.contains_key(sender_id@));
            if sender_balance is Some {
                assert(sender_balance->0 == s1_accounts[sender_id@]);
            }
        }
        match sender_balance {
            Some(sb) => {
                if refund > u128::MAX - sb {
                    return Err(Error::ArithmeticOverflow);
                }
                self.accounts.insert(receiver_id.clone(), rb - refund);
                self.accounts.insert(sender_id.clone(), sb + refund);
                Ok((amount - refund, 0))
            },
            None => {
                if self.total_supply < refund {
                    return Err(Error::ArithmeticOverflow);
                }
                self.accounts.insert(receiver_id.clone(), rb - refund);
                self.total_supply = self.total_supply - refund;
                Ok((amount - refund, refund))
            },
        }
    }

    /// Settles an `ft_transfer_call` of `amount` from `sender_id` to
    /// `receiver_id` after the receiver's `ft_on_transfer` answered `result`:
    /// the unused part is refunded to the sender or burned. Returns the amount
    /// credited to the receiver and the amount burned.
    pub fn ft_resolve_transfer_adjust(&mut self, sender_id: &String, receiver_id: &String, amount: u128, result: &PromiseResult) -> (r: Result<(u128, u128), Error>)
        requires
            old(self).wf(),
            !(*result is NotReady),
        ensures
            final(self).wf(),
            match old(self)@.resolve_spec(sender_id@, receiver_id@, amount, unused_amount_spec(amount, *result)) {
                Ok((s, res)) => r == Ok::<(u128, u128), Error>(res) && final(self)@ == s,
                Err(e) => r == Err::<(u128, u128), Error>(e) && final(self)@ == old(self)@,
            },
    {
        let unused = Self::unused_amount(amount, result);
        self.resolve_unused(sender_id, receiver_id, amount, unused)
    }
}

/// A transfer moves `amount` from the sender to the receiver: their balances
/// together stay the same, no other balance changes, and the total supply
/// stays the same.
pub proof fn law_transfer_conserves(c: CheddarView, sender: Seq<char>, receiver: Seq<char>, amount: u128, now: u64)
    requires
        c.transfer_spec(sender, receiver, amount, now) is Ok,
    ensures
        ({
            let n = c.transfer_spec(sender, receiver, amount, now)->Ok_0;
            &&& n.balance_of(sender) == c.balance_of(sender) - amount
            &&& n.balance_of(receiver) == c.balance_of(receiver) + amount
            &&& n.total_supply == c.total_supply
            &&& forall|a: Seq<char>| a != sender && a != receiver ==> #[trigger] n.balance_of(a) == c.balance_of(a)
        }),
{
}

/// Burning what was just minted to a registered account gives back the
/// balances and the supply from before the mint.
pub proof fn law_burn_undoes_mint(c: CheddarView, a: Seq<char>, amount: u128)
    requires
        amount > 0,
        c.accounts.contains_key(a),
        c.mint_spec(a, amount) is Ok,
    ensures
        c.mint_spec(a, amount)->Ok_0.burn_spec(a, amount) is Ok,
        c.mint_spec(a, amount)->Ok_0.burn_spec(a, amount)->Ok_0 == c,
{
    let m = c.mint_spec(a, amount)->Ok_0;
    let b = m.burn_spec(a, amount)->Ok_0;
    assert(b.accounts =~= c.accounts);
}

/// Minting raises the receiver's balance and the total supply by the same
/// amount and leaves every other balance alone.
pub proof fn law_mint_raises_supply(c: CheddarView, a: Seq<char>, amount: u128)
    requires
        c.mint_spec(a, amount) is Ok,
    ensures
        ({
            let n = c.mint_spec(a, amount)->Ok_0;
            &&& n.balance_of(a) == c.balance_of(a) + amount
            &&& n.total_supply == c.total_supply + amount
            &&& forall|x: Seq<char>| x != a ==> #[trigger] n.balance_of(x) == c.balance_of(x)
        }),
{
}

/// Settling an `ft_transfer_call`: what the receiver keeps and what went back
/// (refunded or burned) add up to the amount sent; the total supply falls by
/// exactly the burned amount.
pub proof fn law_resolve_accounts_for_amount(c: CheddarView, sender: Seq<char>, receiver: Seq<char>, amount: u128, unused: u128)
    requires
        unused <= amount,
        sender != receiver,
        c.resolve_spec(sender, receiver, amount, unused) is Ok,
    ensures
        ({
            let (n, (used, burned)) = c.resolve_spec(sender, receiver, amount, unused)->Ok_0;
            &&& used <= amount
            &&& n.total_supply == c.total_supply - burned
            &&& c.balance_of(receiver) - n.balance_of(receiver) == amount - used
            &&& burned > 0 ==> n.balance_of(sender) == c.balance_of(sender)
            &&& burned == 0 ==> n.balance_of(sender) == c.balance_of(sender) + (amount - used)
        }),
{
}

/// Tokens locked by a vesting schedule never leave the account: after a
/// transfer the sender still holds at least what is locked at that time.
pub proof fn law_transfer_keeps_locked(c: CheddarView, sender: Seq<char>, receiver: Seq<char>, amount: u128, now: u64)
    requires
        c.transfer_spec(sender, receiver, amount, now) is Ok,
        c.vested.contains_key(sender),
    ensures
        c.transfer_spec(sender, receiver, amount, now)->Ok_0.balance_of(sender) >= locked_at(c.vested[sender], now),
{
}

/// A balance as a number.
pub open spec fn balance_value() -> spec_fn(u128) -> int {
    |b: u128| b as int
}

impl CheddarView {
    /// The total supply is the sum of all balances.
    pub open spec fn supply_matches(self) -> bool {
        &&& self.accounts.dom().finite()
        &&& self.total_supply == sum_all(self.accounts, balance_value())
    }
}

/// A new token has no supply and no balances: the supply is their sum.
pub proof fn law_new_token_supply_matches(c: CheddarView)
    requires
        c.accounts == Map::<Seq<char>, u128>::empty(),
        c.total_supply == 0,
    ensures
        c.supply_matches(),
{
    assert(c.accounts.dom() =~= Set::empty());
    lemma_sum_on_empty(c.accounts, balance_value());
}

/// Minting keeps the total supply equal to the sum of the balances.
pub proof fn law_mint_keeps_supply(c: CheddarView, a: Seq<char>, amount: u128)
    requires
        c.supply_matches(),
    ensures
        c.mint_spec(a, amount) matches Ok(n) ==> n.supply_matches(),
{
    lemma_sum_all_insert(c.accounts, balance_value(), a, (c.balance_of(a) + amount) as u128);
}

/// Burning keeps the total supply equal to the sum of the balances.
pub proof fn law_burn_keeps_supply(c: CheddarView, a: Seq<char>, amount: u128)
    requires
        c.supply_matches(),
    ensures
        c.burn_spec(a, amount) matches Ok(n) ==> n.supply_matches(),
{
    if c.accounts.contains_key(a) && c.accounts[a] >= amount {
        lemma_sum_all_insert(c.accounts, balance_value(), a, (c.accounts[a] - amount) as u128);
    }
}

/// Transfers keep the total supply equal to the sum of the balances.
pub proof fn law_transfer_keeps_supply(c: CheddarView, sender: Seq<char>, receiver: Seq<char>, amount: u128, now: u64)
    requires
        c.supply_matches(),
    ensures
        c.transfer_spec(sender, receiver, amount, now) matches Ok(n) ==> n.supply_matches(),
{
    if c.transfer_spec(sender, receiver, amount, now) is Ok {
        let left = (c.accounts[sender] - amount) as u128;
        let m1 = c.accounts.insert(sender, left);
        lemma_sum_all_insert(c.accounts, balance_value(), sender, left);
        lemma_sum_all_insert(m1, balance_value(), receiver, (c.balance_of(receiver) + amount) as u128);
        assert(m1.contains_key(receiver) == c.accounts.contains_key(receiver));
    }
}

/// Settling an `ft_transfer_call` keeps the total supply equal to the sum of
/// the balances: what leaves the receiver is refunded or burned.
pub proof fn law_resolve_keeps_supply(c: CheddarView, sender: Seq<char>, receiver: Seq<char>, amount: u128, unused: u128)
    requires
        c.supply_matches(),
    ensures
        c.resolve_spec(sender, receiver, amount, unused) matches Ok((n, _)) ==> n.supply_matches(),
{
    if c.resolve_spec(sender, receiver, amount, unused) is Ok && unused != 0 && c.accounts[receiver] != 0 {
        let refund = min_u128(c.accounts[receiver], unused);
        let m1 = c.accounts.insert(receiver, (c.accounts[receiver] - refund) as u128);
        lemma_sum_all_insert(c.accounts, balance_value(), receiver, (c.accounts[receiver] - refund) as u128);
        if m1.contains_key(sender) {
            lemma_sum_all_insert(m1, balance_value(), sender, (m1[sender] + refund) as u128);
        }
    }
}

} // verus!
