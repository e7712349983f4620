//! What a contract call sees of the blockchain, and the few computations the
//! contracts take from the NEAR SDK.
use vstd::prelude::*;
use vstd::string::StringSliceAdditionalSpecFns;

verus! {

/// The environment of one contract call: who calls, when, and with which deposit.
pub struct CallContext {
    /// The account that called the contract (`env::predecessor_account_id`).
    pub predecessor: String,
    /// The account that signed the transaction (`env::signer_account_id`).
    pub signer: String,
    /// The contract's own account (`env::current_account_id`).
    pub current_account: String,
    /// Block timestamp in nanoseconds (`env::block_timestamp`).
    pub block_timestamp: u64,
    /// Attached deposit in yoctoNEAR (`env::attached_deposit`).
    pub attached_deposit: u128,
}

/// Result of a cross-contract call as seen by its callback.
pub enum PromiseResult {
    NotReady,
    Successful(Vec<u8>),
    Failed,
}

/// A lowercase ASCII letter or a digit.
pub open spec fn account_alnum(c: u8) -> bool {
    97 <= c <= 122 || 48 <= c <= 57
}

/// One of the separators `-`, `_` and `.`.
pub open spec fn account_separator(c: u8) -> bool {
    c == 45 || c == 95 || c == 46
}

/// A valid NEAR account id: 2 to 64 bytes, each a lowercase letter, a digit
/// or a separator (`-`, `_`, `.`), with no separator first, last, or right
/// after another.
pub open spec fn spec_valid_account_id(bytes: Seq<u8>) -> bool {
    &&& 2 <= bytes.len() <= 64
    &&& forall|i: int| 0 <= i < bytes.len() ==> account_alnum(#[trigger] bytes[i]) || account_separator(bytes[i])
    &&& forall|i: int| 0 <= i < bytes.len() && account_separator(#[trigger] bytes[i])
        ==> 0 < i < bytes.len() - 1 && !account_separator(bytes[i - 1])
}

/// Between 2 and 64 bytes, each a lowercase ASCII letter or a digit.
pub open spec fn plain_account_bytes(b: Seq<u8>) -> bool {
    &&& 2 <= b.len() <= 64
    &&& forall|i: int|
        0 <= i < b.len() ==> (97 <= #[trigger] b[i] <= 122 || 48 <= b[i] <= 57)
}

/// A name of 2 to 64 lowercase letters and digits is a valid account id.
pub proof fn lemma_plain_account_valid(b: Seq<u8>)
    requires
        plain_account_bytes(b),
    ensures
        spec_valid_account_id(b),
{
}

/// Calls `near_sdk::env::is_valid_account_id`. The claim: it answers
/// `spec_valid_account_id` of the bytes (the function checks the length
/// bounds, then walks the bytes rejecting any other character, a separator
/// first or after another, and a separator last).
#[verifier::external_body]
pub fn is_valid_account_id(account_id: &[u8]) -> (r: bool)
    ensures
        r == spec_valid_account_id(account_id@),
{
    near_sdk::env::is_valid_account_id(account_id)
}

/// Calls `<near_sdk::AccountId as FromStr>::from_str` and hands back the
/// account name. The claim: it succeeds exactly when
/// `is_valid_account_id` accepts the bytes of the string (the source validates
/// with that function), and then keeps the characters unchanged.
#[verifier::external_body]
pub fn parse_account_id(s: &str) -> (r: Option<String>)
    ensures
        r is Some <==> spec_valid_account_id(s.spec_bytes()),
        r matches Some(id) ==> id@ == s@,
{
    match s.parse::<near_sdk::AccountId>() {
        Ok(id) => Some(id.to_string()),
        Err(_) => None,
    }
}

/// The amount that a JSON-encoded `U128` denotes, if the bytes parse as one.
pub uninterp spec fn spec_json_u128(bytes: Seq<u8>) -> Option<u128>;

/// Calls `near_sdk::serde_json::from_slice::<near_sdk::json_types::U128>`.
/// The claim: the outcome is a function of the bytes alone.
#[verifier::external_body]
pub fn parse_json_u128(bytes: &[u8]) -> (r: Option<u128>)
    ensures
        r == spec_json_u128(bytes@),
{
    match near_sdk::serde_json::from_slice::<near_sdk::json_types::U128>(bytes) {
        Ok(v) => Some(v.0),
        Err(_) => None,
    }
}

/// Price of one byte of storage in yoctoNEAR.
pub const STORAGE_PRICE_PER_BYTE: u128 = 10_000_000_000_000_000_000;

/// Calls `near_sdk::env::storage_byte_cost`, which returns the SDK's
/// `STORAGE_PRICE_PER_BYTE` constant, 10^19 yoctoNEAR.
#[verifier::external_body]
pub fn storage_byte_cost() -> (r: u128)
    ensures
        r == STORAGE_PRICE_PER_BYTE,
{
    near_sdk::env::storage_byte_cost()
}

} // verus!
