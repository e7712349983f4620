//! Rounds of the dynamic staking pool.
use super::constants::{NANOSECONDS, ROUND, SEC_PER_ROUND};
use vstd::prelude::*;

verus! {

/// The round of a block timestamp in nanoseconds.
pub fn current_round(block_timestamp: u64) -> (r: u64)
    ensures
        r == block_timestamp / ROUND,
{
    block_timestamp / ROUND
}

/// The round of a unix timestamp in seconds.
pub fn round_from_unix(unix_timestamp: u64) -> (r: u64)
    ensures
        r == unix_timestamp * SEC_PER_ROUND,
{
    assert(ROUND / NANOSECONDS == SEC_PER_ROUND);
    unix_timestamp * SEC_PER_ROUND
}

/// The unix timestamp in seconds of a round.
pub fn round_to_unix(round: u64) -> (r: u64)
    ensures
        r == round / SEC_PER_ROUND,
{
    round / SEC_PER_ROUND
}

/// Converting a unix timestamp to its round and back gives the timestamp again.
pub proof fn law_round_unix_roundtrip(unix_timestamp: u64)
    ensures
        (unix_timestamp * SEC_PER_ROUND) / (SEC_PER_ROUND as int) == unix_timestamp,
{
}

} // verus!
