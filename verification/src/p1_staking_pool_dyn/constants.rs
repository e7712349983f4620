//! Constants of the dynamic staking pool.
use vstd::prelude::*;

verus! {

/// one second in nanoseconds
pub const NANOSECONDS: u64 = 1_000_000_000;
/// round duration in nanoseconds
pub const ROUND: u64 = 1_000_000_000;
/// rounds in one minute
pub const ROUNDS_PER_MINUTE: u64 = 60;
/// seconds per round
pub const SEC_PER_ROUND: u64 = 1;
/// 1/1000 of a NEAR
pub const MILLI_NEAR: u128 = 1_000_000_000_000_000_000_000;
/// minimum stake: 0.01 NEAR
pub const MIN_STAKE: u128 = 10_000_000_000_000_000_000_000;
/// one NEAR in yocto
pub const E24: u128 = 1_000_000_000_000_000_000_000_000;
/// maximum stake
pub const MAX_STAKE: u128 = 100_000_000_000_000_000_000_000_000_000;
pub const ONE_YOCTO: u128 = 1;

} // verus!
