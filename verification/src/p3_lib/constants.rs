//! Farm constants.
use vstd::prelude::*;

verus! {

/// one second in nanoseconds
pub const SECOND: u64 = 1_000_000_000;
/// round duration in seconds
pub const ROUND: u64 = 60;
/// round duration in nanoseconds
pub const ROUND_NS: u64 = 60_000_000_000;
pub const ONE_YOCTO: u128 = 1;
/// 0.06 NEAR
pub const STORAGE_COST: u128 = 60_000_000_000_000_000_000_000;
/// E24 is 1 in yocto
pub const E24: u128 = 1_000_000_000_000_000_000_000_000;
pub const BASIS_P: u128 = 10_000;
pub const MAX_STAKE: u128 = 100_000_000_000_000_000_000_000_000_000;
/// accumulator overflow, used to correctly update the reward accumulator.
pub const ACC_OVERFLOW: u128 = 10_000_000;
/// account name standing for the native NEAR token
pub const NEAR_TOKEN: &'static str = "near";

} // verus!
