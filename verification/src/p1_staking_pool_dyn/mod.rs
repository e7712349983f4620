//! NEAR staking pool with a dynamic, per-second emission.
pub mod constants;
pub mod contract;
pub mod util;
pub mod vault;
