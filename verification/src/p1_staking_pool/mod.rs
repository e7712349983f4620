//! NEAR staking pool with epoch based rewards.
pub mod account;
pub mod contract;
pub mod vault;
