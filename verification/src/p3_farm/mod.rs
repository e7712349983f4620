//! P3 multi-token farm: users stake several NEP-141 tokens (or NEAR) and farm
//! several tokens in proportion to their least staked token, with an extra
//! boost for a deposited Cheddy NFT.
pub mod helpers;
pub mod vault;
pub mod spec;
pub mod contract;
pub mod calls;
pub mod laws;
