//! P4 NFT farm: stake NFTs (with a Cheddar deposit per NFT) and farm several
//! fungible tokens, with an extra boost for a staked boost NFT.
pub mod helpers;
pub mod vault;
pub mod spec;
pub mod contract;
pub mod calls;
pub mod staking;
pub mod callbacks;
pub mod interfaces;
pub mod management;
pub mod laws;
