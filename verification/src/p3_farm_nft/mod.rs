//! NFT farm: users stake NFTs of listed collections, lock Cheddar for each NFT,
//! and farm tokens in proportion to their least staked collection.
pub mod helpers;
pub mod interfaces;
