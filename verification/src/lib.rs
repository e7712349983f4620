//! Verified core of the Cheddar token, the xCheddar lockup and the Cheddar
//! staking pools and farms.
pub mod u256;
pub mod account_map;
pub mod map_sum;
pub mod near;
pub mod p3_lib;
pub mod farming;
pub mod storage;
pub mod cheddar_coin;
pub mod p1_staking_pool;
pub mod p1_staking_pool_dyn;
pub mod p1_staking_pool_fixed;
pub mod p2_token_staking_fixed;
pub mod p3_farm;
pub mod p3_farm_nft;
pub mod p4_farm_nft;
pub mod xcheddar;
