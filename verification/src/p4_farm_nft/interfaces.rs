//! Answers of the NFT farm's view methods.
use vstd::prelude::*;

verus! {

/// Farm parameters and totals.
pub struct P4ContractParams {
    pub is_active: bool,
    pub owner_id: String,
    pub stake_tokens: Vec<String>,
    pub stake_rates: Vec<u128>,
    pub farm_unit_emission: u128,
    pub farm_tokens: Vec<String>,
    pub farm_token_rates: Vec<u128>,
    pub farm_deposits: Vec<u128>,
    pub farming_start: u64,
    pub farming_end: u64,
    /// NFT contracts whose NFTs boost the farming
    pub boost_nft_contracts: Vec<String>,
    /// number of staked NFTs, per collection
    pub total_staked: Vec<u128>,
    /// total harvested tokens, per farm token
    pub total_farmed: Vec<u128>,
    /// number of boost NFTs, per boost contract
    pub total_boost: Vec<u128>,
    /// the farm charges no fee: always 0
    pub fee_rate: u128,
    /// number of registered accounts
    pub accounts_registered: u64,
    /// Cheddar locked per staked NFT
    pub cheddar_rate: u128,
    pub cheddar: String,
}

/// Farming status of a user.
pub struct P4Status {
    /// staked NFT token ids, per collection
    pub stake_tokens: Vec<Vec<String>>,
    /// the staking units
    pub stake: u128,
    /// accumulated, not withdrawn farmed units
    pub farmed_units: u128,
    /// the farmed units in each farm token
    pub farmed_tokens: Vec<u128>,
    /// the boost NFT as `nft_contract@token_id`, empty when none
    pub boost_nfts: String,
    /// timestamp (in seconds) of the current round
    pub timestamp: u64,
    /// Cheddar locked by the user
    pub total_cheddar_staked: u128,
}

} // verus!
