//! Answers of the NFT farm's view methods.
use vstd::prelude::*;

verus! {

/// Farming status of a user.
#[derive(Clone, PartialEq, Eq, Debug)]
pub struct Status {
    /// staked NFT token ids, per NFT collection
    pub stake_tokens: Vec<Vec<String>>,
    /// the min stake
    pub stake: u128,
    /// accumulated, not withdrawn farmed units
    pub farmed_units: u128,
    /// accumulated, not withdrawn farmed tokens, in the order of the farm tokens
    pub farmed_tokens: Vec<u128>,
    /// token id of a staked boost NFT, empty when none is staked
    pub boost_nfts: String,
    /// timestamp (in seconds) of the current round
    pub timestamp: u64,
    /// Cheddar locked by the user
    pub total_cheddar_staked: u128,
}

} // verus!
