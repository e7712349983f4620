//! Storage-management answers (NEP-145) of the farms.
use vstd::prelude::*;

verus! {

/// Storage balance of an account.
#[derive(Clone, Copy, PartialEq, Eq)]
pub struct StorageBalance {
    pub total: u128,
    pub available: u128,
}

/// Minimum and maximum storage deposit the contract accepts.
#[derive(Clone, Copy, PartialEq, Eq)]
pub struct StorageBalanceBounds {
    pub min: u128,
    pub max: Option<u128>,
}

} // verus!
