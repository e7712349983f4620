//! Constants and helpers shared by the multi-token farms.
pub mod constants;
pub mod helpers;
