//! Wide integers for the reward formulas.
use crate::u256::U256;
use vstd::prelude::*;

verus! {

/// Widens a 128-bit value to 256 bits.
pub fn big(x: u128) -> (r: U256)
    ensures
        r.value() == x,
{
    U256::from_u128(x)
}

} // verus!
