//! Constants and arithmetic of the Cheddar token.
use crate::u256::{mul_div, mul_div_spec};
use vstd::prelude::*;

verus! {

/// 1 Tgas
pub const ONE_TERA: u64 = 1_000_000_000_000;
/// gas for `ft_resolve_transfer`: 5 Tgas
pub const GAS_FOR_RESOLVE_TRANSFER: u64 = 5_000_000_000_000;
/// gas kept back by `ft_transfer_call`: 30 Tgas
pub const GAS_FOR_FT_TRANSFER_CALL: u64 = 30_000_000_000_000;
pub const NO_DEPOSIT: u128 = 0;

/// returns amount * numerator/denominator
pub fn fraction_of(amount: u128, numerator: u128, denominator: u128) -> (r: u128)
    requires
        denominator > 0,
        mul_div_spec(amount as int, numerator as int, denominator as int) <= u128::MAX,
    ensures
        r == mul_div_spec(amount as int, numerator as int, denominator as int),
{
    mul_div(amount, numerator, denominator)
}

} // verus!
