//! Constants and conversions of the xCheddar lockup.
use vstd::prelude::*;

verus! {

pub const CHEDDAR_DECIMALS: u8 = 24;
/// 10^24: one Cheddar (or xCheddar) in its smallest unit.
pub const ONE_CHEDDAR: u128 = 1_000_000_000_000_000_000_000_000;
/// half a Cheddar, for rounding to whole tokens
pub const HALF_CHEDDAR: u128 = 500_000_000_000_000_000_000_000;
pub const NO_DEPOSIT: u128 = 0;
/// 10 Tgas
pub const GAS_FOR_RESOLVE_TRANSFER: u64 = 10_000_000_000_000;
/// 20 Tgas
pub const GAS_FOR_FT_TRANSFER: u64 = 20_000_000_000_000;
/// 30 days in seconds: the period of `monthly_reward`
pub const DURATION_30DAYS_IN_SEC: u32 = 2_592_000;
/// price precision of `get_virtual_price`: 8 decimals
pub const PRICE_DECIMALS: u128 = 100_000_000;

/// Icon of the xCheddar token (an SVG image).
pub const XCHEDDAR_ICON: &'static str = "<svg xmlns='http://www.w3.org/2000/svg' viewBox='0 0 56 56'>\n        <style>.a{fill:#F4C647;}.b{fill:#EEAF4B;}</style>\n        <path d='M45 19.5v5.5l4.8 0.6 0-11.4c-0.1-3.2-11.2-6.7-24.9-6.7 -13.7 0-24.8 3.6-24.9 6.7L0 32.5c0 3.2 10.7 7.1 24.5 7.1 0.2 0 0.3 0 0.5 0V21.5l-4.7-7.2L45 19.5z' class='a'/>\n        <path d='M25 31.5v-10l-4.7-7.2L45 19.5v5.5l-14-1.5v10C31 33.5 25 31.5 25 31.5z' fill='#F9E295'/>\n        <path d='M24.9 7.5C11.1 7.5 0 11.1 0 14.3s10.7 7.2 24.5 7.2c0.2 0 0.3 0 0.5 0l-4.7-7.2 25 5.2c2.8-0.9 4.4-4 4.4-5.2C49.8 11.1 38.6 7.5 24.9 7.5z' class='b'/>\n        <path d='M36 29v19.6c8.3 0 15.6-1 20-2.5V26.5L31 23.2 36 29z' class='a'/>\n        <path d='M31 23.2l5 5.8c8.2 0 15.6-1 19.9-2.5L31 23.2z' class='b'/>\n        <polygon points='36 29 36 48.5 31 42.5 31 23.2 ' fill='#FCDF76'/></svg>";

/// Seconds of a nanosecond timestamp, truncated to 32 bits.
pub fn nano_to_sec(nano: u64) -> (r: u32)
    ensures
        r == (nano / 1_000_000_000) as u32,
{
    (nano / 1_000_000_000) as u32
}

/// Whole Cheddar in a yocto amount, rounded half up.
pub fn convert_from_yocto_cheddar(yocto_amount: u128) -> (r: u128)
    requires
        yocto_amount + HALF_CHEDDAR <= u128::MAX,
    ensures
        r == (yocto_amount + HALF_CHEDDAR) / (ONE_CHEDDAR as int),
{
    (yocto_amount + HALF_CHEDDAR) / ONE_CHEDDAR
}

} // verus!
