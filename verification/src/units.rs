//! Fixed-point conventions shared by every module.
//!
//! Prices, rates and ratios are whole numbers of millionths: a price of 0.51
//! is 510_000, a slippage of 2% is 20_000. Sizes are millionths of a token:
//! half a token is 500_000. Cash is what price times size comes to, with
//! nothing to rescale: one unit of currency is `CASH_SCALE`. Fee schedules
//! are quoted in basis points.
//!
//! Prices and sizes are 64 bits wide. Cash, and every sum or product of
//! prices and sizes, is 128 bits wide.

use vstd::prelude::*;

verus! {

/// The fixed-point representation of 1.0: a price of 1.0, one token, or a
/// ratio of 100%.
pub const SCALE: u64 = 1_000_000;

/// One unit of currency in cash: one token at a price of 1.0.
pub const CASH_SCALE: u64 = 1_000_000_000_000;

/// Number of basis points in 100%.
pub const BPS_PER_UNIT: u64 = 10_000;

/// One basis point as a fraction in millionths.
pub const RATE_PER_BPS: u64 = 100;

/// Distance between `a` and `b` on the number line.
pub open spec fn abs_diff(a: int, b: int) -> int {
    if a >= b {
        a - b
    } else {
        b - a
    }
}

/// The fraction, in millionths, that `bps` basis points stand for.
pub open spec fn rate_of_bps(bps: u32) -> int {
    bps * RATE_PER_BPS
}

/// Converts a fee in basis points into a fraction in millionths.
pub fn bps_to_rate(bps: u32) -> (rate: u64)
    ensures
        rate == rate_of_bps(bps),
{
    bps as u64 * RATE_PER_BPS
}

} // verus!
