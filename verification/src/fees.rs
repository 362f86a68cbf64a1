//! Fee schedule in basis points, with separate maker and taker rates.
//!
//! A fee is computed exactly, in ten-thousandths of a unit of cash, and
//! rounded down to cash once, where it is charged.

use crate::types::Market;
use crate::units::{bps_to_rate, rate_of_bps, BPS_PER_UNIT};
use vstd::prelude::*;

verus! {

/// Maker and taker fee, each in basis points of the notional.
#[derive(Debug, Clone, Copy, PartialEq, Eq, Structural)]
pub struct FeeModel {
    pub maker_fee_bps: u32,
    pub taker_fee_bps: u32,
}

/// Fee on `notional` at `bps` basis points, in ten-thousandths of a unit of
/// cash: `notional * bps / 10_000` with the division left undone.
pub open spec fn exact_fee(notional: int, bps: int) -> int {
    notional * bps
}

/// Fee on `notional` at `bps` basis points in cash, rounded down.
pub open spec fn fee_in_cash(notional: int, bps: int) -> int {
    exact_fee(notional, bps) / (BPS_PER_UNIT as int)
}

/// The fee is linear in the notional: twice the notional costs twice the
/// fee, and the fee on a sum is the sum of the fees.
pub proof fn lemma_fee_linear_in_notional(
    model: FeeModel,
    notional: u128,
    other: u128,
    is_maker: bool,
)
    ensures
        exact_fee(2 * notional, model.spec_bps(is_maker) as int) == 2 * exact_fee(
            notional as int,
            model.spec_bps(is_maker) as int,
        ),
        exact_fee(notional + other, model.spec_bps(is_maker) as int) == exact_fee(
            notional as int,
            model.spec_bps(is_maker) as int,
        ) + exact_fee(other as int, model.spec_bps(is_maker) as int),
{
    let bps: int = model.spec_bps(is_maker) as int;
    assert((2 * notional) * bps == 2 * (notional * bps)) by (nonlinear_arith);
    assert((notional + other) * bps == notional * bps + other * bps) by (nonlinear_arith);
}

/// A fee in cash is never negative and never above the exact fee.
pub proof fn lemma_fee_in_cash_bounds(notional: int, bps: int)
    requires
        0 <= notional,
        0 <= bps,
    ensures
        0 <= fee_in_cash(notional, bps) <= exact_fee(notional, bps),
{
    assert(0 <= notional * bps) by (nonlinear_arith)
        requires
            0 <= notional,
            0 <= bps,
    ;
}

impl FeeModel {
    /// The rate that applies: the maker's for liquidity added, the taker's
    /// for liquidity removed.
    pub open spec fn spec_bps(&self, is_maker: bool) -> u32 {
        if is_maker {
            self.maker_fee_bps
        } else {
            self.taker_fee_bps
        }
    }

    /// Takes the fee schedule from a market's own fee fields.
    pub fn from_market(market: &Market) -> (model: Self)
        ensures
            model.maker_fee_bps == market.maker_base_fee,
            model.taker_fee_bps == market.taker_base_fee,
    {
        FeeModel { maker_fee_bps: market.maker_base_fee, taker_fee_bps: market.taker_base_fee }
    }

    /// Fee on `notional`, at the maker or the taker rate, exact: the result
    /// counts ten-thousandths of a unit of cash, and has to fit in 128 bits.
    pub fn calculate(&self, notional: u128, is_maker: bool) -> (fee: u128)
        requires
            exact_fee(notional as int, self.spec_bps(is_maker) as int) <= u128::MAX,
        ensures
            fee == exact_fee(notional as int, self.spec_bps(is_maker) as int),
    {
        let bps: u32 = if is_maker {
            self.maker_fee_bps
        } else {
            self.taker_fee_bps
        };
        notional * bps as u128
    }

    /// Fee on `notional` as it is charged: in cash, rounded down. There is
    /// none where the fee does not fit in 128 bits.
    pub fn charge(&self, notional: u128, is_maker: bool) -> (fee: Option<u128>)
        ensures
            match fee {
                Some(due) => due == fee_in_cash(notional as int, self.spec_bps(is_maker) as int),
                None => fee_in_cash(notional as int, self.spec_bps(is_maker) as int) > u128::MAX,
            },
    {
        let bps: u128 = if is_maker {
            self.maker_fee_bps as u128
        } else {
            self.taker_fee_bps as u128
        };
        let unit: u128 = BPS_PER_UNIT as u128;
        let whole: u128 = notional / unit;
        let part: u128 = notional % unit;
        proof {
            assert(notional * bps == (whole * bps) * unit + part * bps) by (nonlinear_arith)
                requires
                    notional == whole * unit + part,
            ;
            assert(0 <= part * bps <= unit * u32::MAX) by (nonlinear_arith)
                requires
                    0 <= part <= unit,
                    0 <= bps <= u32::MAX,
            ;
            assert(0 <= whole * bps) by (nonlinear_arith);
            assert(unit == 10_000);
            assert(((whole * bps) * 10_000 + part * bps) / 10_000 == whole * bps + (part * bps)
                / 10_000);
        }
        let rest: u128 = (part * bps) / unit;
        match whole.checked_mul(bps) {
            Some(most) => most.checked_add(rest),
            None => None,
        }
    }

    /// The taker fee as a fraction in millionths.
    pub fn taker_rate(&self) -> (rate: u64)
        ensures
            rate == rate_of_bps(self.taker_fee_bps),
    {
        bps_to_rate(self.taker_fee_bps)
    }
}

} // verus!
