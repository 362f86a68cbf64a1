//! Fill model: how much of a requested size the resting liquidity can
//! absorb.

use crate::types::{depth, OrderBook, Side};
use crate::units::SCALE;
use vstd::prelude::*;

verus! {

/// Fill-rate estimator.
#[derive(Debug, Clone, Copy)]
pub struct FillModel;

/// Fraction of `size`, in millionths and rounded down, that `available`
/// liquidity can fill: all of it when there is enough.
pub open spec fn fill_ratio(available: int, size: int) -> int {
    if available >= size {
        SCALE as int
    } else {
        available * SCALE / size
    }
}

/// Size that gets filled when `requested` meets `available` liquidity: the
/// request where liquidity suffices, and all the liquidity where it does
/// not.
pub open spec fn fillable(available: int, requested: int) -> int {
    if available >= requested {
        requested
    } else {
        available
    }
}

/// A fill ratio is a fraction between zero and one.
pub proof fn lemma_fill_ratio_bounds(available: int, size: int)
    requires
        0 <= available,
        0 <= size,
    ensures
        0 <= fill_ratio(available, size) <= SCALE,
        available < size ==> fill_ratio(available, size) < SCALE,
{
    if available < size {
        assert(0 <= available * SCALE / size < SCALE) by (nonlinear_arith)
            requires
                0 <= available < size,
        ;
    }
}

/// The filled size is the requested size times the fill ratio, up to the
/// millionth that the ratio is rounded to: the two differ by less than a
/// millionth of the request.
pub proof fn lemma_fillable_is_scaled_request(available: int, requested: int)
    requires
        0 <= available,
        0 <= requested,
    ensures
        requested * fill_ratio(available, requested) <= fillable(available, requested) * SCALE,
        fillable(available, requested) * SCALE < requested * fill_ratio(available, requested)
            + requested || requested == 0,
{
    let ratio = fill_ratio(available, requested);
    if available >= requested {
        assert(requested * ratio == requested * SCALE) by (nonlinear_arith)
            requires
                ratio == SCALE,
        ;
    } else {
        assert(requested * ratio <= available * SCALE < requested * ratio + requested)
            by (nonlinear_arith)
            requires
                0 <= available < requested,
                ratio == available * SCALE / requested,
                SCALE > 0,
        ;
    }
}

impl FillModel {
    /// Estimates which fraction of `size` can fill against the side of the
    /// book that provides liquidity to `side`: asks for a buy, bids for a
    /// sell.
    pub fn estimate_fill_ratio(book: &OrderBook, size: u64, side: Side) -> (ratio: u64)
        ensures
            ratio == fill_ratio(depth(book.levels(side)) as int, size as int),
            ratio <= SCALE,
            depth(book.levels(side)) >= size ==> ratio == SCALE,
            depth(book.levels(side)) == 0 && size > 0 ==> ratio == 0,
    {
        let available: u128 = match side {
            Side::Buy => book.total_ask_liquidity(),
            Side::Sell => book.total_bid_liquidity(),
        };
        proof {
            lemma_fill_ratio_bounds(available as int, size as int);
        }
        if available >= size as u128 {
            SCALE
        } else {
            ((available * SCALE as u128) / size as u128) as u64
        }
    }

    /// Size that fills out of `requested_size`, given the liquidity on the
    /// providing side: the smaller of the two.
    pub fn filled_size(book: &OrderBook, requested_size: u64, side: Side) -> (filled: u64)
        ensures
            filled == fillable(depth(book.levels(side)) as int, requested_size as int),
            depth(book.levels(side)) >= requested_size ==> filled == requested_size,
            depth(book.levels(side)) < requested_size ==> filled == depth(book.levels(side)),
            filled == 0 <==> requested_size == 0 || depth(book.levels(side)) == 0,
    {
        let available: u128 = match side {
            Side::Buy => book.total_ask_liquidity(),
            Side::Sell => book.total_bid_liquidity(),
        };
        if available >= requested_size as u128 {
            requested_size
        } else {
            available as u64
        }
    }
}

} // verus!
