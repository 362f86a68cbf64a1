//! Slippage model: how far the price of walking the book lies from the
//! midpoint.

use crate::types::{lemma_vwap_between, vwap, OrderBook, Side};
use crate::units::SCALE;
use vstd::prelude::*;

verus! {

/// Slippage calculator over an order book.
#[derive(Debug, Clone, Copy)]
pub struct SlippageModel;

/// `(value - reference) / reference` as a fraction in millionths, rounded
/// toward zero.
pub open spec fn relative_deviation(value: int, reference: int) -> int
    recommends
        reference > 0,
{
    if value >= reference {
        (value - reference) * SCALE / reference
    } else {
        -((reference - value) * SCALE / reference)
    }
}

/// Slippage of trading at `exec` against a midpoint of `mid`, counted
/// positive when the price moved against the trader: above the midpoint for
/// a buy, below it for a sell.
pub open spec fn adverse_slippage(exec: int, mid: int, side: Side) -> int
    recommends
        mid > 0,
{
    match side {
        Side::Buy => relative_deviation(exec, mid),
        Side::Sell => -relative_deviation(exec, mid),
    }
}

/// On a book that lists both sides best price first and whose best bid is
/// not above its best ask, walking the book never beats the midpoint:
/// slippage is zero or against the trader, on either side.
pub proof fn lemma_slippage_nonnegative(book: OrderBook, size: u64, side: Side)
    requires
        book.wf(),
        !book.is_crossed(),
        size > 0,
    ensures
        match SlippageModel::spec_calculate(&book, size as int, side) {
            Some(slippage) => slippage >= 0,
            None => true,
        },
{
    match (book.spec_midpoint(), vwap(book.levels(side), size as int)) {
        (Some(mid), Some(exec)) => {
            if mid != 0 {
                let bid = book.bids@[0].price;
                let ask = book.asks@[0].price;
                match side {
                    Side::Buy => {
                        lemma_vwap_between(book.asks@, size as int, ask as int, u64::MAX as int);
                    },
                    Side::Sell => {
                        lemma_vwap_between(book.bids@, size as int, 0, bid as int);
                    },
                }
            }
        },
        _ => {},
    }
}

/// Computes `magnitude * SCALE / reference`, the size of a relative
/// deviation.
pub(crate) fn deviation_magnitude(magnitude: u64, reference: u64) -> (ratio: u128)
    requires
        reference > 0,
    ensures
        ratio == magnitude * SCALE / (reference as int),
        ratio <= u64::MAX * SCALE,
{
    proof {
        assert(0 <= magnitude * SCALE / (reference as int) <= magnitude * SCALE)
            by (nonlinear_arith)
            requires
                reference > 0,
                magnitude >= 0,
        ;
    }
    (magnitude as u128 * SCALE as u128) / reference as u128
}

impl SlippageModel {
    /// The slippage of taking `size` on `side`: none when either side
    /// of the book is empty, when the book cannot fill `size`, or when the
    /// midpoint is zero and a fraction of it means nothing.
    pub open spec fn spec_calculate(book: &OrderBook, size: int, side: Side) -> Option<int> {
        match (book.spec_midpoint(), vwap(book.levels(side), size)) {
            (Some(mid), Some(exec)) => if mid == 0 {
                None
            } else {
                Some(adverse_slippage(exec, mid, side))
            },
            _ => None,
        }
    }

    /// Cash that taking `size` on `side` costs at the volume-weighted
    /// price; none when the book cannot fill `size`.
    pub open spec fn spec_execution_cost(book: &OrderBook, size: int, side: Side) -> Option<int> {
        match vwap(book.levels(side), size) {
            Some(exec) => Some(exec * size),
            None => None,
        }
    }

    /// Signed slippage of an order of `size` on `side`, as a fraction of the
    /// midpoint in millionths; `size` has to be positive.
    pub fn calculate(book: &OrderBook, size: u64, side: Side) -> (slippage: Option<i128>)
        requires
            size > 0,
        ensures
            match slippage {
                Some(s) => Self::spec_calculate(book, size as int, side) == Some(s as int),
                None => Self::spec_calculate(book, size as int, side) is None,
            },
    {
        let mid: u64 = match book.midpoint() {
            Some(m) => m,
            None => { return None; },
        };
        let exec: u64 = match book.execution_price(size, side) {
            Some(p) => p,
            None => { return None; },
        };
        if mid == 0 {
            return None;
        }
        let above: bool = exec >= mid;
        let magnitude: u128 = if above {
            deviation_magnitude(exec - mid, mid)
        } else {
            deviation_magnitude(mid - exec, mid)
        };
        let adverse: bool = match side {
            Side::Buy => above,
            Side::Sell => !above,
        };
        if adverse {
            Some(magnitude as i128)
        } else {
            Some(-(magnitude as i128))
        }
    }

    /// Estimated cash needed to execute `size` on `side`; `size` has
    /// to be positive.
    pub fn execution_cost(book: &OrderBook, size: u64, side: Side) -> (cost: Option<u128>)
        requires
            size > 0,
        ensures
            match cost {
                Some(c) => Self::spec_execution_cost(book, size as int, side) == Some(c as int),
                None => Self::spec_execution_cost(book, size as int, side) is None,
            },
    {
        match book.execution_price(size, side) {
            Some(exec) => {
                assert(exec * size <= u64::MAX * u64::MAX) by (nonlinear_arith);
                Some(exec as u128 * size as u128)
            },
            None => None,
        }
    }
}

} // verus!
