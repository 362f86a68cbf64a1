//! The market data model: markets, order books, signals and execution
//! records, with the order-book queries that the cost models build on.

use crate::units::{abs_diff, bps_to_rate, rate_of_bps, SCALE};
use vstd::prelude::*;

verus! {

/// Direction of an order.
#[derive(Debug, Clone, Copy, PartialEq, Eq, Structural)]
pub enum Side {
    Buy,
    Sell,
}

/// One rung of an order book: `size` millionths of a token resting at
/// `price`.
#[derive(Debug, Clone, Copy, PartialEq, Eq, Structural)]
pub struct PriceLevel {
    pub price: u64,
    pub size: u64,
}

/// Snapshot of the resting liquidity of one token. Bids are listed best
/// (highest) first and asks best (lowest) first; the producer is responsible
/// for that order, which is read as given and never re-established here.
#[derive(Debug, Clone)]
pub struct OrderBook {
    pub token_id: String,
    pub bids: Vec<PriceLevel>,
    pub asks: Vec<PriceLevel>,
    pub timestamp: u64,
}

/// A fill that has taken place: `size` tokens of `token_id` changed hands at
/// `price`.
#[derive(Debug, Clone)]
pub struct Trade {
    pub id: String,
    pub token_id: String,
    pub price: u64,
    pub size: u64,
    pub side: Side,
    pub timestamp: u64,
}

/// A binary prediction market. `outcome_prices` runs parallel to `outcomes`;
/// entry 0 is the "yes" outcome and entry 1 the "no" outcome. Fees are in
/// basis points.
#[derive(Debug, Clone)]
pub struct Market {
    pub id: String,
    pub question: String,
    pub slug: String,
    pub outcomes: Vec<String>,
    pub outcome_prices: Vec<u64>,
    pub clob_token_ids: Vec<String>,
    pub best_bid: Option<u64>,
    pub best_ask: Option<u64>,
    pub maker_base_fee: u32,
    pub taker_base_fee: u32,
    /// Depth of the market, in cash.
    pub liquidity: u128,
    /// Cash traded over the last day.
    pub volume_24hr: u128,
    pub active: bool,
    pub accepting_orders: bool,
}

/// A detected mispricing: the outcome prices of `market_id` add up to
/// something other than 1.0.
#[derive(Debug, Clone)]
pub struct ArbitrageSignal {
    pub market_id: String,
    /// Distance of the price sum from 1.0.
    pub spread: u128,
    /// Gross profit on one token, before fees and slippage.
    pub edge: u128,
    /// Sell where the outcomes are overpriced, buy where they are
    /// underpriced.
    pub recommended_side: Side,
    /// Price of the "yes" outcome when the signal was raised.
    pub yes_price: u64,
    /// Price of the "no" outcome when the signal was raised.
    pub no_price: u64,
}

/// Record of one simulated execution.
#[derive(Debug, Clone, Copy, PartialEq, Eq, Structural)]
pub struct ExecutionResult {
    /// Size that filled.
    pub filed_size: u64,
    /// Volume-weighted average price of the fill.
    pub execution_price: u64,
    /// Taker fee on the notional, rounded down to cash.
    pub fee_paid: u128,
    /// Deviation of the execution price from the midpoint, without sign.
    pub slippage: u128,
    /// What the wallet paid: execution price times filled size, plus fee.
    pub total_cost: u128,
    /// Always true: an order that does not execute leaves no record.
    pub success: bool,
}

/// Spread below which a market counts as balanced: 0.001.
pub const BALANCE_TOLERANCE: u128 = 1_000;

/// Sum of a sequence of prices.
pub open spec fn price_sum(prices: Seq<u64>) -> nat
    decreases prices.len(),
{
    if prices.len() == 0 {
        0
    } else {
        price_sum(prices.drop_last()) + prices.last() as nat
    }
}

/// Total size resting on `levels`.
pub open spec fn depth(levels: Seq<PriceLevel>) -> nat
    decreases levels.len(),
{
    if levels.len() == 0 {
        0
    } else {
        levels[0].size as nat + depth(levels.skip(1))
    }
}

/// Cash exchanged when up to `size` is taken from `levels` front to back,
/// each level giving what it holds until the request is met.
pub open spec fn walk_notional(levels: Seq<PriceLevel>, size: int) -> int
    decreases levels.len(),
{
    if levels.len() == 0 || size <= 0 {
        0
    } else {
        let fill = if size <= levels[0].size {
            size
        } else {
            levels[0].size as int
        };
        fill * levels[0].price + walk_notional(levels.skip(1), size - fill)
    }
}

/// Volume-weighted average price of taking `size` from `levels`, rounded
/// down to a millionth; none when the levels hold less than `size`.
pub open spec fn vwap(levels: Seq<PriceLevel>, size: int) -> Option<int>
    recommends
        size > 0,
{
    if depth(levels) >= size {
        Some(walk_notional(levels, size) / size)
    } else {
        None
    }
}

/// A walk never pays more than the highest representable price for what
/// it takes.
pub proof fn lemma_walk_notional_bound(levels: Seq<PriceLevel>, size: int)
    requires
        size >= 0,
    ensures
        0 <= walk_notional(levels, size) <= size * u64::MAX,
    decreases levels.len(),
{
    if levels.len() == 0 || size <= 0 {
    } else {
        let fill = if size <= levels[0].size {
            size
        } else {
            levels[0].size as int
        };
        let rest = size - fill;
        lemma_walk_notional_bound(levels.skip(1), rest);
        assert(0 <= fill * levels[0].price <= fill * u64::MAX) by (nonlinear_arith)
            requires
                fill >= 0,
                0 <= levels[0].price <= u64::MAX,
        ;
    }
}

/// Prices never fall from one level to the next.
pub open spec fn ascending(levels: Seq<PriceLevel>) -> bool {
    forall|i: int, j: int| 0 <= i <= j < levels.len() ==> levels[i].price <= levels[j].price
}

/// Prices never rise from one level to the next.
pub open spec fn descending(levels: Seq<PriceLevel>) -> bool {
    forall|i: int, j: int| 0 <= i <= j < levels.len() ==> levels[i].price >= levels[j].price
}

/// Taking `size` from levels that hold as much, all priced between `low` and
/// `high`, costs between `low` and `high` for each unit of size.
pub proof fn lemma_walk_notional_between(
    levels: Seq<PriceLevel>,
    size: int,
    low: int,
    high: int,
)
    requires
        0 <= size <= depth(levels),
        forall|i: int| 0 <= i < levels.len() ==> low <= (#[trigger] levels[i]).price <= high,
    ensures
        size * low <= walk_notional(levels, size) <= size * high,
    decreases levels.len(),
{
    if levels.len() == 0 || size <= 0 {
        assert(size * low == 0 && size * high == 0) by (nonlinear_arith)
            requires
                size == 0,
        ;
    } else {
        let fill = if size <= levels[0].size {
            size
        } else {
            levels[0].size as int
        };
        let rest = size - fill;
        let tail = levels.skip(1);
        lemma_walk_notional_between(tail, rest, low, high);
        assert(fill * low <= fill * levels[0].price <= fill * high) by (nonlinear_arith)
            requires
                0 <= fill,
                low <= levels[0].price <= high,
        ;
        assert(fill * low + rest * low == size * low && fill * high + rest * high == size * high)
            by (nonlinear_arith)
            requires
                fill + rest == size,
        ;
    }
}

/// A volume-weighted average price lies between the lowest and the highest
/// price of the levels it is taken from.
pub proof fn lemma_vwap_between(levels: Seq<PriceLevel>, size: int, low: int, high: int)
    requires
        size > 0,
        forall|i: int| 0 <= i < levels.len() ==> low <= (#[trigger] levels[i]).price <= high,
    ensures
        match vwap(levels, size) {
            Some(price) => low <= price <= high,
            None => true,
        },
{
    if depth(levels) >= size {
        lemma_walk_notional_between(levels, size, low, high);
        let notional = walk_notional(levels, size);
        assert(low <= notional / size <= high) by (nonlinear_arith)
            requires
                size > 0,
                size * low <= notional <= size * high,
        ;
    }
}

/// A sum of prices is at most the highest representable price for each of
/// them.
pub proof fn lemma_price_sum_bound(prices: Seq<u64>)
    ensures
        price_sum(prices) <= prices.len() * u64::MAX,
    decreases prices.len(),
{
    if prices.len() > 0 {
        lemma_price_sum_bound(prices.drop_last());
    }
}

/// The spread of a market fits in 128 bits, whatever its prices.
pub proof fn lemma_spread_fits(market: Market)
    ensures
        0 <= market.spec_spread() <= u128::MAX,
{
    lemma_price_sum_bound(market.outcome_prices@);
    assert(market.outcome_prices.len() == market.outcome_prices@.len());
}

/// In a market of exactly two outcomes the price total is the yes price plus
/// the no price.
pub proof fn lemma_binary_price_total(market: Market)
    requires
        market.outcome_prices@.len() == 2,
    ensures
        market.spec_price_total() == market.spec_outcome_price(0) + market.spec_outcome_price(1),
{
    let prices = market.outcome_prices@;
    assert(price_sum(prices.drop_last()) == price_sum(prices.drop_last().drop_last())
        + prices[0]);
}

impl Market {
    /// The market lists one price for each outcome, and at least the two
    /// outcomes of a binary market.
    pub open spec fn wf(&self) -> bool {
        &&& self.outcome_prices@.len() == self.outcomes@.len()
        &&& self.outcome_prices@.len() >= 2
    }

    /// Sum of all outcome prices.
    pub open spec fn spec_price_total(&self) -> nat {
        price_sum(self.outcome_prices@)
    }

    /// Distance of the outcome prices' sum from 1.0.
    pub open spec fn spec_spread(&self) -> int {
        abs_diff(self.spec_price_total() as int, SCALE as int)
    }

    /// Price of outcome `index`, zero where the market lists no such outcome.
    pub open spec fn spec_outcome_price(&self, index: int) -> u64 {
        if 0 <= index < self.outcome_prices@.len() {
            self.outcome_prices@[index]
        } else {
            0
        }
    }

    /// Adds up the outcome prices.
    pub fn price_total(&self) -> (total: u128)
        ensures
            total == self.spec_price_total(),
    {
        let mut total: u128 = 0;
        let mut i: usize = 0;
        while i < self.outcome_prices.len()
            invariant
                0 <= i <= self.outcome_prices@.len(),
                total == price_sum(self.outcome_prices@.take(i as int)),
                total <= i * u64::MAX,
            decreases self.outcome_prices@.len() - i,
        {
            proof {
                let prices = self.outcome_prices@;
                assert(prices.take(i + 1).drop_last() =~= prices.take(i as int));
            }
            total = total + self.outcome_prices[i] as u128;
            i = i + 1;
        }
        proof {
            assert(self.outcome_prices@.take(i as int) =~= self.outcome_prices@);
        }
        total
    }

    /// Whether the outcome prices add up to 1.0 within the balance tolerance.
    pub fn is_balanced(&self) -> (balanced: bool)
        ensures
            balanced == (self.spec_spread() < BALANCE_TOLERANCE),
    {
        self.get_spread() < BALANCE_TOLERANCE
    }

    /// Deviation of the outcome prices' sum from 1.0, as a magnitude.
    pub fn get_spread(&self) -> (spread: u128)
        ensures
            spread == self.spec_spread(),
    {
        let total: u128 = self.price_total();
        if total >= SCALE as u128 {
            total - SCALE as u128
        } else {
            SCALE as u128 - total
        }
    }

    /// Price of the "yes" outcome, zero for a market without outcomes.
    pub fn yes_price(&self) -> (price: u64)
        ensures
            price == self.spec_outcome_price(0),
            self.wf() ==> price == self.outcome_prices@[0],
    {
        if self.outcome_prices.len() > 0 {
            self.outcome_prices[0]
        } else {
            0
        }
    }

    /// Price of the "no" outcome, zero for a market with fewer than two
    /// outcomes.
    pub fn no_price(&self) -> (price: u64)
        ensures
            price == self.spec_outcome_price(1),
            self.wf() ==> price == self.outcome_prices@[1],
    {
        if self.outcome_prices.len() > 1 {
            self.outcome_prices[1]
        } else {
            0
        }
    }

    /// The taker fee as a fraction in millionths: 200 basis points give
    /// 20_000, which is 0.02.
    pub fn taker_fee_rate(&self) -> (rate: u64)
        ensures
            rate == rate_of_bps(self.taker_base_fee),
    {
        bps_to_rate(self.taker_base_fee)
    }
}

/// Adds up the sizes of `levels`.
fn total_size(levels: &Vec<PriceLevel>) -> (total: u128)
    ensures
        total == depth(levels@),
{
    let mut total: u128 = 0;
    let mut i: usize = 0;
    proof {
        assert(levels@.skip(0) =~= levels@);
    }
    while i < levels.len()
        invariant
            0 <= i <= levels@.len(),
            total + depth(levels@.skip(i as int)) == depth(levels@),
            total <= i * u64::MAX,
        decreases levels@.len() - i,
    {
        proof {
            assert(levels@.skip(i as int).skip(1) =~= levels@.skip(i + 1));
        }
        total = total + levels[i].size as u128;
        i = i + 1;
    }
    total
}

impl OrderBook {
    /// Both sides are listed best price first: bids from the highest down,
    /// asks from the lowest up.
    pub open spec fn wf(&self) -> bool {
        &&& descending(self.bids@)
        &&& ascending(self.asks@)
    }

    /// The best bid is above the best ask.
    pub open spec fn is_crossed(&self) -> bool {
        match (self.spec_best_bid(), self.spec_best_ask()) {
            (Some(bid), Some(ask)) => bid > ask,
            _ => false,
        }
    }

    /// Price of the best bid, if there is a bid.
    pub open spec fn spec_best_bid(&self) -> Option<u64> {
        if self.bids@.len() > 0 {
            Some(self.bids@[0].price)
        } else {
            None
        }
    }

    /// Price of the best ask, if there is an ask.
    pub open spec fn spec_best_ask(&self) -> Option<u64> {
        if self.asks@.len() > 0 {
            Some(self.asks@[0].price)
        } else {
            None
        }
    }

    /// Average of best bid and best ask, rounded down; none when either side
    /// is empty.
    pub open spec fn spec_midpoint(&self) -> Option<int> {
        match (self.spec_best_bid(), self.spec_best_ask()) {
            (Some(bid), Some(ask)) => Some((bid + ask) / 2),
            _ => None,
        }
    }

    /// Best ask minus best bid; none when either side is empty.
    pub open spec fn spec_spred(&self) -> Option<int> {
        match (self.spec_best_bid(), self.spec_best_ask()) {
            (Some(bid), Some(ask)) => Some(ask - bid),
            _ => None,
        }
    }

    /// Price of the first bid level.
    pub fn best_bid(&self) -> (best: Option<u64>)
        ensures
            best == self.spec_best_bid(),
    {
        if self.bids.len() > 0 {
            Some(self.bids[0].price)
        } else {
            None
        }
    }

    /// Price of the first ask level.
    pub fn best_ask(&self) -> (best: Option<u64>)
        ensures
            best == self.spec_best_ask(),
    {
        if self.asks.len() > 0 {
            Some(self.asks[0].price)
        } else {
            None
        }
    }

    /// Midpoint between best bid and best ask, rounded down to a whole
    /// millionth.
    pub fn midpoint(&self) -> (mid: Option<u64>)
        ensures
            match mid {
                Some(m) => self.spec_midpoint() == Some(m as int),
                None => self.spec_midpoint() is None,
            },
    {
        match (self.best_bid(), self.best_ask()) {
            (Some(bid), Some(ask)) => Some(((bid as u128 + ask as u128) / 2) as u64),
            _ => None,
        }
    }

    /// Bid-ask spread: best ask minus best bid, negative for a crossed book.
    pub fn spred(&self) -> (gap: Option<i128>)
        ensures
            match gap {
                Some(g) => self.spec_spred() == Some(g as int),
                None => self.spec_spred() is None,
            },
    {
        match (self.best_bid(), self.best_ask()) {
            (Some(bid), Some(ask)) => Some(ask as i128 - bid as i128),
            _ => None,
        }
    }

    /// Total size resting on the bid side.
    pub fn total_bid_liquidity(&self) -> (total: u128)
        ensures
            total == depth(self.bids@),
    {
        total_size(&self.bids)
    }

    /// Total size resting on the ask side.
    pub fn total_ask_liquidity(&self) -> (total: u128)
        ensures
            total == depth(self.asks@),
    {
        total_size(&self.asks)
    }

    /// The levels that an order on `side` trades against: asks fill a buy,
    /// bids fill a sell.
    pub open spec fn levels(&self, side: Side) -> Seq<PriceLevel> {
        match side {
            Side::Buy => self.asks@,
            Side::Sell => self.bids@,
        }
    }

    /// Walks the book for `size` and returns the volume-weighted average
    /// price, rounded down to a millionth, or nothing when the book cannot
    /// fill the whole size. The levels are walked in the order given. An order of
    /// size zero has no average price: `size` has to be positive.
    pub fn execution_price(&self, size: u64, side: Side) -> (result: Option<u64>)
        requires
            size > 0,
        ensures
            match result {
                Some(price) => vwap(self.levels(side), size as int) == Some(price as int),
                None => vwap(self.levels(side), size as int) is None,
            },
            result is Some <==> depth(self.levels(side)) >= size,
            self.levels(side).len() == 0 ==> result is None,
    {
        let levels: &Vec<PriceLevel> = match side {
            Side::Buy => &self.asks,
            Side::Sell => &self.bids,
        };
        let ghost all: Seq<PriceLevel> = levels@;
        let mut remaining: u64 = size;
        let mut total: u128 = 0;
        let mut i: usize = 0;
        proof {
            assert(all.skip(0) =~= all);
        }
        while i < levels.len() && remaining > 0
            invariant
                all == levels@,
                0 <= i <= all.len(),
                remaining <= size,
                total + walk_notional(all.skip(i as int), remaining as int) == walk_notional(
                    all,
                    size as int,
                ),
                remaining > 0 ==> (size - remaining) + depth(all.skip(i as int)) == depth(all),
                remaining == 0 ==> depth(all) >= size,
            decreases all.len() - i,
        {
            let level: PriceLevel = levels[i];
            let fill: u64 = if remaining <= level.size {
                remaining
            } else {
                level.size
            };
            proof {
                let rest = all.skip(i as int);
                assert(rest.skip(1) =~= all.skip(i + 1));
                lemma_walk_notional_bound(all, size as int);
                lemma_walk_notional_bound(rest.skip(1), remaining - fill);
            }
            total = total + (fill as u128) * (level.price as u128);
            remaining = remaining - fill;
            i = i + 1;
        }
        if remaining > 0 {
            None
        } else {
            proof {
                lemma_walk_notional_bound(all, size as int);
                assert(total / (size as u128) <= u64::MAX) by (nonlinear_arith)
                    requires
                        total <= size * u64::MAX,
                        size > 0,
                ;
            }
            Some((total / (size as u128)) as u64)
        }
    }
}

} // verus!
