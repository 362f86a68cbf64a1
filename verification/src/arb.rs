//! Arbitrage detector: scans markets for signals and decides whether a
//! signal is worth trading once fees and slippage are paid.

use crate::constraint::ConstraintChecker;
use crate::types::{lemma_spread_fits, ArbitrageSignal, Market};
use crate::units::{abs_diff, SCALE};
use crate::wide::Wide;
use vstd::prelude::*;

verus! {

/// Number of legs of a binary arbitrage trade, one on each outcome; the fee
/// is charged on each, at the signal's yes price.
pub const FEE_LEGS: u64 = 2;

/// Finds signals and gates them on expected profit.
#[derive(Debug, Clone, Copy, PartialEq, Eq, Structural)]
pub struct ArbitrageDetector {
    pub constraint_checker: ConstraintChecker,
    /// Net profit, in cash, that a trade has to exceed to be taken.
    pub min_profit_threshold: i128,
}

/// The signals that `checker` emits on those of `markets` that are active and
/// accepting orders, in the order of the markets.
pub open spec fn scan_signals(checker: ConstraintChecker, markets: Seq<Market>) -> Seq<
    ArbitrageSignal,
>
    decreases markets.len(),
{
    if markets.len() == 0 {
        Seq::empty()
    } else {
        let earlier = scan_signals(checker, markets.drop_last());
        let market = markets.last();
        if market.active && market.accepting_orders {
            match checker.spec_check_violation(&market) {
                Some(signal) => earlier.push(signal),
                None => earlier,
            }
        } else {
            earlier
        }
    }
}

/// A scan emits at most one signal for each market, and every signal it
/// emits carries a spread above the threshold, with the edge equal to the
/// spread.
pub proof fn lemma_scan_signals_exceed_threshold(checker: ConstraintChecker, markets: Seq<Market>)
    ensures
        scan_signals(checker, markets).len() <= markets.len(),
        forall|k: int|
            0 <= k < scan_signals(checker, markets).len() ==> {
                let signal = #[trigger] scan_signals(checker, markets)[k];
                signal.spread > checker.min_spread_threshold && signal.edge == signal.spread
            },
    decreases markets.len(),
{
    if markets.len() > 0 {
        lemma_scan_signals_exceed_threshold(checker, markets.drop_last());
        lemma_spread_fits(markets.last());
    }
}

/// Gross profit of trading `size` on `signal`, in cash: the edge times the
/// size.
pub open spec fn gross_profit(signal: &ArbitrageSignal, size: int) -> int {
    signal.edge * size
}

/// Fees on all legs in cash, rounded down: on each leg `fee_rate` millionths
/// of `size` at the signal's yes price.
pub open spec fn fee_cost(signal: &ArbitrageSignal, size: int, fee_rate: int) -> int {
    size * signal.yes_price * fee_rate * FEE_LEGS / (SCALE as int)
}

/// Cost of slippage in cash: `slippage` millionths on the size; negative
/// where the price moved in the trader's favour.
pub open spec fn slippage_cost(size: int, slippage: int) -> int {
    size * slippage
}

/// Net profit of trading `size` on `signal`: gross profit less fees on every
/// leg and less slippage.
pub open spec fn net_profit(signal: &ArbitrageSignal, size: int, fee_rate: int, slippage: int) -> int {
    gross_profit(signal, size) - fee_cost(signal, size, fee_rate) - slippage_cost(size, slippage)
}

/// Whether the net profit and each of the three terms it is made of fit in a
/// signed integer of 128 bits.
pub open spec fn profit_representable(
    signal: &ArbitrageSignal,
    size: int,
    fee_rate: int,
    slippage: int,
) -> bool {
    &&& gross_profit(signal, size) <= i128::MAX
    &&& fee_cost(signal, size, fee_rate) <= i128::MAX
    &&& i128::MIN <= slippage_cost(size, slippage) <= i128::MAX
    &&& i128::MIN <= net_profit(signal, size, fee_rate, slippage) <= i128::MAX
}

/// Rounding the fees down to cash does not change the decision: the net
/// profit is above a threshold exactly when the profit with the fees left
/// unrounded is.
pub proof fn lemma_decision_is_exact(
    signal: &ArbitrageSignal,
    size: u64,
    fee_rate: u64,
    slippage: i128,
    threshold: i128,
)
    ensures
        net_profit(signal, size as int, fee_rate as int, slippage as int) > threshold <==> (
        gross_profit(signal, size as int) - slippage_cost(size as int, slippage as int)
            - threshold) * SCALE > size * signal.yes_price * fee_rate * FEE_LEGS,
{
    let basis: int = size * signal.yes_price * fee_rate * FEE_LEGS;
    let room: int = gross_profit(signal, size as int) - slippage_cost(size as int, slippage as int)
        - threshold;
    assert(basis / (SCALE as int) < room <==> basis < room * SCALE) by (nonlinear_arith)
        requires
            SCALE > 0,
    ;
}

impl ArbitrageDetector {
    /// A detector that signals spreads above `min_spread` and trades on net
    /// profits above `min_profit`.
    pub fn new(min_spread: u128, min_profit: i128) -> (detector: Self)
        ensures
            detector.constraint_checker.min_spread_threshold == min_spread,
            detector.min_profit_threshold == min_profit,
    {
        ArbitrageDetector {
            constraint_checker: ConstraintChecker::new(min_spread),
            min_profit_threshold: min_profit,
        }
    }

    /// Scans `markets` for arbitrage signals. Markets that are inactive or
    /// not accepting orders are passed over; the signals keep the order of
    /// the markets.
    pub fn scan(&self, markets: &[Market]) -> (signals: Vec<ArbitrageSignal>)
        ensures
            signals@ == scan_signals(self.constraint_checker, markets@),
            signals@.len() <= markets@.len(),
            forall|k: int|
                0 <= k < signals@.len() ==> (#[trigger] signals@[k]).spread
                    > self.constraint_checker.min_spread_threshold,
    {
        proof {
            lemma_scan_signals_exceed_threshold(self.constraint_checker, markets@);
        }
        let mut signals: Vec<ArbitrageSignal> = Vec::new();
        let mut i: usize = 0;
        while i < markets.len()
            invariant
                0 <= i <= markets@.len(),
                signals@ == scan_signals(self.constraint_checker, markets@.take(i as int)),
            decreases markets@.len() - i,
        {
            let market: &Market = &markets[i];
            proof {
                assert(markets@.take(i + 1).drop_last() =~= markets@.take(i as int));
            }
            if market.active && market.accepting_orders {
                match self.constraint_checker.check_violation(market) {
                    Some(signal) => {
                        signals.push(signal);
                    },
                    None => {},
                }
            }
            i = i + 1;
        }
        proof {
            assert(markets@.take(i as int) =~= markets@);
        }
        signals
    }

    /// Expected profit of trading `size` on `signal` after costs, in cash,
    /// with `fee_rate` and `slippage` as fractions in millionths. The profit
    /// and its terms have to fit in 128 bits.
    pub fn expected_profit(
        &self,
        signal: &ArbitrageSignal,
        size: u64,
        fee_rate: u64,
        slippage: i128,
    ) -> (net: i128)
        requires
            profit_representable(signal, size as int, fee_rate as int, slippage as int),
        ensures
            net == net_profit(signal, size as int, fee_rate as int, slippage as int),
    {
        let gross: u128 = signal.edge * (size as u128);
        let fees: u128 = Self::fees_on_legs(signal.yes_price, size, fee_rate);
        let slip: i128 = (size as i128) * slippage;
        (gross as i128) - (fees as i128) - slip
    }

    /// Computes `size * yes_price * fee_rate * FEE_LEGS / SCALE` without
    /// forming the product, which may be wider than the result.
    fn fees_on_legs(yes_price: u64, size: u64, fee_rate: u64) -> (fees: u128)
        requires
            size * yes_price * fee_rate * FEE_LEGS / (SCALE as int) <= i128::MAX,
        ensures
            fees == size * yes_price * fee_rate * FEE_LEGS / (SCALE as int),
    {
        let notional: u128 = {
            assert(0 <= size * yes_price <= u64::MAX * u64::MAX) by (nonlinear_arith);
            size as u128 * yes_price as u128
        };
        let rate: u128 = {
            assert(fee_rate * FEE_LEGS == fee_rate * 2) by (nonlinear_arith)
                requires
                    FEE_LEGS == 2,
            ;
            fee_rate as u128 * FEE_LEGS as u128
        };
        let whole: u128 = notional / SCALE as u128;
        let part: u128 = notional % SCALE as u128;
        proof {
            let basis: int = size * yes_price * fee_rate * FEE_LEGS;
            assert(basis == (whole * rate) * SCALE + part * rate) by (nonlinear_arith)
                requires
                    basis == size * yes_price * fee_rate * FEE_LEGS,
                    notional == size * yes_price,
                    rate == fee_rate * FEE_LEGS,
                    notional == whole * SCALE + part,
            ;
            assert(0 <= whole * rate) by (nonlinear_arith);
            assert(0 <= part * rate <= SCALE * rate) by (nonlinear_arith)
                requires
                    0 <= part <= SCALE,
                    0 <= rate,
            ;
        }
        whole * rate + (part * rate) / SCALE as u128
    }

    /// Computes the same fees in 256 bits, for any size, price and rate.
    fn wide_fees_on_legs(yes_price: u64, size: u64, fee_rate: u64) -> (fees: Wide)
        ensures
            fees.value() == size * yes_price * fee_rate * FEE_LEGS / (SCALE as int),
            fees.high <= 2 * u64::MAX + 2,
    {
        let notional: u128 = {
            assert(0 <= size * yes_price <= u64::MAX * u64::MAX) by (nonlinear_arith);
            size as u128 * yes_price as u128
        };
        let rate: u128 = {
            assert(fee_rate * FEE_LEGS == fee_rate * 2) by (nonlinear_arith)
                requires
                    FEE_LEGS == 2,
            ;
            fee_rate as u128 * FEE_LEGS as u128
        };
        let whole: u128 = notional / SCALE as u128;
        let part: u128 = notional % SCALE as u128;
        let once: Wide = Wide::product(whole, fee_rate);
        let most: Wide = once.sum(once);
        proof {
            let basis: int = size * yes_price * fee_rate * FEE_LEGS;
            assert(basis == (whole * fee_rate * 2) * SCALE + part * rate) by (nonlinear_arith)
                requires
                    basis == size * yes_price * fee_rate * FEE_LEGS,
                    notional == size * yes_price,
                    rate == fee_rate * FEE_LEGS,
                    FEE_LEGS == 2,
                    notional == whole * SCALE + part,
            ;
            assert(0 <= part * rate <= SCALE * rate) by (nonlinear_arith)
                requires
                    0 <= part <= SCALE,
                    0 <= rate,
            ;
            assert(most.value() == whole * fee_rate * 2);
        }
        let rest: u128 = (part * rate) / SCALE as u128;
        most.sum(Wide::from_u128(rest))
    }

    /// The size of a signed number.
    fn magnitude(number: i128) -> (size: u128)
        ensures
            size == abs_diff(number as int, 0),
    {
        if number >= 0 {
            number as u128
        } else if number == i128::MIN {
            0x8000_0000_0000_0000_0000_0000_0000_0000
        } else {
            (-number) as u128
        }
    }

    /// Decides whether a trade is worth taking: its expected profit has to
    /// be strictly above the minimum. The decision is exact for every size,
    /// rate and slippage, also where the profit itself is too large to
    /// return.
    pub fn should_trade(
        &self,
        signal: &ArbitrageSignal,
        size: u64,
        fee_rate: u64,
        slippage: i128,
    ) -> (trade: bool)
        ensures
            trade == (net_profit(signal, size as int, fee_rate as int, slippage as int)
                > self.min_profit_threshold),
    {
        let gross: Wide = Wide::product(signal.edge, size);
        let fees: Wide = Self::wide_fees_on_legs(signal.yes_price, size, fee_rate);
        let slip: Wide = Wide::product(Self::magnitude(slippage), size);
        let bar: Wide = Wide::from_u128(Self::magnitude(self.min_profit_threshold));
        proof {
            assert(slip.value() == abs_diff(slippage_cost(size as int, slippage as int), 0))
                by (nonlinear_arith)
                requires
                    slip.value() == abs_diff(slippage as int, 0) * size,
                    size >= 0,
            ;
            assert(slippage < 0 <==> slippage_cost(size as int, slippage as int) < 0 || (size
                == 0 && slippage < 0)) by (nonlinear_arith)
                requires
                    size >= 0,
            ;
        }
        // What speaks for the trade on one side, what speaks against it on
        // the other: slippage and threshold go where their signs put them.
        let gains: Wide = if slippage < 0 {
            gross.sum(slip)
        } else {
            gross
        };
        let costs: Wide = if slippage < 0 {
            fees
        } else {
            fees.sum(slip)
        };
        let gains: Wide = if self.min_profit_threshold < 0 {
            gains.sum(bar)
        } else {
            gains
        };
        let costs: Wide = if self.min_profit_threshold < 0 {
            costs
        } else {
            costs.sum(bar)
        };
        gains.exceeds(&costs)
    }
}

} // verus!
