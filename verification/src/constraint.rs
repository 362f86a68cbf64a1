//! Constraint checker: the outcome prices of a binary market should add up
//! to 1.0, and a market where they do not is an arbitrage candidate.

use crate::types::{ArbitrageSignal, Market, Side};
use crate::units::SCALE;
use vstd::prelude::*;

verus! {

/// Threshold rule on the deviation of a market's price sum from 1.0.
#[derive(Debug, Clone, Copy, PartialEq, Eq, Structural)]
pub struct ConstraintChecker {
    /// Largest spread that is still not worth a signal; 20_000 is 0.02.
    pub min_spread_threshold: u128,
}

impl ConstraintChecker {
    /// The signal that `market` gives rise to: none while its spread stays
    /// within the threshold; otherwise one whose edge is the spread, and
    /// which recommends selling when the outcomes together are priced above
    /// 1.0 and buying when they are priced below.
    pub open spec fn spec_check_violation(&self, market: &Market) -> Option<ArbitrageSignal> {
        if market.spec_spread() <= self.min_spread_threshold {
            None
        } else {
            Some(
                ArbitrageSignal {
                    market_id: market.id,
                    spread: market.spec_spread() as u128,
                    edge: market.spec_spread() as u128,
                    recommended_side: if market.spec_price_total() > SCALE {
                        Side::Sell
                    } else {
                        Side::Buy
                    },
                    yes_price: market.spec_outcome_price(0),
                    no_price: market.spec_outcome_price(1),
                },
            )
        }
    }

    /// A checker that signals spreads above `min_spread_threshold`.
    pub fn new(min_spread_threshold: u128) -> (checker: Self)
        ensures
            checker.min_spread_threshold == min_spread_threshold,
    {
        ConstraintChecker { min_spread_threshold }
    }

    /// Checks `market` for a price sum that deviates from 1.0 by more than
    /// the threshold.
    pub fn check_violation(&self, market: &Market) -> (signal: Option<ArbitrageSignal>)
        ensures
            signal == self.spec_check_violation(market),
            signal is None <==> market.spec_spread() <= self.min_spread_threshold,
            match signal {
                Some(found) => {
                    &&& found.market_id == market.id
                    &&& found.spread == market.spec_spread()
                    &&& found.edge == market.spec_spread()
                    &&& found.recommended_side == if market.spec_price_total() > SCALE {
                        Side::Sell
                    } else {
                        Side::Buy
                    }
                    &&& found.yes_price == market.spec_outcome_price(0)
                    &&& found.no_price == market.spec_outcome_price(1)
                },
                None => true,
            },
    {
        let spread: u128 = market.get_spread();
        if spread <= self.min_spread_threshold {
            return None;
        }
        let total: u128 = market.price_total();
        let recommended_side: Side = if total > SCALE as u128 {
            Side::Sell
        } else {
            Side::Buy
        };
        Some(
            ArbitrageSignal {
                market_id: market.id.clone(),
                spread,
                edge: spread,
                recommended_side,
                yes_price: market.yes_price(),
                no_price: market.no_price(),
            },
        )
    }
}

} // verus!
