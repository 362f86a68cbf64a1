//! Simulation and arbitrage-decision engine for binary-outcome prediction
//! markets.
//!
//! The outcome prices of a binary market should add up to 1.0. Given a
//! market's prices and the order book of a token, the library decides
//! whether the prices break that constraint, whether trading on the
//! deviation still pays once fees and slippage are taken off, and what an
//! order would come to against the book and a simulated wallet.
//!
//! Every quantity is a whole number and every computation is exact: see
//! [`units`] for the scales, and each function for the way it rounds. A
//! function that has no result to give returns `None`; none of them fails
//! in any other way.
//!
//! - [`types`]: markets, order books, signals, execution records, and the
//!   walk of an order book
//! - [`fees`], [`fills`], [`slippage`]: the cost models
//! - [`constraint`], [`arb`]: detection of mispriced markets and the
//!   decision to trade
//! - [`execution`]: simulation of one order against a book and a wallet
//! - [`wallet`]: cash, positions and tallies

pub mod arb;
pub mod constraint;
pub mod execution;
pub mod fees;
pub mod fills;
pub mod slippage;
pub mod types;
pub mod units;
pub mod wallet;
mod wide;
