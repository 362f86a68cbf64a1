//! Execution engine: simulates one order against one order book and one
//! wallet, composing the fill model, the walk of the book and the fee model.

use crate::fees::{fee_in_cash, lemma_fee_in_cash_bounds, FeeModel};
use crate::fills::{fillable, FillModel};
use crate::slippage::{deviation_magnitude, SlippageModel};
use crate::types::{
    depth, lemma_walk_notional_bound, vwap, walk_notional, ExecutionResult, OrderBook, Side,
};
use crate::units::{abs_diff, SCALE};
use crate::wallet::Wallet;
use vstd::prelude::*;

verus! {

/// Execution simulator.
#[derive(Debug, Clone, Copy, PartialEq, Eq, Structural)]
pub struct ExecutionEngine {
    pub fee_model: FeeModel,
}

/// What an execution comes to, in unbounded integers.
pub struct ExecutionPlan {
    /// Size that fills.
    pub filled: int,
    /// Volume-weighted price of the fill.
    pub price: int,
    /// Distance of the price from the midpoint, as a fraction of the
    /// midpoint in millionths, whichever way it lies.
    pub slippage: int,
    /// Taker fee on the notional, rounded down to cash.
    pub fee: int,
    /// Notional plus fee.
    pub total: int,
    /// Whether the order executed.
    pub success: bool,
}

impl ExecutionResult {
    /// The record as unbounded integers.
    pub open spec fn plan(&self) -> ExecutionPlan {
        ExecutionPlan {
            filled: self.filed_size as int,
            price: self.execution_price as int,
            slippage: self.slippage as int,
            fee: self.fee_paid as int,
            total: self.total_cost as int,
            success: self.success,
        }
    }
}

/// An execution stays within its means: it fills the smaller of what was
/// asked for and what the book holds, never nothing, and its total cost,
/// notional plus fee, is covered by the cash it was planned for. So a tally
/// of fees that has room for the whole cash has room for the fee.
pub proof fn lemma_execution_within_means(
    engine: ExecutionEngine,
    book: OrderBook,
    size: u64,
    side: Side,
    cash: u128,
)
    ensures
        match engine.spec_execute(&book, size as int, side, cash as int) {
            Some(plan) => {
                &&& plan.success
                &&& 0 < plan.filled <= size
                &&& plan.filled <= depth(book.levels(side))
                &&& plan.filled == size || plan.filled == depth(book.levels(side))
                &&& 0 <= plan.price <= u64::MAX
                &&& 0 <= plan.slippage
                &&& 0 <= plan.fee <= plan.total
                &&& plan.total == plan.price * plan.filled + plan.fee
                &&& plan.total <= cash
            },
            None => true,
        },
{
    let filled = fillable(depth(book.levels(side)) as int, size as int);
    if filled > 0 {
        match (vwap(book.levels(side), filled), book.spec_midpoint()) {
            (Some(price), Some(mid)) => {
                lemma_walk_notional_bound(book.levels(side), filled);
                assert(0 <= price <= u64::MAX) by (nonlinear_arith)
                    requires
                        filled > 0,
                        price == walk_notional(book.levels(side), filled) / filled,
                        0 <= walk_notional(book.levels(side), filled) <= filled * u64::MAX,
                ;
                assert(0 <= price * filled) by (nonlinear_arith)
                    requires
                        0 <= price,
                        0 < filled,
                ;
                lemma_fee_in_cash_bounds(price * filled, engine.fee_model.taker_fee_bps as int);
                if mid != 0 {
                    assert(0 <= abs_diff(price, mid) * SCALE / mid) by (nonlinear_arith)
                        requires
                            0 <= abs_diff(price, mid),
                            0 < mid,
                            SCALE > 0,
                    ;
                }
            },
            _ => {},
        }
    }
}

/// Only three things keep an order from executing: nothing to fill, because
/// the order is empty or its side of the book is; no midpoint to measure
/// against, because a side of the book is empty or the midpoint is zero; and
/// too little cash.
pub proof fn lemma_execution_fails_only_for_cause(
    engine: ExecutionEngine,
    book: OrderBook,
    size: u64,
    side: Side,
    cash: u128,
)
    ensures
        engine.spec_execute(&book, size as int, side, cash as int) is None <==> {
            let filled = fillable(depth(book.levels(side)) as int, size as int);
            ||| size == 0
            ||| depth(book.levels(side)) == 0
            ||| book.spec_midpoint() is None
            ||| book.spec_midpoint() == Some(0int)
            ||| cash < vwap(book.levels(side), filled).unwrap() * filled + fee_in_cash(
                vwap(book.levels(side), filled).unwrap() * filled,
                engine.fee_model.taker_fee_bps as int,
            )
        },
{
}

/// The slippage that an execution records is the size of the slippage that
/// the slippage model reports for the filled size, whichever its sign.
pub proof fn lemma_execution_slippage_is_magnitude(
    engine: ExecutionEngine,
    book: OrderBook,
    size: u64,
    side: Side,
    cash: u128,
)
    ensures
        match engine.spec_execute(&book, size as int, side, cash as int) {
            Some(plan) => match SlippageModel::spec_calculate(&book, plan.filled, side) {
                Some(signed) => plan.slippage == abs_diff(signed, 0),
                None => false,
            },
            None => true,
        },
{
}

impl ExecutionEngine {
    /// The execution of an order for `size` on `side` by a wallet holding
    /// `cash`. There is none when nothing would fill, when the book has no
    /// midpoint or a midpoint of zero, or when `cash` is less than notional
    /// plus taker fee. Otherwise the order executes at the size the fill
    /// model gives, the smaller of the size asked for and the liquidity, and
    /// never at less.
    pub open spec fn spec_execute(
        &self,
        book: &OrderBook,
        size: int,
        side: Side,
        cash: int,
    ) -> Option<ExecutionPlan> {
        let filled = fillable(depth(book.levels(side)) as int, size);
        if filled <= 0 {
            None
        } else {
            match (vwap(book.levels(side), filled), book.spec_midpoint()) {
                (Some(price), Some(mid)) => {
                    let notional = price * filled;
                    let fee = fee_in_cash(notional, self.fee_model.taker_fee_bps as int);
                    if mid == 0 || cash < notional + fee {
                        None
                    } else {
                        Some(
                            ExecutionPlan {
                                filled,
                                price,
                                slippage: abs_diff(price, mid) * SCALE / mid,
                                fee,
                                total: notional + fee,
                                success: true,
                            },
                        )
                    }
                },
                _ => None,
            }
        }
    }

    /// An engine that charges fees by `fee_model`.
    pub fn new(fee_model: FeeModel) -> (engine: Self)
        ensures
            engine.fee_model == fee_model,
    {
        ExecutionEngine { fee_model }
    }

    /// Simulates the execution of an order for `size` on `side`. On
    /// success the wallet pays notional plus taker fee and the fee is added
    /// to its tally; otherwise the wallet is left as it was. The tally of
    /// fees has to have room for the fee.
    pub fn execute(&self, book: &OrderBook, size: u64, side: Side, wallet: &mut Wallet) -> (result:
        Option<ExecutionResult>)
        requires
            match self.spec_execute(book, size as int, side, old(wallet).usdc as int) {
                Some(plan) => old(wallet).total_fees_paid + plan.fee <= u128::MAX,
                None => true,
            },
        ensures
            match result {
                Some(done) => {
                    &&& self.spec_execute(book, size as int, side, old(wallet).usdc as int) == Some(
                        done.plan(),
                    )
                    &&& done.success
                    &&& final(wallet).usdc == old(wallet).usdc - done.total_cost
                    &&& final(wallet).total_fees_paid == old(wallet).total_fees_paid + done.fee_paid
                },
                None => {
                    &&& self.spec_execute(book, size as int, side, old(wallet).usdc as int) is None
                    &&& *final(wallet) == *old(wallet)
                },
            },
            final(wallet).positions == old(wallet).positions,
            final(wallet).starting_balance == old(wallet).starting_balance,
            final(wallet).total_trades == old(wallet).total_trades,
            final(wallet).winning_trades == old(wallet).winning_trades,
            old(wallet).wf() ==> final(wallet).wf(),
    {
        let filled_size: u64 = FillModel::filled_size(book, size, side);
        if filled_size == 0 {
            return None;
        }
        let exec_price: u64 = match book.execution_price(filled_size, side) {
            Some(price) => price,
            None => { return None; },
        };
        let midpoint: u64 = match book.midpoint() {
            Some(mid) => mid,
            None => { return None; },
        };
        if midpoint == 0 {
            return None;
        }
        let slippage: u128 = if exec_price >= midpoint {
            deviation_magnitude(exec_price - midpoint, midpoint)
        } else {
            deviation_magnitude(midpoint - exec_price, midpoint)
        };
        proof {
            assert(0 <= exec_price * filled_size <= u64::MAX * u64::MAX) by (nonlinear_arith);
            lemma_fee_in_cash_bounds(
                exec_price * filled_size,
                self.fee_model.taker_fee_bps as int,
            );
        }
        let notional: u128 = exec_price as u128 * filled_size as u128;
        let fee: u128 = match self.fee_model.charge(notional, false) {
            Some(due) => due,
            None => { return None; },
        };
        let total_cost: u128 = match notional.checked_add(fee) {
            Some(total) => total,
            None => { return None; },
        };
        if !wallet.can_afford(total_cost) {
            return None;
        }
        wallet.deduct(total_cost);
        wallet.record_fee(fee);
        Some(
            ExecutionResult {
                filed_size: filled_size,
                execution_price: exec_price,
                fee_paid: fee,
                slippage,
                total_cost,
                success: true,
            },
        )
    }
}

} // verus!
