//! The simulated wallet: cash, open positions, and the running tallies of
//! fees and trades.

use crate::types::Side;
use crate::units::SCALE;
use vstd::prelude::*;

verus! {

/// An open position in one token: `size` millionths of it, entered at
/// `entry_price`.
#[derive(Debug, Clone)]
pub struct Position {
    pub token_id: String,
    pub side: Side,
    pub size: u64,
    pub entry_price: u64,
    pub entry_time: u64,
}

/// Simulated balance sheet. Cash is unsigned and so never negative; the
/// positions are kept in the order in which their tokens were first opened,
/// at most one for each token.
#[derive(Debug, Clone)]
pub struct Wallet {
    /// Cash balance.
    pub usdc: u128,
    pub positions: Vec<Position>,
    /// Cash that the wallet was created with.
    pub starting_balance: u128,
    /// Fees paid so far, in cash.
    pub total_fees_paid: u128,
    pub total_trades: u32,
    pub winning_trades: u32,
}

/// Whether `positions` holds a position in `token`.
pub open spec fn holds_position(positions: Seq<Position>, token: Seq<char>) -> bool {
    exists|i: int| 0 <= i < positions.len() && #[trigger] positions[i].token_id@ == token
}

/// Whether `index` is where the first position in `token` stands.
pub open spec fn is_first_position(positions: Seq<Position>, token: Seq<char>, index: int) -> bool {
    &&& 0 <= index < positions.len()
    &&& positions[index].token_id@ == token
    &&& forall|j: int| 0 <= j < index ==> #[trigger] positions[j].token_id@ != token
}

/// Where the first position in `token` stands, provided there is one.
pub open spec fn position_index(positions: Seq<Position>, token: Seq<char>) -> int
    recommends
        holds_position(positions, token),
{
    choose|index: int| is_first_position(positions, token, index)
}

/// No two positions are in the same token.
pub open spec fn distinct_tokens(positions: Seq<Position>) -> bool {
    forall|i: int, j: int|
        0 <= i < j < positions.len() ==> #[trigger] positions[i].token_id@
            != #[trigger] positions[j].token_id@
}

/// `positions` with `position` put in the place of the one held in the same
/// token, or added at the end where none is held.
pub open spec fn with_position(positions: Seq<Position>, position: Position) -> Seq<Position> {
    if holds_position(positions, position.token_id@) {
        positions.update(position_index(positions, position.token_id@), position)
    } else {
        positions.push(position)
    }
}

/// Profit realised by closing `position` at `exit_price`, in cash: what the
/// price gained for a bought position, what it lost for a sold one, times
/// the size.
pub open spec fn realized_pnl(position: Position, exit_price: int) -> int {
    match position.side {
        Side::Buy => (exit_price - position.entry_price) * position.size,
        Side::Sell => (position.entry_price - exit_price) * position.size,
    }
}

/// Cash that closing `position` at `exit_price` brings in.
pub open spec fn proceeds(position: Position, exit_price: int) -> int {
    position.size * exit_price
}

/// The price quoted for `token`: that of the first quote in it, and zero
/// where there is none.
pub open spec fn price_of(prices: Seq<(String, u64)>, token: Seq<char>) -> int
    decreases prices.len(),
{
    if prices.len() == 0 {
        0
    } else if prices[0].0@ == token {
        prices[0].1 as int
    } else {
        price_of(prices.skip(1), token)
    }
}

/// Value of `positions` at `prices`: size times quoted price, over all of
/// them.
pub open spec fn holdings_value(positions: Seq<Position>, prices: Seq<(String, u64)>) -> int
    decreases positions.len(),
{
    if positions.len() == 0 {
        0
    } else {
        holdings_value(positions.drop_last(), prices) + positions.last().size * price_of(
            prices,
            positions.last().token_id@,
        )
    }
}

/// Cash left when `amount` is asked of `cash`: the difference where cash
/// covers the amount, and the cash untouched where it does not.
pub open spec fn cash_after_deduct(cash: int, amount: int) -> int {
    if cash >= amount {
        cash - amount
    } else {
        cash
    }
}

/// Cash left after each of `amounts` has been asked of it in turn.
pub open spec fn cash_after_deducts(cash: int, amounts: Seq<u128>) -> int
    decreases amounts.len(),
{
    if amounts.len() == 0 {
        cash
    } else {
        cash_after_deduct(cash_after_deducts(cash, amounts.drop_last()), amounts.last() as int)
    }
}

/// Share of `winning` in `total` as a fraction in millionths, rounded down;
/// zero when nothing was traded.
pub open spec fn win_ratio(winning: int, total: int) -> int {
    if total == 0 {
        0
    } else {
        winning * SCALE / total
    }
}

/// Whatever is deducted from a wallet, and however often, its cash never
/// falls below zero and never grows.
pub proof fn lemma_deducts_keep_cash_nonnegative(wallet: Wallet, amounts: Seq<u128>)
    ensures
        0 <= cash_after_deducts(wallet.usdc as int, amounts) <= wallet.usdc,
    decreases amounts.len(),
{
    if amounts.len() > 0 {
        lemma_deducts_keep_cash_nonnegative(wallet, amounts.drop_last());
    }
}

/// Where a position in a token is held, `position_index` points at the first
/// one.
pub proof fn lemma_position_index_is_first(positions: Seq<Position>, token: Seq<char>)
    requires
        holds_position(positions, token),
    ensures
        is_first_position(positions, token, position_index(positions, token)),
    decreases positions.len(),
{
    let found = choose|i: int| 0 <= i < positions.len() && #[trigger] positions[i].token_id@ == token;
    lemma_first_position_exists(positions, token, found);
}

/// Before any position in a token stands a first one.
proof fn lemma_first_position_exists(positions: Seq<Position>, token: Seq<char>, found: int)
    requires
        0 <= found < positions.len(),
        positions[found].token_id@ == token,
    ensures
        exists|index: int| is_first_position(positions, token, index),
    decreases found,
{
    if exists|j: int| 0 <= j < found && #[trigger] positions[j].token_id@ == token {
        let earlier = choose|j: int| 0 <= j < found && #[trigger] positions[j].token_id@ == token;
        lemma_first_position_exists(positions, token, earlier);
    } else {
        assert(is_first_position(positions, token, found));
    }
}

/// There is only one first position in a token.
pub proof fn lemma_first_position_unique(
    positions: Seq<Position>,
    token: Seq<char>,
    index: int,
)
    requires
        is_first_position(positions, token, index),
    ensures
        holds_position(positions, token),
        position_index(positions, token) == index,
{
}

/// A quote is never negative, nor above what 64 bits hold.
pub proof fn lemma_price_of_bounds(prices: Seq<(String, u64)>, token: Seq<char>)
    ensures
        0 <= price_of(prices, token) <= u64::MAX,
    decreases prices.len(),
{
    if prices.len() > 0 && prices[0].0@ != token {
        lemma_price_of_bounds(prices.skip(1), token);
    }
}

/// The value of the first `count` positions is never negative and never
/// above the value of all of them.
pub proof fn lemma_holdings_value_prefix(
    positions: Seq<Position>,
    prices: Seq<(String, u64)>,
    count: int,
)
    requires
        0 <= count <= positions.len(),
    ensures
        0 <= holdings_value(positions.take(count), prices) <= holdings_value(positions, prices),
    decreases positions.len(),
{
    if positions.len() > 0 {
        lemma_price_of_bounds(prices, positions.last().token_id@);
        if count == positions.len() {
            assert(positions.take(count) =~= positions);
            lemma_holdings_value_prefix(positions.drop_last(), prices, count - 1);
        } else {
            assert(positions.drop_last().take(count) =~= positions.take(count));
            lemma_holdings_value_prefix(positions.drop_last(), prices, count);
        }
    }
}

/// Looks up the price quoted for `token`.
fn quoted_price(prices: &[(String, u64)], token: &String) -> (price: u64)
    ensures
        price == price_of(prices@, token@),
{
    let mut i: usize = 0;
    proof {
        assert(prices@.skip(0) =~= prices@);
    }
    while i < prices.len()
        invariant
            0 <= i <= prices@.len(),
            price_of(prices@, token@) == price_of(prices@.skip(i as int), token@),
        decreases prices@.len() - i,
    {
        if prices[i].0 == *token {
            return prices[i].1;
        }
        proof {
            assert(prices@.skip(i as int).skip(1) =~= prices@.skip(i + 1));
        }
        i = i + 1;
    }
    0
}

impl Wallet {
    /// Cash and positions agree with how a wallet is kept: no token has two
    /// positions, and no more trades were won than made.
    pub open spec fn wf(&self) -> bool {
        &&& distinct_tokens(self.positions@)
        &&& self.winning_trades <= self.total_trades
    }

    /// Cash plus the value of the open positions at `prices`.
    pub open spec fn spec_equity(&self, prices: Seq<(String, u64)>) -> int {
        self.usdc + holdings_value(self.positions@, prices)
    }

    /// A wallet that holds `starting_balance` in cash and nothing else.
    pub fn new(starting_balance: u128) -> (wallet: Self)
        ensures
            wallet.usdc == starting_balance,
            wallet.positions@ == Seq::<Position>::empty(),
            wallet.starting_balance == starting_balance,
            wallet.total_fees_paid == 0,
            wallet.total_trades == 0,
            wallet.winning_trades == 0,
            wallet.wf(),
    {
        Wallet {
            usdc: starting_balance,
            positions: Vec::new(),
            starting_balance,
            total_fees_paid: 0,
            total_trades: 0,
            winning_trades: 0,
        }
    }

    /// Whether the cash covers `amount`.
    pub fn can_afford(&self, amount: u128) -> (affordable: bool)
        ensures
            affordable == (self.usdc >= amount),
    {
        self.usdc >= amount
    }

    /// Takes `amount` out of the cash if the cash covers it, and reports
    /// whether it did. A wallet that cannot afford the amount is left as it
    /// was.
    pub fn deduct(&mut self, amount: u128) -> (done: bool)
        ensures
            done == (old(self).usdc >= amount),
            final(self).usdc == cash_after_deduct(old(self).usdc as int, amount as int),
            !done ==> *final(self) == *old(self),
            final(self).positions == old(self).positions,
            final(self).starting_balance == old(self).starting_balance,
            final(self).total_fees_paid == old(self).total_fees_paid,
            final(self).total_trades == old(self).total_trades,
            final(self).winning_trades == old(self).winning_trades,
            old(self).wf() ==> final(self).wf(),
    {
        if self.can_afford(amount) {
            self.usdc = self.usdc - amount;
            true
        } else {
            false
        }
    }

    /// Adds `amount` to the cash, which has to have room for it.
    pub fn credit(&mut self, amount: u128)
        requires
            old(self).usdc + amount <= u128::MAX,
        ensures
            final(self).usdc == old(self).usdc + amount,
            final(self).positions == old(self).positions,
            final(self).starting_balance == old(self).starting_balance,
            final(self).total_fees_paid == old(self).total_fees_paid,
            final(self).total_trades == old(self).total_trades,
            final(self).winning_trades == old(self).winning_trades,
            old(self).wf() ==> final(self).wf(),
    {
        self.usdc = self.usdc + amount;
    }

    /// Adds `fee` to the fees paid so far; the tally has to have room for
    /// it.
    pub fn record_fee(&mut self, fee: u128)
        requires
            old(self).total_fees_paid + fee <= u128::MAX,
        ensures
            final(self).total_fees_paid == old(self).total_fees_paid + fee,
            final(self).usdc == old(self).usdc,
            final(self).positions == old(self).positions,
            final(self).starting_balance == old(self).starting_balance,
            final(self).total_trades == old(self).total_trades,
            final(self).winning_trades == old(self).winning_trades,
            old(self).wf() ==> final(self).wf(),
    {
        self.total_fees_paid = self.total_fees_paid + fee;
    }

    /// Counts one more trade, and one more win if it was one; the counters
    /// have to have room for it.
    pub fn record_trade(&mut self, is_winner: bool)
        requires
            old(self).total_trades < u32::MAX,
            is_winner ==> old(self).winning_trades < u32::MAX,
        ensures
            final(self).total_trades == old(self).total_trades + 1,
            final(self).winning_trades == old(self).winning_trades + (if is_winner {
                1int
            } else {
                0int
            }),
            final(self).usdc == old(self).usdc,
            final(self).positions == old(self).positions,
            final(self).starting_balance == old(self).starting_balance,
            final(self).total_fees_paid == old(self).total_fees_paid,
            old(self).wf() ==> final(self).wf(),
    {
        self.total_trades = self.total_trades + 1;
        if is_winner {
            self.winning_trades = self.winning_trades + 1;
        }
    }

    /// Current equity: cash plus each position's size at the price quoted
    /// for its token in `current_prices`; a token without a quote counts for
    /// nothing. The equity has to fit in 128 bits.
    pub fn equity(&self, current_prices: &[(String, u64)]) -> (value: u128)
        requires
            self.spec_equity(current_prices@) <= u128::MAX,
        ensures
            value == self.spec_equity(current_prices@),
    {
        let mut held: u128 = 0;
        let mut i: usize = 0;
        while i < self.positions.len()
            invariant
                0 <= i <= self.positions@.len(),
                held == holdings_value(self.positions@.take(i as int), current_prices@),
                self.spec_equity(current_prices@) <= u128::MAX,
            decreases self.positions@.len() - i,
        {
            let price: u64 = quoted_price(current_prices, &self.positions[i].token_id);
            proof {
                let all = self.positions@;
                assert(all.take(i + 1).drop_last() =~= all.take(i as int));
                lemma_holdings_value_prefix(all, current_prices@, i + 1);
            }
            held = held + (self.positions[i].size as u128) * (price as u128);
            i = i + 1;
        }
        proof {
            assert(self.positions@.take(i as int) =~= self.positions@);
        }
        self.usdc + held
    }

    /// Profit or loss against the starting balance, at `current_prices`.
    /// The equity has to fit in 128 bits, and the difference in 128 bits
    /// with a sign.
    pub fn pnl(&self, current_prices: &[(String, u64)]) -> (change: i128)
        requires
            self.spec_equity(current_prices@) <= u128::MAX,
            i128::MIN <= self.spec_equity(current_prices@) - self.starting_balance <= i128::MAX,
        ensures
            change == self.spec_equity(current_prices@) - self.starting_balance,
    {
        let value: u128 = self.equity(current_prices);
        if value >= self.starting_balance {
            (value - self.starting_balance) as i128
        } else {
            let loss: u128 = self.starting_balance - value;
            if loss > i128::MAX as u128 {
                i128::MIN
            } else {
                -(loss as i128)
            }
        }
    }

    /// Share of winning trades as a fraction in millionths, zero before the
    /// first trade.
    pub fn win_rate(&self) -> (rate: u64)
        ensures
            rate == win_ratio(self.winning_trades as int, self.total_trades as int),
    {
        if self.total_trades == 0 {
            0
        } else {
            (self.winning_trades as u64 * SCALE) / self.total_trades as u64
        }
    }

    /// Finds the first position in `token`.
    fn find_position(&self, token: &String) -> (found: Option<usize>)
        ensures
            match found {
                Some(index) => is_first_position(self.positions@, token@, index as int),
                None => !holds_position(self.positions@, token@),
            },
    {
        let mut i: usize = 0;
        while i < self.positions.len()
            invariant
                0 <= i <= self.positions@.len(),
                forall|j: int| 0 <= j < i ==> #[trigger] self.positions@[j].token_id@ != token@,
            decreases self.positions@.len() - i,
        {
            if self.positions[i].token_id == *token {
                return Some(i);
            }
            i = i + 1;
        }
        None
    }

    /// Opens a position in `token_id`. A position already held in that token
    /// is overwritten, its entry price and size with it.
    pub fn open_position(
        &mut self,
        token_id: String,
        side: Side,
        size: u64,
        price: u64,
        timestamp: u64,
    )
        ensures
            final(self).positions@ == with_position(
                old(self).positions@,
                (Position { token_id, side, size, entry_price: price, entry_time: timestamp }),
            ),
            final(self).usdc == old(self).usdc,
            final(self).starting_balance == old(self).starting_balance,
            final(self).total_fees_paid == old(self).total_fees_paid,
            final(self).total_trades == old(self).total_trades,
            final(self).winning_trades == old(self).winning_trades,
            old(self).wf() ==> final(self).wf(),
    {
        let found: Option<usize> = self.find_position(&token_id);
        let position = Position { token_id, side, size, entry_price: price, entry_time: timestamp };
        match found {
            Some(index) => {
                self.positions.set(index, position);
            },
            None => {
                self.positions.push(position);
            },
        }
    }

    /// Closes the position in `token_id` at `exit_price`: takes it out of
    /// the wallet, credits what it sells for, and returns the profit
    /// realised. Returns nothing, and changes nothing, when no position in
    /// that token is open. The cash has to have room for the proceeds, and
    /// the profit has to fit in 128 bits.
    pub fn close_position(&mut self, token_id: &str, exit_price: u64) -> (pnl: Option<i128>)
        requires
            holds_position(old(self).positions@, token_id@) ==> {
                let held = old(self).positions@[position_index(old(self).positions@, token_id@)];
                &&& old(self).usdc + proceeds(held, exit_price as int) <= u128::MAX
                &&& i128::MIN <= realized_pnl(held, exit_price as int) <= i128::MAX
            },
        ensures
            !holds_position(old(self).positions@, token_id@) ==> pnl is None && *final(self)
                == *old(self),
            holds_position(old(self).positions@, token_id@) ==> {
                let index = position_index(old(self).positions@, token_id@);
                let held = old(self).positions@[index];
                &&& match pnl {
                    Some(realized) => realized == realized_pnl(held, exit_price as int),
                    None => false,
                }
                &&& final(self).positions@ == old(self).positions@.remove(index)
                &&& final(self).usdc == old(self).usdc + proceeds(held, exit_price as int)
            },
            final(self).starting_balance == old(self).starting_balance,
            final(self).total_fees_paid == old(self).total_fees_paid,
            final(self).total_trades == old(self).total_trades,
            final(self).winning_trades == old(self).winning_trades,
            old(self).wf() ==> final(self).wf(),
    {
        let token: String = token_id.to_owned();
        match self.find_position(&token) {
            Some(index) => {
                let held: Position = self.positions.remove(index);
                let gain: i128 = match held.side {
                    Side::Buy => exit_price as i128 - held.entry_price as i128,
                    Side::Sell => held.entry_price as i128 - exit_price as i128,
                };
                let change: i128 = gain * held.size as i128;
                self.credit(held.size as u128 * exit_price as u128);
                Some(change)
            },
            None => None,
        }
    }
}

} // verus!
