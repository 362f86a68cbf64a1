use polyshark::types::{OrderBook, PriceLevel, Side};

/// One token.
const T: u64 = 1_000_000;

fn level(price: u64, size: u64) -> PriceLevel {
    PriceLevel { price, size }
}

fn book(bids: Vec<PriceLevel>, asks: Vec<PriceLevel>) -> OrderBook {
    OrderBook { token_id: "yes-token".to_string(), bids, asks, timestamp: 1_700_000_000 }
}

fn sample_book() -> OrderBook {
    book(vec![level(490_000, 500 * T)], vec![level(510_000, 400 * T), level(520_000, 700 * T)])
}

#[test]
fn execution_price_walks_two_ask_levels() {
    // 400 @ 0.51 + 200 @ 0.52 over 600 tokens, rounded down.
    assert_eq!(sample_book().execution_price(600 * T, Side::Buy), Some(513_333));
}

#[test]
fn execution_price_within_first_level_is_that_level() {
    assert_eq!(sample_book().execution_price(400 * T, Side::Buy), Some(510_000));
    assert_eq!(sample_book().execution_price(T, Side::Buy), Some(510_000));
    assert_eq!(sample_book().execution_price(T / 2, Side::Buy), Some(510_000));
    assert_eq!(sample_book().execution_price(1, Side::Buy), Some(510_000));
}

#[test]
fn execution_price_sell_walks_bids() {
    let b = book(vec![level(490_000, 500), level(480_000, 800)], vec![level(510_000, 400)]);
    assert_eq!(b.execution_price(500, Side::Sell), Some(490_000));
    // 500 @ 0.49 + 500 @ 0.48 over 1000 tokens.
    assert_eq!(b.execution_price(1_000, Side::Sell), Some(485_000));
}

#[test]
fn execution_price_takes_exactly_all_liquidity() {
    // 400 * 510_000 + 700 * 520_000 = 568_000_000; over 1100 -> 516_363.63..
    assert_eq!(sample_book().execution_price(1_100 * T, Side::Buy), Some(516_363));
}

#[test]
fn execution_price_fails_one_past_all_liquidity() {
    assert_eq!(sample_book().execution_price(1_100 * T + 1, Side::Buy), None);
    assert_eq!(sample_book().execution_price(500 * T + 1, Side::Sell), None);
}

#[test]
fn execution_price_on_empty_side_is_none() {
    let no_asks = book(vec![level(490_000, 500)], vec![]);
    assert_eq!(no_asks.execution_price(1, Side::Buy), None);
    assert_eq!(no_asks.execution_price(u64::MAX, Side::Buy), None);
    assert_eq!(no_asks.execution_price(1, Side::Sell), Some(490_000));
    let no_bids = book(vec![], vec![level(510_000, 400)]);
    assert_eq!(no_bids.execution_price(1, Side::Sell), None);
}

#[test]
fn execution_price_reads_levels_in_given_order() {
    // The walk does not sort: a worse level listed first is taken first.
    let b = book(vec![], vec![level(520_000, 100), level(510_000, 100)]);
    assert_eq!(b.execution_price(100, Side::Buy), Some(520_000));
    assert_eq!(b.execution_price(200, Side::Buy), Some(515_000));
}

#[test]
fn execution_price_skips_empty_levels() {
    let b = book(vec![], vec![level(500_000, 0), level(510_000, 10)]);
    assert_eq!(b.execution_price(10, Side::Buy), Some(510_000));
}

#[test]
fn execution_price_at_the_limits_of_the_types() {
    let b = book(vec![], vec![level(u64::MAX, u64::MAX)]);
    assert_eq!(b.execution_price(u64::MAX, Side::Buy), Some(u64::MAX));
}

#[test]
fn best_prices_are_the_first_levels() {
    let b = sample_book();
    assert_eq!(b.best_bid(), Some(490_000));
    assert_eq!(b.best_ask(), Some(510_000));
    let empty = book(vec![], vec![]);
    assert_eq!(empty.best_bid(), None);
    assert_eq!(empty.best_ask(), None);
}

#[test]
fn midpoint_is_average_of_best_prices() {
    assert_eq!(sample_book().midpoint(), Some(500_000));
}

#[test]
fn midpoint_rounds_down() {
    let b = book(vec![level(490_000, 1)], vec![level(490_001, 1)]);
    assert_eq!(b.midpoint(), Some(490_000));
}

#[test]
fn midpoint_needs_both_sides() {
    assert_eq!(book(vec![level(490_000, 1)], vec![]).midpoint(), None);
    assert_eq!(book(vec![], vec![level(510_000, 1)]).midpoint(), None);
    assert_eq!(book(vec![], vec![]).midpoint(), None);
}

#[test]
fn midpoint_of_largest_prices_does_not_overflow() {
    let b = book(vec![level(u64::MAX, 1)], vec![level(u64::MAX, 1)]);
    assert_eq!(b.midpoint(), Some(u64::MAX));
}

#[test]
fn spred_is_ask_minus_bid() {
    assert_eq!(sample_book().spred(), Some(20_000));
    assert_eq!(book(vec![level(490_000, 1)], vec![]).spred(), None);
}

#[test]
fn spred_of_crossed_book_is_negative() {
    let b = book(vec![level(520_000, 1)], vec![level(510_000, 1)]);
    assert_eq!(b.spred(), Some(-10_000));
}

#[test]
fn total_liquidity_adds_up_each_side() {
    let b = sample_book();
    assert_eq!(b.total_bid_liquidity(), 500_000_000);
    assert_eq!(b.total_ask_liquidity(), 1_100_000_000);
    assert_eq!(book(vec![], vec![]).total_bid_liquidity(), 0);
    assert_eq!(book(vec![], vec![]).total_ask_liquidity(), 0);
}

#[test]
fn total_liquidity_can_exceed_64_bits() {
    let b = book(vec![level(1, u64::MAX), level(1, u64::MAX)], vec![]);
    assert_eq!(b.total_bid_liquidity(), 2 * (u64::MAX as u128));
}

#[test]
fn execution_price_lies_between_best_and_worst_level_taken() {
    let b = sample_book();
    for size in [1u64, T / 2, 400 * T, 400 * T + 1, 600 * T, 1_000 * T, 1_100 * T] {
        let price = b.execution_price(size, Side::Buy).unwrap();
        assert!(510_000 <= price && price <= 520_000);
    }
    let bids = book(vec![level(490_000, 500), level(480_000, 800), level(450_000, 10)], vec![]);
    for size in [1u64, 500, 501, 1_300, 1_310] {
        let price = bids.execution_price(size, Side::Sell).unwrap();
        assert!(450_000 <= price && price <= 490_000);
    }
}

#[test]
fn execution_price_of_sorted_asks_never_falls_with_size() {
    let b = book(vec![], vec![level(510_000, 400), level(520_000, 700), level(600_000, 50)]);
    let mut last = 0u64;
    for size in 1..=1_150u64 {
        let price = b.execution_price(size, Side::Buy).unwrap();
        assert!(price >= last);
        last = price;
    }
    // (400 * 510_000 + 700 * 520_000 + 50 * 600_000) / 1150
    assert_eq!(last, 520_000);
}

#[test]
fn execution_price_of_half_a_token() {
    let b = book(vec![], vec![level(510_000, T / 2), level(520_000, T / 2)]);
    assert_eq!(b.execution_price(T / 2, Side::Buy), Some(510_000));
    assert_eq!(b.execution_price(T, Side::Buy), Some(515_000));
    assert_eq!(b.execution_price(T + 1, Side::Buy), None);
    assert_eq!(b.total_ask_liquidity(), 1_000_000);
}

#[test]
fn trade_record_holds_a_fill() {
    let t = polyshark::types::Trade {
        id: "t-1".to_string(),
        token_id: "yes-token".to_string(),
        price: 490_000,
        size: 200 * T,
        side: Side::Buy,
        timestamp: 1_700_000_000,
    };
    let copy = t.clone();
    assert_eq!(copy.id, "t-1");
    assert_eq!(copy.token_id, "yes-token");
    assert_eq!(copy.price, 490_000);
    assert_eq!(copy.size, 200_000_000);
    assert_eq!(copy.side, Side::Buy);
    assert_eq!(copy.timestamp, 1_700_000_000);
}
