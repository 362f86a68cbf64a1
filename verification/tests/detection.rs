use polyshark::arb::{ArbitrageDetector, FEE_LEGS};
use polyshark::constraint::ConstraintChecker;
use polyshark::types::{ArbitrageSignal, Market, Side, BALANCE_TOLERANCE};

/// One token.
const T: u64 = 1_000_000;

fn market(id: &str, prices: Vec<u64>) -> Market {
    Market {
        id: id.to_string(),
        question: "Will the proposal pass?".to_string(),
        slug: "proposal-pass".to_string(),
        outcomes: vec!["Yes".to_string(), "No".to_string()],
        outcome_prices: prices,
        clob_token_ids: vec!["101".to_string(), "102".to_string()],
        best_bid: None,
        best_ask: None,
        maker_base_fee: 0,
        taker_base_fee: 200,
        liquidity: 0,
        volume_24hr: 0,
        active: true,
        accepting_orders: true,
    }
}

fn signal(edge: u128, yes_price: u64) -> ArbitrageSignal {
    ArbitrageSignal {
        market_id: "m".to_string(),
        spread: edge,
        edge,
        recommended_side: Side::Buy,
        yes_price,
        no_price: 0,
    }
}

#[test]
fn balanced_market_has_no_spread() {
    let m = market("even", vec![500_000, 500_000]);
    assert_eq!(m.price_total(), 1_000_000);
    assert_eq!(m.get_spread(), 0);
    assert!(m.is_balanced());
}

#[test]
fn underpriced_market_has_spread() {
    let m = market("cheap", vec![480_000, 470_000]);
    assert_eq!(m.get_spread(), 50_000);
    assert!(!m.is_balanced());
}

#[test]
fn overpriced_market_has_spread() {
    let m = market("dear", vec![530_000, 500_000]);
    assert_eq!(m.get_spread(), 30_000);
    assert!(!m.is_balanced());
}

#[test]
fn balance_tolerance_is_strict() {
    assert_eq!(BALANCE_TOLERANCE, 1_000);
    assert!(market("a", vec![500_000, 500_999]).is_balanced());
    assert!(!market("b", vec![500_000, 501_000]).is_balanced());
    assert!(market("c", vec![500_000, 499_001]).is_balanced());
    assert!(!market("d", vec![500_000, 499_000]).is_balanced());
}

#[test]
fn spread_adds_up_every_outcome() {
    assert_eq!(market("three", vec![300_000, 300_000, 600_000]).get_spread(), 200_000);
    assert_eq!(market("none", vec![]).get_spread(), 1_000_000);
    assert_eq!(market("one", vec![400_000]).get_spread(), 600_000);
}

#[test]
fn spread_of_very_large_prices_does_not_overflow() {
    let m = market("huge", vec![u64::MAX, u64::MAX, u64::MAX]);
    assert_eq!(m.get_spread(), 3 * (u64::MAX as u128) - 1_000_000);
}

#[test]
fn yes_and_no_price_are_first_two_outcomes() {
    let m = market("m", vec![480_000, 470_000]);
    assert_eq!(m.yes_price(), 480_000);
    assert_eq!(m.no_price(), 470_000);
}

#[test]
fn missing_outcome_prices_read_as_zero() {
    assert_eq!(market("none", vec![]).yes_price(), 0);
    assert_eq!(market("none", vec![]).no_price(), 0);
    assert_eq!(market("one", vec![400_000]).yes_price(), 400_000);
    assert_eq!(market("one", vec![400_000]).no_price(), 0);
}

#[test]
fn checker_is_silent_on_balanced_market() {
    let checker = ConstraintChecker::new(20_000);
    assert!(checker.check_violation(&market("even", vec![500_000, 500_000])).is_none());
}

#[test]
fn checker_is_silent_at_the_threshold() {
    let checker = ConstraintChecker::new(50_000);
    assert!(checker.check_violation(&market("at", vec![480_000, 470_000])).is_none());
    let just_below = ConstraintChecker::new(49_999);
    assert!(just_below.check_violation(&market("at", vec![480_000, 470_000])).is_some());
}

#[test]
fn checker_recommends_buy_when_underpriced() {
    let checker = ConstraintChecker::new(20_000);
    let s = checker.check_violation(&market("cheap", vec![480_000, 470_000])).unwrap();
    assert_eq!(s.market_id, "cheap");
    assert_eq!(s.spread, 50_000);
    assert_eq!(s.edge, 50_000);
    assert_eq!(s.recommended_side, Side::Buy);
    assert_eq!(s.yes_price, 480_000);
    assert_eq!(s.no_price, 470_000);
}

#[test]
fn checker_recommends_sell_when_overpriced() {
    let checker = ConstraintChecker::new(20_000);
    let s = checker.check_violation(&market("dear", vec![530_000, 500_000])).unwrap();
    assert_eq!(s.spread, 30_000);
    assert_eq!(s.edge, 30_000);
    assert_eq!(s.recommended_side, Side::Sell);
    assert_eq!(s.yes_price, 530_000);
    assert_eq!(s.no_price, 500_000);
}

#[test]
fn checker_with_zero_threshold_signals_any_deviation() {
    let checker = ConstraintChecker::new(0);
    assert!(checker.check_violation(&market("even", vec![500_000, 500_000])).is_none());
    let s = checker.check_violation(&market("off", vec![500_000, 500_001])).unwrap();
    assert_eq!(s.spread, 1);
    assert_eq!(s.recommended_side, Side::Sell);
}

#[test]
fn detector_new_sets_both_thresholds() {
    let d = ArbitrageDetector::new(20_000, 1_500_000);
    assert_eq!(d.constraint_checker.min_spread_threshold, 20_000);
    assert_eq!(d.constraint_checker, ConstraintChecker::new(20_000));
    assert_eq!(d.min_profit_threshold, 1_500_000);
    assert_eq!(FEE_LEGS, 2);
}

#[test]
fn scan_of_balanced_and_underpriced_market() {
    let d = ArbitrageDetector::new(20_000, 0);
    let markets = vec![market("even", vec![500_000, 500_000]), market("cheap", vec![480_000, 470_000])];
    let signals = d.scan(&markets);
    assert_eq!(signals.len(), 1);
    assert_eq!(signals[0].market_id, "cheap");
    assert_eq!(signals[0].spread, 50_000);
    assert_eq!(signals[0].recommended_side, Side::Buy);
}

#[test]
fn scan_keeps_input_order() {
    let d = ArbitrageDetector::new(10_000, 0);
    let markets = vec![
        market("c", vec![530_000, 500_000]),
        market("a", vec![480_000, 470_000]),
        market("skip", vec![500_000, 500_000]),
        market("b", vec![600_000, 500_000]),
    ];
    let signals = d.scan(&markets);
    let ids: Vec<&str> = signals.iter().map(|s| s.market_id.as_str()).collect();
    assert_eq!(ids, vec!["c", "a", "b"]);
    let sides: Vec<Side> = signals.iter().map(|s| s.recommended_side).collect();
    assert_eq!(sides, vec![Side::Sell, Side::Buy, Side::Sell]);
}

#[test]
fn scan_passes_over_closed_markets() {
    let d = ArbitrageDetector::new(10_000, 0);
    let mut inactive = market("inactive", vec![480_000, 470_000]);
    inactive.active = false;
    let mut halted = market("halted", vec![480_000, 470_000]);
    halted.accepting_orders = false;
    let mut gone = market("gone", vec![480_000, 470_000]);
    gone.active = false;
    gone.accepting_orders = false;
    let open = market("open", vec![480_000, 470_000]);
    let signals = d.scan(&[inactive, halted, gone, open]);
    assert_eq!(signals.len(), 1);
    assert_eq!(signals[0].market_id, "open");
}

#[test]
fn scan_of_nothing_is_empty() {
    let d = ArbitrageDetector::new(10_000, 0);
    assert!(d.scan(&[]).is_empty());
}

#[test]
fn expected_profit_is_gross_less_fees_and_slippage() {
    let d = ArbitrageDetector::new(20_000, 0);
    // 100 tokens: gross 100 * 0.05 = 5.00
    //             fees  100 * 0.48 * 0.02 * 2 = 1.92
    //             slippage 100 * 0.01 = 1.00
    assert_eq!(
        d.expected_profit(&signal(50_000, 480_000), 100 * T, 20_000, 10_000),
        2_080_000_000_000
    );
    // Half a token: a two-hundredth of that.
    assert_eq!(
        d.expected_profit(&signal(50_000, 480_000), T / 2, 20_000, 10_000),
        10_400_000_000
    );
    assert_eq!(d.expected_profit(&signal(50_000, 480_000), 100, 20_000, 10_000), 2_080_000);
}

#[test]
fn expected_profit_without_costs_is_gross() {
    let d = ArbitrageDetector::new(20_000, 0);
    assert_eq!(d.expected_profit(&signal(50_000, 480_000), 100, 0, 0), 5_000_000);
    assert_eq!(d.expected_profit(&signal(50_000, 480_000), 0, 20_000, 10_000), 0);
}

#[test]
fn expected_profit_can_be_negative() {
    let d = ArbitrageDetector::new(20_000, 0);
    // gross 100 * 10_000 = 1_000_000, fees 1_920_000, slippage 1_000_000
    assert_eq!(d.expected_profit(&signal(10_000, 480_000), 100, 20_000, 10_000), -1_920_000);
}

#[test]
fn expected_profit_gains_from_favourable_slippage() {
    let d = ArbitrageDetector::new(20_000, 0);
    assert_eq!(d.expected_profit(&signal(50_000, 480_000), 100, 20_000, -10_000), 4_080_000);
}

#[test]
fn expected_profit_rounds_fees_down() {
    let d = ArbitrageDetector::new(20_000, 0);
    // fees 3 * 333_333 * 0.02 * 2 = 39_999.96, rounded down to 39_999
    assert_eq!(d.expected_profit(&signal(50_000, 333_333), 3, 20_000, 0), 150_000 - 39_999);
}

#[test]
fn expected_profit_of_large_trade_fits() {
    let d = ArbitrageDetector::new(20_000, 0);
    // size * yes_price * fee_rate * 2 is (2^64 - 1) * 2^71, which does not
    // fit in 128 bits; divided by 1_000_000 it does.
    let size = u64::MAX;
    let yes = 1u64 << 40;
    let rate = 1u64 << 30;
    let gross: i128 = 18_446_744_073_709_551_615_000_000_000_000_000;
    let fees: i128 = 43_556_142_965_880_123_320_950_766_509_831_508;
    assert_eq!(
        d.expected_profit(&signal(1_000_000_000_000_000, yes), size, rate, 0),
        gross - fees
    );
}

#[test]
fn should_trade_is_strict_at_the_threshold() {
    let s = signal(50_000, 480_000);
    let below = ArbitrageDetector::new(20_000, 2_079_999_999_999);
    let at = ArbitrageDetector::new(20_000, 2_080_000_000_000);
    let above = ArbitrageDetector::new(20_000, 2_080_000_000_001);
    assert!(below.should_trade(&s, 100 * T, 20_000, 10_000));
    assert!(!at.should_trade(&s, 100 * T, 20_000, 10_000));
    assert!(!above.should_trade(&s, 100 * T, 20_000, 10_000));
}

#[test]
fn should_trade_is_not_moved_by_the_rounding_of_fees() {
    // fees 3 * 333_333 * 0.02 * 2 = 39_999.96: the net is 110_000.04 before
    // the fees are rounded down, and 110_001 after.
    let s = signal(50_000, 333_333);
    assert_eq!(ArbitrageDetector::new(0, 0).expected_profit(&s, 3, 20_000, 0), 110_001);
    assert!(ArbitrageDetector::new(0, 110_000).should_trade(&s, 3, 20_000, 0));
    assert!(!ArbitrageDetector::new(0, 110_001).should_trade(&s, 3, 20_000, 0));
}

#[test]
fn should_trade_with_negative_threshold_accepts_small_loss() {
    let s = signal(10_000, 480_000);
    let lenient = ArbitrageDetector::new(20_000, -2_000_000);
    let strict = ArbitrageDetector::new(20_000, -1_920_000);
    assert!(lenient.should_trade(&s, 100, 20_000, 10_000));
    assert!(!strict.should_trade(&s, 100, 20_000, 10_000));
}

#[test]
fn price_total_of_binary_market_is_yes_plus_no() {
    for prices in [vec![480_000u64, 470_000], vec![0, 0], vec![u64::MAX, u64::MAX], vec![1, 999_999]] {
        let m = market("m", prices);
        assert_eq!(m.price_total(), m.yes_price() as u128 + m.no_price() as u128);
    }
}

#[test]
fn scan_signals_all_exceed_the_threshold() {
    let d = ArbitrageDetector::new(30_000, 0);
    let markets = vec![
        market("a", vec![480_000, 470_000]),
        market("b", vec![530_000, 500_000]),
        market("c", vec![530_000, 500_001]),
        market("d", vec![500_000, 469_999]),
        market("e", vec![500_000, 470_000]),
    ];
    let signals = d.scan(&markets);
    let ids: Vec<&str> = signals.iter().map(|s| s.market_id.as_str()).collect();
    assert_eq!(ids, vec!["a", "c", "d"]);
    for s in &signals {
        assert!(s.spread > 30_000);
        assert_eq!(s.edge, s.spread);
    }
    assert!(signals.len() <= markets.len());
}

#[test]
fn should_trade_decides_exactly_at_any_magnitude() {
    // edge, size, yes price, fee rate, slippage, threshold, decision
    let cases: Vec<(u128, u64, u64, u64, i128, i128, bool)> = vec![
        (340282366920938463463374607431768211455, 18446744073709551615, 18446744073709551615, 18446744073709551615, i128::MIN, i128::MIN, true),
        (340282366920938463463374607431768211455, 18446744073709551615, 18446744073709551615, 18446744073709551615, 170141183460469231731687303715884105727, 170141183460469231731687303715884105727, true),
        (0, 18446744073709551615, 18446744073709551615, 18446744073709551615, 170141183460469231731687303715884105727, 170141183460469231731687303715884105727, false),
        (340282366920938463463374607431768211455, 18446744073709551615, 0, 0, 170141183460469231731687303715884105727, i128::MIN, true),
        (0, 0, 0, 0, 0, 0, false),
        (0, 0, 0, 0, 0, -1, true),
        (1, 1, 0, 0, 1, 0, false),
        (1, 1, 0, 0, 1, -1, true),
        (1267650600228229401496703205376, 1099511627776, 1125899906842624, 1073741824, -1237940039285380274899124224, 85070591730234615865843651857942052864, true),
    ];
    for (edge, size, yes, rate, slippage, threshold, trade) in cases {
        let d = ArbitrageDetector::new(0, threshold);
        assert_eq!(d.should_trade(&signal(edge, yes), size, rate, slippage), trade);
    }
}

#[test]
fn should_trade_is_strict_around_any_net_profit() {
    // edge, size, yes price, fee rate, slippage, threshold, decision; the
    // thresholds are the net profit and its two neighbours
    let cases: Vec<(u128, u64, u64, u64, i128, i128, bool)> = vec![
        (645373617955227980, 560286353526, 193630, 660479, -3084, 361594031065874944748024981039, true),
        (645373617955227980, 560286353526, 193630, 660479, -3084, 361594031065874944748024981040, false),
        (645373617955227980, 560286353526, 193630, 660479, -3084, 361594031065874944748024981041, false),
        (104536008490266524, 16424620972549922111, 624360, 1011621, 851912010125244310, -12275367550855109117756553457396353670, true),
        (104536008490266524, 16424620972549922111, 624360, 1011621, 851912010125244310, -12275367550855109117756553457396353669, false),
        (104536008490266524, 16424620972549922111, 624360, 1011621, 851912010125244310, -12275367550855109117756553457396353668, false),
        (872102, 1098524073332020107, 199447, 19648, -25497, 977424460985514970847513, true),
        (872102, 1098524073332020107, 199447, 19648, -25497, 977424460985514970847514, false),
        (872102, 1098524073332020107, 199447, 19648, -25497, 977424460985514970847515, false),
        (681329845380490680, 531, 671394, 524050, 21707, 361786147896655366307, true),
        (681329845380490680, 531, 671394, 524050, 21707, 361786147896655366308, false),
        (681329845380490680, 531, 671394, 524050, 21707, 361786147896655366309, false),
        (320699992419406992, 609875289481, 742192, 330592, -16806, 195587000713051313031149103514, true),
        (320699992419406992, 609875289481, 742192, 330592, -16806, 195587000713051313031149103515, false),
        (320699992419406992, 609875289481, 742192, 330592, -16806, 195587000713051313031149103516, false),
        (73634, 1990900198924841328, 928175946724, 405288, 31393, -1497867907918071720878747225317, true),
        (73634, 1990900198924841328, 928175946724, 405288, 31393, -1497867907918071720878747225316, false),
        (73634, 1990900198924841328, 928175946724, 405288, 31393, -1497867907918071720878747225315, false),
        (223872, 949, 492817, 1027980, 84207478500717327, -79912897097929827021, true),
        (223872, 949, 492817, 1027980, 84207478500717327, -79912897097929827020, false),
        (223872, 949, 492817, 1027980, 84207478500717327, -79912897097929827019, false),
        (100470423350582253, 14313346289, 1016868041060, 4410, 23167, 1438067832845785414837269329, true),
        (100470423350582253, 14313346289, 1016868041060, 4410, 23167, 1438067832845785414837269330, false),
        (100470423350582253, 14313346289, 1016868041060, 4410, 23167, 1438067832845785414837269331, false),
    ];
    for (edge, size, yes, rate, slippage, threshold, trade) in cases {
        let d = ArbitrageDetector::new(0, threshold);
        assert_eq!(d.should_trade(&signal(edge, yes), size, rate, slippage), trade);
        assert_eq!(d.expected_profit(&signal(edge, yes), size, rate, slippage) > threshold, trade);
    }
}
