use bonbo_executor::decimal::Decimal;
use bonbo_executor::depth::{RawDepth, RawLevel};
use bonbo_executor::flash_limit::{compute_adaptive_offset, round_to_tick};
use bonbo_executor::execution_algo::{compute_limit_price, report_amounts};
use bonbo_executor::fills::{fill_totals, vwap_or, Fill};
use bonbo_executor::orderbook::{
    decimal_max, decimal_min, ratio_or_zero, vwap_for_qty, OrderBookSnapshot, PriceLevel, Side,
};
use bonbo_executor::smart_execution::{calculate_vwap, SliceFill};
use bonbo_executor::twap::{clamp_adaptive_qty, compute_limit_price_for_side};

/// The library decimal for a decimal literal.
fn dec(s: &str) -> Decimal {
    let d: rust_decimal::Decimal = s.parse().unwrap();
    Decimal { mantissa: d.mantissa(), scale: d.scale() }
}

/// The `rust_decimal` value of a library decimal.
fn rd(d: Decimal) -> rust_decimal::Decimal {
    rust_decimal::Decimal::from_i128_with_scale(d.mantissa, d.scale)
}

/// Both stand for the same number.
fn same_value(a: Decimal, b: Decimal) -> bool {
    rd(a) == rd(b)
}

/// `a < b` as numbers.
fn less_than(a: Decimal, b: Decimal) -> bool {
    rd(a) < rd(b)
}

/// The library decimal for a `rust_decimal` value.
fn lib(d: rust_decimal::Decimal) -> Decimal {
    Decimal { mantissa: d.mantissa(), scale: d.scale() }
}

fn num(n: i64) -> Decimal {
    Decimal::from_int(n)
}

fn level(price: &str, qty: i64) -> PriceLevel {
    PriceLevel::new(dec(price), num(qty))
}

fn make_book() -> OrderBookSnapshot {
    OrderBookSnapshot {
        symbol: "SEIUSDT".to_string(),
        timestamp_ms: 1000,
        bids: vec![
            level("0.06051", 5000),
            level("0.06050", 25000),
            level("0.06049", 30000),
            level("0.06048", 84000),
            level("0.06047", 105000),
            level("0.06046", 50000),
            level("0.06045", 30000),
            level("0.06044", 40000),
            level("0.06043", 25000),
            level("0.06042", 35000),
        ],
        asks: vec![
            level("0.06052", 3000),
            level("0.06053", 40000),
            level("0.06054", 75000),
            level("0.06055", 122000),
            level("0.06056", 45000),
            level("0.06057", 30000),
            level("0.06058", 20000),
            level("0.06059", 15000),
            level("0.06060", 10000),
            level("0.06070", 5000),
        ],
    }
}

fn small_book() -> OrderBookSnapshot {
    OrderBookSnapshot {
        symbol: "TEST".to_string(),
        timestamp_ms: 0,
        bids: vec![PriceLevel::new(dec("100.00"), num(100))],
        asks: vec![PriceLevel::new(dec("100.10"), num(100))],
    }
}

/// `ratio × 10000`, in basis points.
fn bps(ratio: Decimal) -> Decimal {
    lib(rd(ratio) * rust_decimal::Decimal::from(10000))
}

#[test]
fn min_and_max_pick_by_value() {
    assert!(same_value(decimal_min(num(3), dec("2.5")), dec("2.5")));
    assert!(same_value(decimal_max(num(3), dec("2.5")), num(3)));
    assert!(same_value(ratio_or_zero(num(1), Decimal::zero()).unwrap(), Decimal::zero()));
    assert!(same_value(ratio_or_zero(num(1), num(8)).unwrap(), dec("0.125")));
}

// ── The order book ─────────────────────────────────────────────

#[test]
fn test_mid_price() {
    let book = make_book();
    let mid = book.mid_price().unwrap();
    // (0.06051 + 0.06052) / 2 = 0.060515
    assert!(same_value(mid, dec("0.060515")));
}

#[test]
fn best_prices_and_spread() {
    let book = make_book();
    assert!(same_value(book.best_bid().unwrap(), dec("0.06051")));
    assert!(same_value(book.best_ask().unwrap(), dec("0.06052")));
    assert!(same_value(book.spread().unwrap(), dec("0.00001")));
    let empty = OrderBookSnapshot { symbol: "X".to_string(), timestamp_ms: 0, bids: vec![], asks: vec![] };
    assert!(empty.mid_price().is_none());
    assert!(empty.spread().is_none());
    assert!(empty.estimate_buy_slippage(num(1)).is_none());
}

#[test]
fn test_tiny_buy_zero_slippage() {
    let book = make_book();
    // 100 SEI — fits in the first ask level
    let est = book.estimate_buy_slippage(num(100)).unwrap();
    assert!(same_value(est.vwap, dec("0.06052")));
    assert_eq!(est.levels_consumed, 1);
    assert!(less_than(bps(est.slippage_ratio), num(1)));
    assert!(same_value(est.fill_ratio, num(1)));
}

#[test]
fn test_large_buy_multi_level() {
    let book = make_book();
    // 50000 SEI — must eat through several levels
    let est = book.estimate_buy_slippage(num(50000)).unwrap();
    assert!(est.levels_consumed > 1);
    assert!(less_than(Decimal::zero(), est.slippage_ratio));
    assert!(same_value(est.fill_ratio, num(1)));
    // the volume-weighted price lies between the best ask and the worst price paid
    assert!(less_than(est.best_price, est.vwap));
    assert!(!less_than(est.worst_price, est.vwap));
}

#[test]
fn test_sell_slippage() {
    let book = make_book();
    let est = book.estimate_sell_slippage(num(100)).unwrap();
    assert!(same_value(est.vwap, dec("0.06051")));
    assert!(less_than(bps(est.slippage_ratio), num(1)));
}

#[test]
fn large_buy_walk_numbers() {
    let book = make_book();
    let est = book.estimate_buy_slippage(num(50000)).unwrap();
    // 3000 @ 0.06052 + 40000 @ 0.06053 + 7000 @ 0.06054
    assert_eq!(est.levels_consumed, 3);
    assert!(same_value(est.filled_qty, num(50000)));
    assert!(same_value(est.unfilled_qty, Decimal::zero()));
    assert!(same_value(est.total_notional, dec("3026.54")));
    assert!(same_value(est.worst_price, dec("0.06054")));
    assert!(same_value(est.best_price, dec("0.06052")));
    assert!(same_value(est.vwap, dec("0.0605308")));
    assert!(same_value(est.slippage, dec("0.0000158")));
}

#[test]
fn order_larger_than_book_leaves_unfilled() {
    let book = small_book();
    let est = book.estimate_sell_slippage(num(150)).unwrap();
    assert!(same_value(est.filled_qty, num(100)));
    assert!(same_value(est.unfilled_qty, num(50)));
    assert_eq!(est.levels_consumed, 1);
    assert!(same_value(est.worst_price, dec("100.00")));
    assert!(same_value(est.fill_ratio, dec("0.6666666666666666666666666667")));
}

#[test]
fn zero_order_gives_no_estimate() {
    let book = make_book();
    assert!(book.estimate_buy_slippage(Decimal::zero()).is_none());
    assert!(book.estimate_slippage(Side::Sell, num(-5)).is_none());
}

#[test]
fn worst_price_never_better_than_best() {
    let book = make_book();
    for q in [1i64, 3000, 3001, 50000, 400000, 10_000_000] {
        let buy = book.estimate_buy_slippage(num(q)).unwrap();
        assert!(!less_than(buy.worst_price, buy.best_price));
        assert!(buy.levels_consumed >= 1 && buy.levels_consumed <= book.asks.len());
        let sell = book.estimate_sell_slippage(num(q)).unwrap();
        assert!(!less_than(sell.best_price, sell.worst_price));
        assert!(sell.levels_consumed >= 1 && sell.levels_consumed <= book.bids.len());
    }
}

#[test]
fn test_depth_weighted_mid() {
    let book = make_book();
    let dwm = book.depth_weighted_mid(5).unwrap();
    let simple_mid = book.mid_price().unwrap();
    let diff = (rd(dwm) - rd(simple_mid)).abs();
    assert!(diff < rd(dec("0.0001")));
}

#[test]
fn test_liquidity() {
    let book = make_book();
    // 5000 + 25000 + 30000 = 60000
    assert!(same_value(book.bid_liquidity(3).unwrap(), num(60000)));
    // 3000 + 40000 + 75000 = 118000
    assert!(same_value(book.ask_liquidity(3).unwrap(), num(118000)));
    // asking for more levels than exist sums them all
    assert!(same_value(small_book().ask_liquidity(9).unwrap(), num(100)));
}

#[test]
fn level_notional() {
    assert!(same_value(level("0.5", 10).notional().unwrap(), num(5)));
}

// ── Limit prices ───────────────────────────────────────────────

#[test]
fn test_compute_limit_price() {
    let book = small_book();
    // mid = 100.05
    let buy_price = compute_limit_price(&book, Side::Buy, 0).unwrap();
    assert!(same_value(buy_price, dec("100.05")));
    let passive_buy = compute_limit_price(&book, Side::Buy, 10).unwrap();
    // 100.05 - 100.05 * 10 / 10000 = 99.94995
    assert!(less_than(passive_buy, dec("100.05")));
    assert!(same_value(passive_buy, dec("99.94995")));
    let passive_sell = compute_limit_price(&book, Side::Sell, 10).unwrap();
    assert!(same_value(passive_sell, dec("100.15005")));
    let negative = compute_limit_price(&book, Side::Sell, -10).unwrap();
    assert!(same_value(negative, dec("100.05")));
}

#[test]
fn limit_price_without_mid_starts_from_one() {
    let empty = OrderBookSnapshot { symbol: "X".to_string(), timestamp_ms: 0, bids: vec![], asks: vec![] };
    assert!(same_value(compute_limit_price(&empty, Side::Buy, 100).unwrap(), dec("0.99")));
}

#[test]
fn test_limit_price_buy_at_bid() {
    let price = compute_limit_price_for_side(&small_book(), Side::Buy);
    assert!(same_value(price, dec("100.00")));
}

#[test]
fn test_limit_price_sell_at_ask() {
    let price = compute_limit_price_for_side(&small_book(), Side::Sell);
    assert!(same_value(price, dec("100.10")));
}

#[test]
fn limit_price_for_side_falls_back_to_mid() {
    let book = OrderBookSnapshot {
        symbol: "X".to_string(),
        timestamp_ms: 0,
        bids: vec![],
        asks: vec![PriceLevel::new(dec("100.10"), num(1))],
    };
    assert!(same_value(compute_limit_price_for_side(&book, Side::Buy), num(1)));
    assert!(same_value(compute_limit_price_for_side(&book, Side::Sell), dec("100.10")));
}

// ── Adaptive slice sizes ───────────────────────────────────────

#[test]
fn adaptive_qty_without_factors_is_base() {
    let q = clamp_adaptive_qty(num(100), num(500), num(10), num(200), None, None).unwrap();
    assert!(same_value(q, num(100)));
}

#[test]
fn adaptive_qty_uses_remaining_when_smaller() {
    let q = clamp_adaptive_qty(num(100), num(50), num(10), num(200), None, None).unwrap();
    assert!(same_value(q, num(50)));
}

#[test]
fn adaptive_qty_clamped_to_bounds() {
    let q = clamp_adaptive_qty(num(1000), num(5000), num(10), num(200), None, None).unwrap();
    assert!(same_value(q, num(200)));
    let q = clamp_adaptive_qty(num(100), num(500), num(10), num(200), Some(dec("0.05")), None).unwrap();
    assert!(same_value(q, num(10)));
    let q = clamp_adaptive_qty(num(100), num(500), num(10), num(200), Some(dec("0.5")), Some(dec("0.5"))).unwrap();
    assert!(same_value(q, num(25)));
    let q = clamp_adaptive_qty(num(100), num(5), num(10), num(200), None, None).unwrap();
    assert!(same_value(q, num(5)));
}

// ── Fills and reports ──────────────────────────────────────────

fn report_fills() -> Vec<Fill> {
    vec![
        Fill { price: dec("0.06052"), qty: num(500), commission: dec("0.015") },
        Fill { price: dec("0.06055"), qty: num(500), commission: dec("0.015") },
    ]
}

#[test]
fn test_report_build() {
    let amounts = report_amounts(Side::Buy, num(1000), dec("0.060515"), &report_fills()).unwrap();
    assert!(same_value(amounts.filled_qty, num(1000)));
    assert!(same_value(amounts.fill_ratio.unwrap(), num(1)));
    // VWAP = (500*0.06052 + 500*0.06055) / 1000 = 0.060535
    assert!(same_value(amounts.vwap, dec("0.060535")));
    assert!(less_than(Decimal::zero(), amounts.shortfall_ratio));
    assert!(same_value(amounts.total_commission, dec("0.030")));
    assert_eq!(amounts.slices_executed, 2);
}

#[test]
fn report_of_sell_and_of_nothing() {
    let sell = report_amounts(Side::Sell, num(1000), dec("0.060515"), &report_fills()).unwrap();
    assert!(less_than(sell.shortfall_ratio, Decimal::zero()));
    let none = report_amounts(Side::Buy, Decimal::zero(), num(2), &vec![]).unwrap();
    assert!(none.fill_ratio.is_none());
    assert!(same_value(none.vwap, num(2)));
    assert!(same_value(none.shortfall_ratio, Decimal::zero()));
}

#[test]
fn fill_totals_and_vwap() {
    let t = fill_totals(&report_fills()).unwrap();
    assert!(same_value(t.filled_qty, num(1000)));
    assert!(same_value(t.notional, dec("60.535")));
    assert!(same_value(t.commission, dec("0.030")));
    assert!(same_value(vwap_or(t.notional, t.filled_qty, num(7)).unwrap(), dec("0.060535")));
    assert!(same_value(vwap_or(num(5), Decimal::zero(), num(7)).unwrap(), num(7)));
}

#[test]
fn test_vwap_calculation() {
    let fills = vec![
        SliceFill {
            slice: 0,
            fill_price: Decimal::new(100, 0),
            fill_qty: Decimal::new(10, 0),
            notional: Decimal::new(1000, 0),
            commission: Decimal::new(1, 1),
            is_maker: false,
            timestamp_ms: 0,
        },
        SliceFill {
            slice: 1,
            fill_price: Decimal::new(102, 0),
            fill_qty: Decimal::new(10, 0),
            notional: Decimal::new(1020, 0),
            commission: Decimal::new(1, 1),
            is_maker: false,
            timestamp_ms: 0,
        },
    ];
    let vwap = calculate_vwap(&fills).unwrap();
    assert!(same_value(vwap, Decimal::new(101, 0))); // (1000+1020)/(10+10) = 101
    assert!(same_value(calculate_vwap(&vec![]).unwrap(), Decimal::zero()));
}

// ── Depth messages ─────────────────────────────────────────────

fn raw(price: &str, qty: &str) -> RawLevel {
    RawLevel { price: Some(price.to_string()), qty: Some(qty.to_string()) }
}

#[test]
fn depth_message_builds_sorted_book() {
    let depth = RawDepth {
        bids: Some(vec![raw("0.06050", "25000"), raw("0.06051", "5000"), raw("bad", "1"), raw("0.06049", "30000")]),
        asks: Some(vec![
            raw("0.06053", "40000"),
            raw("0.06052", "3000"),
            RawLevel { price: Some("0.06054".to_string()), qty: None },
        ]),
        event_time: Some(1234),
    };
    let book = OrderBookSnapshot::from_binance_depth("SEIUSDT", &depth).unwrap();
    assert_eq!(book.symbol, "SEIUSDT");
    assert_eq!(book.timestamp_ms, 1234);
    assert_eq!(book.bids.len(), 3);
    assert!(same_value(book.bids[0].price, dec("0.06051")));
    assert!(same_value(book.bids[1].price, dec("0.06050")));
    assert!(same_value(book.bids[2].price, dec("0.06049")));
    assert!(same_value(book.bids[2].quantity, num(30000)));
    assert_eq!(book.asks.len(), 2);
    assert!(same_value(book.asks[0].price, dec("0.06052")));
    assert!(same_value(book.asks[1].price, dec("0.06053")));
    assert!(same_value(book.mid_price().unwrap(), dec("0.060515")));
}

#[test]
fn depth_message_keeps_order_of_equal_prices() {
    let depth = RawDepth {
        bids: Some(vec![raw("1", "1"), raw("2", "2"), raw("1", "3")]),
        asks: Some(vec![raw("5", "1"), raw("4", "2"), raw("5", "3")]),
        event_time: None,
    };
    let book = OrderBookSnapshot::from_binance_depth("X", &depth).unwrap();
    assert_eq!(book.timestamp_ms, 0);
    let bid_qty: Vec<i128> = book.bids.iter().map(|l| l.quantity.mantissa).collect();
    assert_eq!(bid_qty, vec![2, 1, 3]);
    let ask_qty: Vec<i128> = book.asks.iter().map(|l| l.quantity.mantissa).collect();
    assert_eq!(ask_qty, vec![2, 1, 3]);
}

#[test]
fn depth_message_without_a_side_is_refused() {
    let no_asks = RawDepth { bids: Some(vec![raw("1", "1")]), asks: None, event_time: None };
    assert!(OrderBookSnapshot::from_binance_depth("X", &no_asks).is_none());
    let empty = RawDepth { bids: Some(vec![]), asks: Some(vec![]), event_time: Some(7) };
    let book = OrderBookSnapshot::from_binance_depth("X", &empty).unwrap();
    assert!(book.bids.is_empty() && book.asks.is_empty());
}

// ── Tick rounding ──────────────────────────────────────────────

#[test]
fn flash_limit_test_round_to_tick() {
    assert!(same_value(round_to_tick(dec("100.456"), 2).unwrap(), dec("100.46")));
    assert!(same_value(round_to_tick(dec("100.454"), 2).unwrap(), dec("100.45")));
}

#[test]
fn smart_market_test_round_to_tick() {
    assert!(same_value(round_to_tick(dec("100.456"), 2).unwrap(), dec("100.46")));
    assert!(same_value(round_to_tick(dec("100.454"), 2).unwrap(), dec("100.45")));
    assert!(same_value(round_to_tick(dec("0.061234"), 5).unwrap(), dec("0.06123")));
}

#[test]
fn round_to_tick_midpoint_and_whole() {
    assert!(same_value(round_to_tick(dec("0.125"), 2).unwrap(), dec("0.12")));
    assert!(same_value(round_to_tick(dec("0.135"), 2).unwrap(), dec("0.14")));
    assert!(same_value(round_to_tick(dec("41.7"), 0).unwrap(), num(42)));
}

#[test]
fn adaptive_offset_is_a_share_of_half_spread() {
    // spread 0.10, half 0.05, 30 % = 0.015
    assert!(same_value(compute_adaptive_offset(&small_book(), Side::Buy, 2).unwrap(), dec("0.015")));
    let empty = OrderBookSnapshot { symbol: "X".to_string(), timestamp_ms: 0, bids: vec![], asks: vec![] };
    assert!(same_value(compute_adaptive_offset(&empty, Side::Sell, 2).unwrap(), Decimal::zero()));
}

// ── Taking a quantity from levels ──────────────────────────────

#[test]
fn test_vwap_single_level() {
    let levels = vec![PriceLevel::new(num(100), num(10))];
    let vwap = vwap_for_qty(&levels, num(5)).unwrap().unwrap();
    assert!(same_value(vwap, num(100)));
    // the impact against a mid of 99 is positive for a buy
    assert!(less_than(num(99), vwap));
}

#[test]
fn test_vwap_multi_level() {
    let levels = vec![PriceLevel::new(num(100), num(10)), PriceLevel::new(num(101), num(10))];
    // Buy 15: 10 @ 100 + 5 @ 101 = (1000 + 505) / 15 = 100.333...
    let vwap = vwap_for_qty(&levels, num(15)).unwrap().unwrap();
    assert!(rd(vwap).to_string().starts_with("100.3"));
}

#[test]
fn vwap_for_qty_stops_when_filled_and_handles_nothing() {
    let levels = vec![PriceLevel::new(num(100), num(10)), PriceLevel::new(num(200), num(10))];
    assert!(same_value(vwap_for_qty(&levels, num(10)).unwrap().unwrap(), num(100)));
    assert!(vwap_for_qty(&levels, Decimal::zero()).unwrap().is_none());
    assert!(vwap_for_qty(&vec![], num(3)).unwrap().is_none());
    // more than the levels hold: the average over everything
    assert!(same_value(vwap_for_qty(&levels, num(40)).unwrap().unwrap(), num(150)));
}

#[test]
fn fill_totals_refuse_overflow() {
    let max = Decimal { mantissa: 79228162514264337593543950335, scale: 0 };
    let doubled = vec![Fill { price: max, qty: num(2), commission: Decimal::zero() }];
    assert!(fill_totals(&doubled).is_none());
    let summed = vec![
        Fill { price: num(1), qty: max, commission: Decimal::zero() },
        Fill { price: num(1), qty: num(1), commission: Decimal::zero() },
    ];
    assert!(fill_totals(&summed).is_none());
}
