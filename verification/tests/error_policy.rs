use bonbo_executor::decimal::Decimal;
use bonbo_executor::execution_errors::{
    decide, finish_partial_fill, partial_fill_recovery, BinanceErrorCode, ErrorDecision,
    ExecutionError, PartialFillStrategy, RecoveryOrder, RecoveryOutcome,
};
use bonbo_executor::fills::Fill;

/// The library decimal for a decimal literal.
fn dec(s: &str) -> Decimal {
    let d: rust_decimal::Decimal = s.parse().unwrap();
    Decimal { mantissa: d.mantissa(), scale: d.scale() }
}

/// The `rust_decimal` value of a library decimal.
fn rd(d: Decimal) -> rust_decimal::Decimal {
    rust_decimal::Decimal::from_i128_with_scale(d.mantissa, d.scale)
}

/// Both stand for the same number.
fn same_value(a: Decimal, b: Decimal) -> bool {
    rd(a) == rd(b)
}

fn num(n: i64) -> Decimal {
    Decimal::from_int(n)
}

// ── Exchange error codes ───────────────────────────────────────

#[test]
fn test_error_code_from_code() {
    assert_eq!(BinanceErrorCode::from_code(-1015), BinanceErrorCode::TooManyOrders);
    assert_eq!(BinanceErrorCode::from_code(-2019), BinanceErrorCode::MarginInsufficient);
    assert_eq!(BinanceErrorCode::from_code(-2022), BinanceErrorCode::ExceedMaxPosition);
    assert_eq!(BinanceErrorCode::from_code(-1021), BinanceErrorCode::TimestampNotSynced);
    assert_eq!(BinanceErrorCode::from_code(-9999), BinanceErrorCode::Other(-9999));
}

#[test]
fn test_error_code_transient() {
    assert!(BinanceErrorCode::TooManyOrders.is_transient());
    assert!(BinanceErrorCode::Disconnected.is_transient());
    assert!(BinanceErrorCode::TimestampNotSynced.is_transient());
    assert!(!BinanceErrorCode::MarginInsufficient.is_transient());
}

#[test]
fn test_error_code_permanent() {
    assert!(BinanceErrorCode::MarginInsufficient.is_permanent());
    assert!(BinanceErrorCode::InvalidSignature.is_permanent());
    assert!(!BinanceErrorCode::TooManyOrders.is_permanent());
}

#[test]
fn test_error_code_display() {
    assert_eq!(BinanceErrorCode::TooManyOrders.to_display_string(), "TOO_MANY_ORDERS(-1015)");
}

#[test]
fn error_code_number_round_trip() {
    for code in [-1000i64, -1001, -1015, -1016, -1020, -1021, -1022, -2010, -2011, -2013, -2019,
        -2022, -4000, -4001, -4003, -4131, -7, 0, 42]
    {
        assert_eq!(BinanceErrorCode::from_code(code).number(), code);
    }
}

#[test]
fn error_code_never_both_transient_and_permanent() {
    for code in [-1000i64, -1001, -1015, -1016, -1020, -1021, -1022, -2010, -2011, -2013, -2019,
        -2022, -4000, -4001, -4003, -4131, -5]
    {
        let c = BinanceErrorCode::from_code(code);
        assert!(!(c.is_transient() && c.is_permanent()));
    }
}

#[test]
fn error_code_display_of_other_code() {
    assert_eq!(BinanceErrorCode::from_code(-9999).to_display_string(), "OTHER(-9999)");
}

// ── Building errors from messages ──────────────────────────────

#[test]
fn test_from_binance_rate_limit() {
    let err = ExecutionError::from_binance_api("Binance API error: -1015 \u{2014} Too many orders");
    assert!(matches!(err, ExecutionError::RateLimited { retry_after_secs: 10, .. }));
}

#[test]
fn test_from_binance_margin() {
    let err = ExecutionError::from_binance_api("Binance API error: -2019 \u{2014} Margin insufficient");
    assert!(matches!(err, ExecutionError::InsufficientMargin { .. }));
}

#[test]
fn test_from_binance_timestamp() {
    let err = ExecutionError::from_binance_api(
        "Binance API error: -1021 \u{2014} Timestamp for this request was 1000ms ahead",
    );
    assert!(matches!(err, ExecutionError::TimestampSync { .. }));
}

#[test]
fn test_from_binance_unknown() {
    let err = ExecutionError::from_binance_api("Binance API error: -9999 \u{2014} Something weird");
    assert!(matches!(err, ExecutionError::Unknown { .. }));
}

#[test]
fn from_binance_keeps_the_message_text() {
    let err = ExecutionError::from_binance_api("Binance API error: -2010 \u{2014} bad price ");
    match err {
        ExecutionError::Rejected { code, reason } => {
            assert_eq!(code, BinanceErrorCode::NewOrderRejected);
            assert_eq!(reason, "bad price");
        },
        other => panic!("unexpected {:?}", other),
    }
}

#[test]
fn from_binance_disconnect_is_network_error() {
    let err = ExecutionError::from_binance_api("Binance API error: -1001 \u{2014} Disconnected");
    assert!(matches!(err, ExecutionError::NetworkError { retry_count: 0, .. }));
}

#[test]
fn from_binance_without_prefix_is_unknown() {
    let err = ExecutionError::from_binance_api("something else entirely");
    match err {
        ExecutionError::Unknown { message } => assert_eq!(message, "something else entirely"),
        other => panic!("unexpected {:?}", other),
    }
}

#[test]
fn test_from_anyhow_binance() {
    let orig = anyhow::Error::msg("Binance API error: -1015 \u{2014} Too many orders");
    let err = ExecutionError::from_anyhow(&orig);
    assert!(matches!(err, ExecutionError::RateLimited { .. }));
}

#[test]
fn test_from_anyhow_kill_switch() {
    let orig = anyhow::Error::msg("kill switch is active");
    let err = ExecutionError::from_anyhow(&orig);
    assert!(matches!(err, ExecutionError::KillSwitched));
}

#[test]
fn test_from_anyhow_network() {
    let orig = anyhow::Error::msg("connection timeout after 10s");
    let err = ExecutionError::from_anyhow(&orig);
    assert!(matches!(err, ExecutionError::NetworkError { .. }));
}

#[test]
fn from_message_classifies_by_words() {
    assert!(matches!(ExecutionError::from_message("spread 12 bps too wide"), ExecutionError::SpreadTooWide { .. }));
    assert!(matches!(ExecutionError::from_message("slippage too high"), ExecutionError::SlippageExceeded { .. }));
    assert!(matches!(ExecutionError::from_message("pre-trade gate"), ExecutionError::RiskCheckFailed { .. }));
    assert!(matches!(ExecutionError::from_message("daily risk limit"), ExecutionError::RiskCheckFailed { .. }));
    assert!(matches!(ExecutionError::from_message("whatever"), ExecutionError::Unknown { .. }));
}

// ── Classification ─────────────────────────────────────────────

#[test]
fn test_is_retryable() {
    assert!(ExecutionError::RateLimited {
        code: BinanceErrorCode::TooManyOrders,
        message: "test".into(),
        retry_after_secs: 5,
    }
    .is_retryable());
    assert!(ExecutionError::NetworkError { message: "timeout".into(), retry_count: 0 }.is_retryable());
    assert!(!ExecutionError::KillSwitched.is_retryable());
    assert!(!ExecutionError::InsufficientMargin { required: Decimal::one(), available: Decimal::zero() }
        .is_retryable());
}

#[test]
fn test_should_abort() {
    assert!(ExecutionError::KillSwitched.should_abort());
    assert!(ExecutionError::InsufficientMargin { required: num(1000), available: num(100) }.should_abort());
    assert!(ExecutionError::RiskCheckFailed { reason: "daily loss limit".into() }.should_abort());
    assert!(!ExecutionError::NetworkError { message: "timeout".into(), retry_count: 0 }.should_abort());
}

#[test]
fn test_should_skip() {
    assert!(ExecutionError::SlippageExceeded { estimated_bps: dec("10.0"), max_bps: dec("5.0") }.should_skip());
    assert!(ExecutionError::Rejected {
        code: BinanceErrorCode::NewOrderRejected,
        reason: "bad price".into(),
    }
    .should_skip());
    assert!(!ExecutionError::KillSwitched.should_skip());
}

#[test]
fn test_retry_delay_rate_limited() {
    let err = ExecutionError::RateLimited {
        code: BinanceErrorCode::TooManyOrders,
        message: "test".into(),
        retry_after_secs: 15,
    };
    assert_eq!(err.retry_delay_millis(), 15_000);
}

#[test]
fn test_retry_delay_network_exponential() {
    let err = ExecutionError::NetworkError { message: "timeout".into(), retry_count: 3 };
    assert_eq!(err.retry_delay_millis(), 500 * 8);
}

#[test]
fn retry_delay_network_caps_at_five_doublings() {
    let err = ExecutionError::NetworkError { message: "timeout".into(), retry_count: 40 };
    assert_eq!(err.retry_delay_millis(), 500 * 32);
}

#[test]
fn retry_delay_of_other_errors() {
    assert_eq!(ExecutionError::TimestampSync { drift_ms: 5 }.retry_delay_millis(), 1000);
    assert_eq!(
        ExecutionError::SpreadTooWide { spread_bps: num(9), max_spread_bps: num(5) }.retry_delay_millis(),
        5000
    );
    assert_eq!(ExecutionError::KillSwitched.retry_delay_millis(), 2000);
}

// ── Decisions ──────────────────────────────────────────────────

#[test]
fn test_decide_abort_on_kill_switch() {
    assert_eq!(decide(&ExecutionError::KillSwitched, 0, 3), ErrorDecision::Abort);
}

#[test]
fn test_decide_abort_on_margin() {
    let err = ExecutionError::InsufficientMargin { required: num(1000), available: num(100) };
    assert_eq!(decide(&err, 0, 3), ErrorDecision::Abort);
}

#[test]
fn test_decide_retry_on_rate_limit() {
    let err = ExecutionError::RateLimited {
        code: BinanceErrorCode::TooManyOrders,
        message: "test".into(),
        retry_after_secs: 5,
    };
    assert!(matches!(decide(&err, 0, 3), ErrorDecision::Retry { delay_ms: 5000, .. }));
}

#[test]
fn test_decide_abort_after_max_retries() {
    let err = ExecutionError::NetworkError { message: "timeout".into(), retry_count: 5 };
    assert_eq!(decide(&err, 3, 3), ErrorDecision::Abort);
}

#[test]
fn test_decide_skip_on_slippage() {
    let err = ExecutionError::SlippageExceeded { estimated_bps: dec("15.0"), max_bps: dec("5.0") };
    assert_eq!(decide(&err, 0, 3), ErrorDecision::Skip);
}

#[test]
fn decide_skips_partial_fill_and_carries_retry_limit() {
    let pf = ExecutionError::PartialFill {
        filled_qty: num(5),
        remaining_qty: num(3),
        fill_price: num(100),
        commission: Decimal::zero(),
        reason: "IOC expired".into(),
    };
    assert_eq!(decide(&pf, 0, 3), ErrorDecision::Skip);
    let net = ExecutionError::NetworkError { message: "timeout".into(), retry_count: 1 };
    assert_eq!(decide(&net, 2, 7), ErrorDecision::Retry { delay_ms: 1000, max_retries: 7 });
}

#[test]
fn decide_never_retries_once_attempts_are_used() {
    let errors = vec![
        ExecutionError::RateLimited { code: BinanceErrorCode::TooManyOrders, message: "x".into(), retry_after_secs: 1 },
        ExecutionError::NetworkError { message: "x".into(), retry_count: 0 },
        ExecutionError::TimestampSync { drift_ms: 0 },
        ExecutionError::SpreadTooWide { spread_bps: num(1), max_spread_bps: num(1) },
        ExecutionError::Unknown { message: "x".into() },
    ];
    for e in &errors {
        for (count, max) in [(3u32, 3u32), (4, 3), (0, 0)] {
            assert!(!matches!(decide(e, count, max), ErrorDecision::Retry { .. }));
        }
    }
}

// ── Display ────────────────────────────────────────────────────

#[test]
fn test_display_rate_limited() {
    let err = ExecutionError::RateLimited {
        code: BinanceErrorCode::TooManyOrders,
        message: "Too many orders".into(),
        retry_after_secs: 10,
    };
    let s = err.to_display_string();
    assert!(s.contains("RATE_LIMITED"));
    assert!(s.contains("10s"));
}

#[test]
fn test_display_partial_fill() {
    let err = ExecutionError::PartialFill {
        filled_qty: num(5),
        remaining_qty: num(3),
        fill_price: num(100),
        commission: Decimal::zero(),
        reason: "IOC expired".into(),
    };
    let s = err.to_display_string();
    assert!(s.contains("PARTIAL_FILL"));
    assert!(s.contains("5"));
    assert!(s.contains("3"));
}

#[test]
fn display_texts_exactly() {
    assert_eq!(
        ExecutionError::RateLimited {
            code: BinanceErrorCode::TooManyOrders,
            message: "m".into(),
            retry_after_secs: 10
        }
        .to_display_string(),
        "RATE_LIMITED(TOO_MANY_ORDERS(-1015), retry after 10s)"
    );
    assert_eq!(
        ExecutionError::PartialFill {
            filled_qty: num(5),
            remaining_qty: num(3),
            fill_price: num(100),
            commission: Decimal::zero(),
            reason: "r".into()
        }
        .to_display_string(),
        "PARTIAL_FILL(got 5 @ 100, remaining 3)"
    );
    assert_eq!(
        ExecutionError::SpreadTooWide { spread_bps: dec("12.34"), max_spread_bps: num(5) }.to_display_string(),
        "SPREAD_TOO_WIDE(12.3bps > 5.0bps)"
    );
    assert_eq!(
        ExecutionError::SpreadTooWide { spread_bps: dec("12.36"), max_spread_bps: dec("4.95") }.to_display_string(),
        "SPREAD_TOO_WIDE(12.4bps > 5.0bps)"
    );
    assert_eq!(
        ExecutionError::SlippageExceeded { estimated_bps: dec("-0.04"), max_bps: dec("7.25") }.to_display_string(),
        "SLIPPAGE_EXCEEDED(0.0bps > 7.2bps)"
    );
    assert_eq!(
        ExecutionError::NetworkError { message: "timeout".into(), retry_count: 2 }.to_display_string(),
        "NETWORK_ERROR(retry #2: timeout)"
    );
    assert_eq!(ExecutionError::TimestampSync { drift_ms: -40 }.to_display_string(), "TIMESTAMP_SYNC(drift -40ms)");
    assert_eq!(ExecutionError::KillSwitched.to_display_string(), "KILL_SWITCHED");
}

// ── Partial fills ──────────────────────────────────────────────

#[test]
fn recovery_order_per_strategy() {
    let original = num(10);
    let filled = num(4);
    let price = dec("100.5");
    match partial_fill_recovery(original, filled, price, PartialFillStrategy::MarketRest) {
        Some(Some(RecoveryOrder::Market { qty })) => assert!(same_value(qty, num(6))),
        other => panic!("unexpected {:?}", other),
    }
    match partial_fill_recovery(original, filled, price, PartialFillStrategy::RetryFull) {
        Some(Some(RecoveryOrder::Market { qty })) => assert!(same_value(qty, num(10))),
        other => panic!("unexpected {:?}", other),
    }
    match partial_fill_recovery(original, filled, price, PartialFillStrategy::LimitRest) {
        Some(Some(RecoveryOrder::Limit { qty, price: p })) => {
            assert!(same_value(qty, num(6)));
            assert!(same_value(p, price));
        },
        other => panic!("unexpected {:?}", other),
    }
    assert!(matches!(
        partial_fill_recovery(original, filled, price, PartialFillStrategy::AcceptAndMove),
        Some(None)
    ));
    assert!(matches!(
        partial_fill_recovery(num(4), num(4), price, PartialFillStrategy::MarketRest),
        Some(None)
    ));
}

#[test]
fn finish_partial_fill_with_recovered_rest() {
    let recovered = Fill { price: num(102), qty: num(6), commission: dec("0.5") };
    let res = finish_partial_fill(
        num(10),
        num(4),
        num(100),
        PartialFillStrategy::MarketRest,
        RecoveryOutcome::Filled(recovered),
    )
    .unwrap();
    assert!(same_value(res.total_filled_qty, num(10)));
    // (4 * 100 + 6 * 102) / 10 = 101.2
    assert!(same_value(res.total_vwap, dec("101.2")));
    assert!(same_value(res.total_commission, dec("0.5")));
    assert_eq!(res.recovery_attempts, 1);
    assert!(res.fully_filled);
}

#[test]
fn finish_partial_fill_accepting_the_rest() {
    let res = finish_partial_fill(
        num(10),
        num(4),
        num(100),
        PartialFillStrategy::AcceptAndMove,
        RecoveryOutcome::NotPlaced,
    )
    .unwrap();
    assert!(same_value(res.total_filled_qty, num(4)));
    assert!(same_value(res.total_vwap, num(100)));
    assert_eq!(res.recovery_attempts, 0);
    assert!(!res.fully_filled);
}

#[test]
fn finish_partial_fill_when_recovery_failed() {
    let res = finish_partial_fill(num(10), num(4), num(100), PartialFillStrategy::LimitRest, RecoveryOutcome::Failed)
        .unwrap();
    assert!(same_value(res.total_filled_qty, num(4)));
    assert_eq!(res.recovery_attempts, 1);
    assert!(!res.fully_filled);
}

#[test]
fn finish_partial_fill_nothing_left() {
    let res = finish_partial_fill(num(4), num(4), num(100), PartialFillStrategy::MarketRest, RecoveryOutcome::NotPlaced)
        .unwrap();
    assert!(res.fully_filled);
    assert_eq!(res.recovery_attempts, 0);
    assert!(same_value(res.total_filled_qty, num(4)));
}
