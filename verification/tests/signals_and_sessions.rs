use bonbo_executor::async_dispatcher::{
    absorb_attempt, pacing_wait_ms, partition_results, summarize_batch, ConcurrentSliceConfig,
    DispatchedResult, OrderTask,
};
use bonbo_executor::decimal::Decimal;
use bonbo_executor::fills::Fill;
use bonbo_executor::flash_limit::OrderRoute;
use bonbo_executor::ofi::{OfiSignal, SignalHistory};
use bonbo_executor::orderbook::Side;
use bonbo_executor::risk_guards::{CumulativeRiskState, ExecutionRiskLimits, PreTradeCheck, RiskCheckResult};
use bonbo_executor::saga::{
    cancellation_text, decimal_abs, SagaAction, SagaEvent, SagaResult, TradeParams, TradeSaga,
};
use bonbo_executor::smart_execution::{ExecutionAlgo, ExecutionParams};
use bonbo_executor::smart_market::BookState;
use bonbo_executor::twap::SimpleRng;

/// The library decimal for a decimal literal.
fn dec(s: &str) -> Decimal {
    let d: rust_decimal::Decimal = s.parse().unwrap();
    Decimal { mantissa: d.mantissa(), scale: d.scale() }
}

/// The `rust_decimal` value of a library decimal.
fn rd(d: Decimal) -> rust_decimal::Decimal {
    rust_decimal::Decimal::from_i128_with_scale(d.mantissa, d.scale)
}

/// Both stand for the same number.
fn same_value(a: Decimal, b: Decimal) -> bool {
    rd(a) == rd(b)
}

fn num(n: i64) -> Decimal {
    Decimal::from_int(n)
}

// ── Order-flow signals ─────────────────────────────────────────

#[test]
fn test_ofi_signal_favorable_for_buy() {
    assert!(OfiSignal::StrongBuy.favorable_for(Side::Buy));
    assert!(OfiSignal::Buy.favorable_for(Side::Buy));
    assert!(!OfiSignal::Neutral.favorable_for(Side::Buy));
    assert!(!OfiSignal::Sell.favorable_for(Side::Buy));
}

#[test]
fn test_ofi_signal_favorable_for_sell() {
    assert!(OfiSignal::StrongSell.favorable_for(Side::Sell));
    assert!(OfiSignal::Sell.favorable_for(Side::Sell));
    assert!(!OfiSignal::Neutral.favorable_for(Side::Sell));
    assert!(!OfiSignal::Buy.favorable_for(Side::Sell));
}

#[test]
fn no_signal_favours_both_sides() {
    for s in [OfiSignal::StrongBuy, OfiSignal::Buy, OfiSignal::Neutral, OfiSignal::Sell, OfiSignal::StrongSell] {
        assert!(!(s.favorable_for(Side::Buy) && s.favorable_for(Side::Sell)));
    }
}

#[test]
fn test_route_display() {
    assert!(OrderRoute::FlashLimit.name().contains("FLASH"));
    assert!(OrderRoute::AdaptiveLimit.name().contains("ADAPTIVE"));
    assert!(OrderRoute::Market.name().contains("MARKET"));
    assert!(OrderRoute::Hold.name().contains("HOLD"));
}

#[test]
fn test_book_state_display() {
    assert!(BookState::Aggressive.name().contains("AGGRESSIVE"));
    assert!(BookState::Passive.name().contains("PASSIVE"));
    assert!(BookState::Defensive.name().contains("DEFENSIVE"));
    assert!(BookState::WallBlocking.name().contains("WALL"));
    assert!(BookState::WideSpread.name().contains("WIDE"));
}

#[test]
fn signal_history_keeps_the_latest() {
    let mut h = SignalHistory::new(3);
    assert!(h.latest().is_none());
    assert!(h.consistent_signal(Side::Buy, 0));
    assert!(!h.consistent_signal(Side::Buy, 1));
    h.push(OfiSignal::Sell);
    h.push(OfiSignal::Buy);
    h.push(OfiSignal::StrongBuy);
    assert!(h.consistent_signal(Side::Buy, 2));
    assert!(!h.consistent_signal(Side::Buy, 3));
    h.push(OfiSignal::Buy);
    assert_eq!(h.sample_count(), 3);
    assert!(h.consistent_signal(Side::Buy, 3));
    assert_eq!(h.latest(), Some(OfiSignal::Buy));
    let mut none = SignalHistory::new(0);
    none.push(OfiSignal::Buy);
    assert_eq!(none.sample_count(), 0);
}

#[test]
fn names_of_states() {
    assert_eq!(OfiSignal::Neutral.name(), "\u{26aa} NEUTRAL");
    assert_eq!(Side::Buy.name(), "Buy");
    assert_eq!(Side::Sell.name(), "Sell");
    assert!(!OrderRoute::Hold.name().is_empty());
    assert!(!BookState::Passive.name().is_empty());
}

// ── Participation slices (plain arithmetic) ────────────────────

#[test]
fn test_pov_slice_from_normal_volume() {
    // rate = $340/sec, participation = 10%, interval = 5s
    let rate = 340.0;
    let participation = 0.10;
    let interval = 5.0;
    let slice: f64 = rate * participation * interval;
    assert!((slice - 170.0).abs() < 0.1, "expected $170, got {slice}");
}

#[test]
fn test_pov_slice_clamped_to_max() {
    let rate = 10000.0;
    let participation = 0.10;
    let interval = 5.0;
    let max_slice = 500.0;
    let raw: f64 = rate * participation * interval; // $5000
    let clamped = raw.clamp(5.0, max_slice);
    assert_eq!(clamped, 500.0);
}

#[test]
fn test_pov_slice_below_min() {
    let rate = 10.0;
    let participation = 0.10;
    let interval = 5.0;
    let min_slice = 5.0;
    let raw: f64 = rate * participation * interval; // $5
    let clamped = raw.clamp(min_slice, 500.0);
    assert_eq!(clamped, 5.0);
}

// ── Jitter generator ───────────────────────────────────────────

#[test]
fn test_rng_deterministic() {
    let mut rng1 = SimpleRng::from_seed(12345);
    let mut rng2 = SimpleRng::from_seed(12345);
    for _ in 0..10 {
        assert_eq!(rng1.next(), rng2.next());
    }
}

#[test]
fn test_rng_never_zero() {
    let mut rng = SimpleRng::from_seed(1);
    for _ in 0..100 {
        assert_ne!(rng.next(), 0);
    }
}

#[test]
fn rng_first_values() {
    let mut rng = SimpleRng::from_seed(1);
    assert_eq!(rng.next(), 1082269761);
    let mut zero = SimpleRng::from_seed(0);
    let mut one = SimpleRng::from_seed(1);
    assert_eq!(zero.next(), one.next());
}

// ── Dispatcher pieces ──────────────────────────────────────────

#[test]
fn test_order_task_market() {
    let task = OrderTask::market("BTCUSDT", Side::Buy, num(10));
    assert_eq!(task.symbol(), "BTCUSDT");
    assert_eq!(task.side(), Side::Buy);
    assert!(same_value(task.qty(), num(10)));
}

#[test]
fn test_order_task_limit() {
    let task = OrderTask::limit("ETHUSDT", Side::Sell, num(5), num(2000));
    assert_eq!(task.symbol(), "ETHUSDT");
    assert_eq!(task.side(), Side::Sell);
    let price = match &task {
        OrderTask::Limit { price, .. } => *price,
        _ => Decimal::zero(),
    };
    assert!(same_value(price, num(2000)));
}

fn ok_result(price: i64, qty: i64, latency_ms: u64) -> DispatchedResult {
    DispatchedResult {
        task: OrderTask::market("TEST", Side::Buy, num(qty)),
        fill: Some(Fill { price: num(price), qty: num(qty), commission: dec("0.1") }),
        error: None,
        latency_ms,
    }
}

fn failed_result(latency_ms: u64) -> DispatchedResult {
    DispatchedResult {
        task: OrderTask::market("TEST", Side::Buy, Decimal::one()),
        fill: None,
        error: Some("timeout".to_string()),
        latency_ms,
    }
}

#[test]
fn test_dispatched_result_is_ok() {
    assert!(ok_result(1, 1, 50).is_ok());
    assert!(!failed_result(5000).is_ok());
}

#[test]
fn partition_keeps_order() {
    let (ok, failed) = partition_results(vec![ok_result(1, 1, 10), failed_result(20), ok_result(2, 2, 30)]);
    assert_eq!(ok.len(), 2);
    assert_eq!(failed.len(), 1);
    assert_eq!(ok[0].latency_ms, 10);
    assert_eq!(ok[1].latency_ms, 30);
    assert_eq!(failed[0].latency_ms, 20);
}

#[test]
fn batch_summary_numbers() {
    let s = summarize_batch(&vec![ok_result(100, 1, 10), failed_result(70), ok_result(103, 2, 30)]).unwrap();
    assert_eq!(s.successful, 2);
    assert_eq!(s.failed, 1);
    assert!(same_value(s.total_filled_qty, num(3)));
    assert!(same_value(s.avg_fill_price, num(102))); // (100 + 206) / 3
    assert!(same_value(s.total_commission, dec("0.2")));
    assert_eq!(s.total_latency_ms, 110);
    assert_eq!(s.max_latency_ms, 70);
}

#[test]
fn batch_attempts_retry_failures_until_the_last() {
    let mut collected = Vec::new();
    let retry = absorb_attempt(&mut collected, vec![ok_result(1, 1, 10), failed_result(20), ok_result(2, 2, 30)], 0, 2);
    assert_eq!(collected.len(), 2);
    assert_eq!(retry.len(), 1);
    assert_eq!(retry[0].symbol(), "TEST");
    let retry = absorb_attempt(&mut collected, vec![failed_result(40)], 2, 2);
    assert!(retry.is_empty());
    assert_eq!(collected.len(), 3);
    assert_eq!(collected[2].latency_ms, 40);
    assert!(!collected[2].is_ok());
}

#[test]
fn pacing_waits_for_the_interval() {
    assert_eq!(pacing_wait_ms(1_000, 990, 50), 40);
    assert_eq!(pacing_wait_ms(1_000, 900, 50), 0);
    assert_eq!(pacing_wait_ms(900, 1_000, 50), 50);
}

#[test]
fn slice_config_presets() {
    let d = ConcurrentSliceConfig::default();
    assert_eq!((d.max_concurrent, d.min_interval_ms, d.max_retries), (5, 50, 2));
    let c = ConcurrentSliceConfig::conservative();
    assert_eq!((c.max_concurrent, c.min_interval_ms, c.max_retries), (3, 200, 3));
    let a = ConcurrentSliceConfig::aggressive();
    assert_eq!((a.max_concurrent, a.min_interval_ms, a.max_retries), (10, 33, 1));
}

// ── Risk guards ────────────────────────────────────────────────

#[test]
fn risk_guards_test_risk_limits_default() {
    let limits = ExecutionRiskLimits::default();
    assert!(same_value(limits.max_notional_per_order, num(5000)));
    assert_eq!(limits.max_slices, 20);
}

#[test]
fn execution_integration_test_risk_limits_default() {
    let limits = ExecutionRiskLimits::default();
    assert!(same_value(limits.max_notional_per_order, num(5000)));
    assert!(same_value(limits.max_slippage_bps, num(10)));
    assert!(same_value(limits.max_participation_rate, dec("0.15")));
    assert_eq!(limits.max_slices, 20);
    assert_eq!(limits.max_execution_time_secs, 600);
}

#[test]
fn test_cumulative_risk_state_new() {
    let state = CumulativeRiskState::new(ExecutionRiskLimits::default());
    assert_eq!(state.total_notional_cents(), 0);
    assert_eq!(state.total_commission_micros(), 0);
    assert_eq!(state.order_count(), 0);
}

#[test]
fn test_cumulative_risk_state_recording() {
    let mut state = CumulativeRiskState::new(ExecutionRiskLimits::default());
    // $1000 notional, $0.50 commission
    state.record_execution(100_000, 500_000);
    assert_eq!(state.total_notional_cents(), 100_000);
    assert_eq!(state.total_commission_micros(), 500_000);
    // $500 notional, $0.25 commission
    state.record_execution(50_000, 250_000);
    assert_eq!(state.total_notional_cents(), 150_000);
    assert_eq!(state.order_count(), 2);
}

#[test]
fn test_cumulative_state_rejects_over_limit() {
    let limits = ExecutionRiskLimits { max_notional_per_order: num(100), ..ExecutionRiskLimits::default() };
    let state = CumulativeRiskState::new(limits);
    assert!(state.check_execution_allowed(false, 0, num(50)).is_allowed());
    let result = state.check_execution_allowed(false, 0, num(200));
    assert!(!result.is_allowed());
    match result {
        RiskCheckResult::Rejected(reason) => assert_eq!(reason, "Order notional $200 exceeds limit $100"),
        RiskCheckResult::Allowed => panic!("allowed"),
    }
}

#[test]
fn session_time_and_count_limits() {
    let limits = ExecutionRiskLimits { max_slices: 1, ..ExecutionRiskLimits::default() };
    let mut state = CumulativeRiskState::new(limits);
    assert!(!state.check_execution_allowed(false, 600_000_000_001, num(1)).is_allowed());
    assert!(state.check_execution_allowed(false, 600_000_000_000, num(1)).is_allowed());
    state.record_execution(1, 1);
    match state.check_execution_allowed(false, 0, num(1)) {
        RiskCheckResult::Rejected(reason) => assert_eq!(reason, "Order count 1 exceeds max slices 1"),
        RiskCheckResult::Allowed => panic!("allowed"),
    }
    match state.check_execution_allowed(true, 0, num(1)) {
        RiskCheckResult::Rejected(reason) => assert_eq!(reason, "Kill switch is active"),
        RiskCheckResult::Allowed => panic!("allowed"),
    }
}

#[test]
fn test_pre_trade_check() {
    let limits = ExecutionRiskLimits::default();
    let state = CumulativeRiskState::new(limits);
    let check = PreTradeCheck::run(num(1000), dec("0.060"), &state, &limits, false, 0).unwrap();
    assert!(check.allowed);
    assert!(!check.kill_switch_active);
    assert!(check.notional_ok);
    assert!(check.reason.is_none());
}

#[test]
fn test_pre_trade_kill_switch() {
    let limits = ExecutionRiskLimits::default();
    let state = CumulativeRiskState::new(limits);
    let check = PreTradeCheck::run(num(1), dec("0.060"), &state, &limits, true, 0).unwrap();
    assert!(!check.allowed);
    assert!(check.kill_switch_active);
    assert_eq!(check.reason.unwrap(), "Kill switch active");
}

#[test]
fn pre_trade_notional_over_limit() {
    let limits = ExecutionRiskLimits::default();
    let state = CumulativeRiskState::new(limits);
    let check = PreTradeCheck::run(num(1000), num(6), &state, &limits, false, 0).unwrap();
    assert!(!check.allowed);
    assert!(!check.notional_ok);
    assert_eq!(check.reason.unwrap(), "Notional $6000 exceeds $5000");
}

// ── Trade saga ─────────────────────────────────────────────────

fn run(events: Vec<SagaEvent>) -> (Vec<SagaAction>, TradeSaga) {
    let mut saga = TradeSaga::new();
    let mut actions = vec![saga.next_action()];
    for e in events {
        saga.on_event(e);
        actions.push(saga.next_action());
    }
    (actions, saga)
}

#[test]
fn saga_happy_path() {
    let (actions, saga) = run(vec![
        SagaEvent::IdClaimed { fresh: true },
        SagaEvent::EntryPlaced { order_id: 11 },
        SagaEvent::StopLossPlaced { algo_id: 22 },
        SagaEvent::TakeProfitPlaced { algo_id: 33 },
    ]);
    assert_eq!(
        actions,
        vec![
            SagaAction::ClaimEntryId,
            SagaAction::PlaceEntry,
            SagaAction::PlaceStopLoss,
            SagaAction::PlaceTakeProfit,
            SagaAction::Finished
        ]
    );
    let r = saga.into_result();
    assert!(r.success);
    assert_eq!((r.entry_order_id, r.sl_algo_id, r.tp_algo_id), (Some(11), Some(22), Some(33)));
    assert!(r.error.is_none());
    assert!(r.compensations.is_empty());
}

#[test]
fn saga_take_profit_failure_unwinds_both() {
    let (actions, saga) = run(vec![
        SagaEvent::IdClaimed { fresh: true },
        SagaEvent::EntryPlaced { order_id: 11 },
        SagaEvent::StopLossPlaced { algo_id: 22 },
        SagaEvent::TakeProfitFailed { error: "timeout".to_string() },
        SagaEvent::Cancelled,
        SagaEvent::CancelFailed { error: "gone".to_string() },
    ]);
    assert_eq!(actions[4], SagaAction::CancelStopLoss { algo_id: 22 });
    assert_eq!(actions[5], SagaAction::CancelEntry { order_id: 11 });
    assert_eq!(actions[6], SagaAction::Finished);
    let r = saga.into_result();
    assert!(!r.success);
    assert_eq!(r.error.clone().unwrap(), "TP failed: timeout");
    // a failed saga reports no order
    assert!(r.entry_order_id.is_none() && r.sl_algo_id.is_none() && r.tp_algo_id.is_none());
    assert_eq!(
        r.compensations,
        vec!["Cancelled algo order #22".to_string(), "CRITICAL: Failed to cancel entry #11: gone".to_string()]
    );
}

#[test]
fn saga_stop_loss_rejection_cancels_entry() {
    let (actions, saga) = run(vec![
        SagaEvent::IdClaimed { fresh: true },
        SagaEvent::EntryPlaced { order_id: 7 },
        SagaEvent::StopLossRejected { message: "bad trigger".to_string() },
        SagaEvent::Cancelled,
    ]);
    assert_eq!(actions[3], SagaAction::CancelEntry { order_id: 7 });
    let r = saga.into_result();
    assert!(!r.success);
    assert_eq!(r.error.unwrap(), "SL rejected: bad trigger");
    assert_eq!(r.compensations, vec!["Cancelled entry order #7".to_string()]);
    assert!(r.sl_algo_id.is_none());
}

#[test]
fn saga_duplicate_id_and_failed_entry() {
    let (actions, saga) = run(vec![SagaEvent::IdClaimed { fresh: false }]);
    assert_eq!(actions[1], SagaAction::Finished);
    let r = saga.into_result();
    assert!(!r.success);
    assert_eq!(r.error.unwrap(), "Duplicate entry order");
    let (_, saga) = run(vec![SagaEvent::IdClaimed { fresh: true }, SagaEvent::EntryFailed { error: "margin".to_string() }]);
    let r = saga.into_result();
    assert_eq!(r.error.unwrap(), "Entry failed: margin");
    assert!(r.compensations.is_empty());
    assert!(r.entry_order_id.is_none());
}

#[test]
fn saga_ignores_unexpected_events() {
    let (actions, _) = run(vec![SagaEvent::Cancelled, SagaEvent::EntryPlaced { order_id: 1 }]);
    assert_eq!(actions, vec![SagaAction::ClaimEntryId, SagaAction::ClaimEntryId, SagaAction::ClaimEntryId]);
}

#[test]
fn saga_result_constructors() {
    let ok = SagaResult::ok(1, 2, 3);
    assert!(ok.success);
    assert_eq!((ok.entry_order_id, ok.sl_algo_id, ok.tp_algo_id), (Some(1), Some(2), Some(3)));
    let failed = SagaResult::failed("boom", vec!["Cancelled entry order #1".to_string()]);
    assert!(!failed.success);
    assert_eq!(failed.error.unwrap(), "boom");
    assert_eq!(failed.compensations.len(), 1);
    assert!(failed.entry_order_id.is_none());
}

#[test]
fn cancellation_texts() {
    assert_eq!(cancellation_text("algo", 5, None), "Cancelled algo order #5");
    assert_eq!(cancellation_text("entry", -3, Some("x")), "CRITICAL: Failed to cancel entry #-3: x");
}

#[test]
fn trade_params_sides_and_ratio() {
    let long = TradeParams::long("BTCUSDT", num(1), num(100), num(95), num(110));
    assert_eq!(long.sl_side(), Side::Sell);
    assert_eq!(long.tp_side(), Side::Sell);
    assert!(same_value(long.risk_reward().unwrap(), num(2)));
    let short = TradeParams::short("BTCUSDT", num(1), num(100), num(104), num(90));
    assert_eq!(short.sl_side(), Side::Buy);
    assert!(same_value(short.risk_reward().unwrap(), dec("2.5")));
    let flat = TradeParams::long("X", num(1), num(100), num(100), num(110));
    assert!(same_value(flat.risk_reward().unwrap(), Decimal::zero()));
    assert!(same_value(decimal_abs(num(-4)), num(4)));
}

// ── Execution parameters ───────────────────────────────────────

#[test]
fn execution_params_builders() {
    let p = ExecutionParams::market("BTCUSDT", Side::Buy, num(2));
    assert!(matches!(p.algo, ExecutionAlgo::Market));
    assert!(same_value(p.max_participation_rate, dec("0.10")));
    assert!(!p.reduce_only);
    let t = ExecutionParams::twap("BTCUSDT", Side::Sell, num(2), 4, 30).with_reduce_only();
    assert!(matches!(t.algo, ExecutionAlgo::Twp { slices: 4, interval_secs: 30 }));
    assert!(t.reduce_only);
    let a = ExecutionParams::adaptive_limit("BTCUSDT", Side::Buy, num(2), 3, 60);
    assert!(matches!(
        a.algo,
        ExecutionAlgo::AdaptiveLimit { offset_bps: 3, timeout_secs: 60, max_slippage_bps: 5 }
    ));
    assert!(matches!(ExecutionAlgo::default(), ExecutionAlgo::Market));
}
