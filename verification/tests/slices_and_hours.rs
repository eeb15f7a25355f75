use bonbo_executor::decimal::Decimal;
use bonbo_executor::slice_gate::{gate_slice, SliceCheck, SliceGate};
use bonbo_executor::slicer::SliceHistory;
use bonbo_executor::vwap::kline_hour;

/// Both stand for the same number.
fn same_value(a: Decimal, b: Decimal) -> bool {
    rust_decimal::Decimal::from_i128_with_scale(a.mantissa, a.scale)
        == rust_decimal::Decimal::from_i128_with_scale(b.mantissa, b.scale)
}

fn num(n: i64) -> Decimal {
    Decimal::from_int(n)
}

// ── Recent-slice history ───────────────────────────────────────

#[test]
fn slice_history_records_newest_first() {
    let mut history = SliceHistory::new(10);
    history.record(num(100));
    history.record(num(200));
    assert_eq!(history.len(), 2);
    assert!(same_value(history.get(0).unwrap(), num(200)));
    assert!(same_value(history.get(1).unwrap(), num(100)));
    assert!(history.get(2).is_none());
}

#[test]
fn slice_history_drops_oldest_beyond_limit() {
    let mut history = SliceHistory::new(3);
    for q in 1..=5 {
        history.record(num(q));
    }
    assert_eq!(history.len(), 3);
    assert!(same_value(history.get(0).unwrap(), num(5)));
    assert!(same_value(history.get(1).unwrap(), num(4)));
    assert!(same_value(history.get(2).unwrap(), num(3)));
}

#[test]
fn slice_history_with_no_room_keeps_nothing() {
    let mut history = SliceHistory::new(0);
    history.record(num(100));
    assert_eq!(history.len(), 0);
    assert!(history.get(0).is_none());
}

#[test]
fn slice_history_reset_forgets_everything() {
    let mut history = SliceHistory::new(10);
    history.record(num(100));
    history.record(num(100));
    assert_eq!(history.len(), 2);
    history.reset();
    assert_eq!(history.len(), 0);
    history.record(num(7));
    assert!(same_value(history.get(0).unwrap(), num(7)));
}

// ── Kline hour buckets ─────────────────────────────────────────

#[test]
fn kline_hour_of_each_hour_of_the_first_day() {
    for h in 0..24i64 {
        assert_eq!(kline_hour(h * 3_600_000), h as u32);
    }
}

#[test]
fn kline_hour_wraps_after_a_day() {
    assert_eq!(kline_hour(24 * 3_600_000), 0);
    assert_eq!(kline_hour(25 * 3_600_000 + 59 * 60_000), 1);
    // 2023-11-14T22:13:20Z
    assert_eq!(kline_hour(1_700_000_000_000), 22);
}

#[test]
fn kline_hour_before_the_epoch_is_rust_truncating_arithmetic() {
    for ms in [-1i64, -3_600_000, -7_200_001, -90_000_000, i64::MIN, i64::MIN + 1] {
        let expected = ((ms / 3_600_000) % 24) as u32;
        assert_eq!(kline_hour(ms), expected, "ms = {ms}");
    }
    assert_eq!(kline_hour(-3_600_000), u32::MAX);
    assert_eq!(kline_hour(-1), 0);
}

// ── Pre-slice gate ─────────────────────────────────────────────

#[test]
fn gate_executes_a_clear_slice_without_using_a_retry() {
    assert_eq!(gate_slice(SliceCheck::Clear, 2, 3), (SliceGate::Execute, 2));
}

#[test]
fn gate_decides_at_once_on_kill_switch_abort_and_risk() {
    assert_eq!(gate_slice(SliceCheck::KillSwitch, 1, 3), (SliceGate::KillSwitch, 1));
    assert_eq!(gate_slice(SliceCheck::SpreadAbort, 0, 3), (SliceGate::SpreadAbort, 0));
    assert_eq!(gate_slice(SliceCheck::RiskRefused, 0, 3), (SliceGate::RiskSkip, 0));
}

#[test]
fn gate_retries_a_wide_spread_until_the_retries_run_out() {
    assert_eq!(gate_slice(SliceCheck::SpreadWide, 0, 3), (SliceGate::Retry, 1));
    assert_eq!(gate_slice(SliceCheck::SpreadWide, 1, 3), (SliceGate::Retry, 2));
    assert_eq!(gate_slice(SliceCheck::SpreadWide, 2, 3), (SliceGate::SpreadTimeout, 3));
    assert_eq!(gate_slice(SliceCheck::SlippageHigh, 2, 3), (SliceGate::SlippageTimeout, 3));
    assert_eq!(gate_slice(SliceCheck::BookUnavailable, 2, 3), (SliceGate::BookUnavailable, 3));
    assert_eq!(gate_slice(SliceCheck::BookUnavailable, 0, 3), (SliceGate::Retry, 1));
}

#[test]
fn gate_with_no_retries_gives_up_on_the_first_failure() {
    assert_eq!(gate_slice(SliceCheck::SlippageHigh, 0, 0), (SliceGate::SlippageTimeout, 1));
    assert_eq!(gate_slice(SliceCheck::SpreadWide, 0, 1), (SliceGate::SpreadTimeout, 1));
}

#[test]
fn gate_round_after_round_ends_within_max_retries() {
    let (mut retries, mut rounds) = (0usize, 0usize);
    loop {
        rounds += 1;
        let (gate, used) = gate_slice(SliceCheck::SpreadWide, retries, 5);
        retries = used;
        if gate != SliceGate::Retry {
            assert_eq!(gate, SliceGate::SpreadTimeout);
            break;
        }
    }
    assert_eq!(rounds, 5);
    assert_eq!(retries, 5);
}

#[test]
fn gate_outcomes_that_end_an_execution() {
    assert!(SliceGate::KillSwitch.ends_execution());
    assert!(SliceGate::SpreadAbort.ends_execution());
    assert!(!SliceGate::BookUnavailable.ends_execution());
    assert!(!SliceGate::SpreadTimeout.ends_execution());
    assert!(!SliceGate::RiskSkip.ends_execution());
    assert!(SliceGate::BookUnavailable.ends_twap());
    assert!(SliceGate::SpreadAbort.ends_twap());
    assert!(!SliceGate::KillSwitch.ends_twap());
    assert!(!SliceGate::SlippageTimeout.ends_twap());
}
