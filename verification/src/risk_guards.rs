//! Pre-trade risk guards: per-order notional limit, session time limit, order-count
//! limit and the kill switch, and the session ledger they read.
//!
//! The kill-switch flag and the clock live with the caller; every check here takes
//! them as arguments.
use vstd::prelude::*;
use crate::decimal::{checked_mul, decimal_checked_mul, decimal_text, less_than, to_text, value_of, Decimal};
use crate::text::{int_text, i64_text, join, owned, u64_text};

verus! {

/// Risk limits for one execution.
#[derive(Clone, Copy, Debug)]
pub struct ExecutionRiskLimits {
    /// Largest notional value of one order (USD).
    pub max_notional_per_order: Decimal,
    /// Largest slippage of one order (basis points).
    pub max_slippage_bps: Decimal,
    /// Largest share of market volume.
    pub max_participation_rate: Decimal,
    /// Most orders in a session.
    pub max_slices: usize,
    /// Longest session, in seconds.
    pub max_execution_time_secs: u64,
}

impl ExecutionRiskLimits {
    pub open spec fn wf(self) -> bool {
        self.max_notional_per_order.wf() && self.max_slippage_bps.wf()
            && self.max_participation_rate.wf()
    }
}

impl Default for ExecutionRiskLimits {
    /// $5000 per order, 10 bps slippage, 15 % participation, 20 orders, 600 s.
    fn default() -> (r: Self)
        ensures
            r.wf(),
            r.max_notional_per_order@ == (5000int, 0nat),
            r.max_slippage_bps@ == (10int, 0nat),
            r.max_participation_rate@ == (15int, 2nat),
            r.max_slices == 20,
            r.max_execution_time_secs == 600,
    {
        ExecutionRiskLimits {
            max_notional_per_order: Decimal::new(5000, 0),
            max_slippage_bps: Decimal::new(10, 0),
            max_participation_rate: Decimal::new(15, 2),
            max_slices: 20,
            max_execution_time_secs: 600,
        }
    }
}

/// Outcome of a risk check.
#[derive(Clone, Debug)]
pub enum RiskCheckResult {
    Allowed,
    /// Rejected, with the reason.
    Rejected(String),
}

impl RiskCheckResult {
    /// `None` when allowed, else the reason.
    pub open spec fn reason(&self) -> Option<Seq<char>> {
        match self {
            RiskCheckResult::Allowed => None,
            RiskCheckResult::Rejected(r) => Some(r@),
        }
    }

    pub fn is_allowed(&self) -> (r: bool)
        ensures
            r == (*self is Allowed),
    {
        match self {
            RiskCheckResult::Allowed => true,
            RiskCheckResult::Rejected(_) => false,
        }
    }
}

/// Totals of a trading session.
pub struct CumulativeRiskState {
    /// Notional traded, in cents.
    total_notional_cents: u64,
    /// Commission paid, in millionths of a dollar.
    total_commission_micros: u64,
    /// Orders executed.
    order_count: i64,
    limits: ExecutionRiskLimits,
}

/// The session-time rejection fires once more than `max_secs` have passed.
pub open spec fn time_exceeded(elapsed_nanos: u128, max_secs: u64) -> bool {
    elapsed_nanos > max_secs * 1_000_000_000
}

impl CumulativeRiskState {
    pub closed spec fn spec_notional_cents(&self) -> u64 {
        self.total_notional_cents
    }

    pub closed spec fn spec_commission_micros(&self) -> u64 {
        self.total_commission_micros
    }

    pub closed spec fn spec_order_count(&self) -> i64 {
        self.order_count
    }

    pub closed spec fn spec_limits(&self) -> ExecutionRiskLimits {
        self.limits
    }

    /// A fresh session with the given limits.
    pub fn new(limits: ExecutionRiskLimits) -> (r: Self)
        ensures
            r.spec_notional_cents() == 0,
            r.spec_commission_micros() == 0,
            r.spec_order_count() == 0,
            r.spec_limits() == limits,
    {
        CumulativeRiskState {
            total_notional_cents: 0,
            total_commission_micros: 0,
            order_count: 0,
            limits,
        }
    }

    /// Records one executed order (amounts already in cents and micro-dollars). The
    /// counters wrap around on overflow, as atomic counters do.
    pub fn record_execution(&mut self, notional_cents: u64, commission_micros: u64)
        ensures
            final(self).spec_notional_cents() == (old(self).spec_notional_cents() as int
                + notional_cents as int) % 0x1_0000_0000_0000_0000,
            final(self).spec_commission_micros() == (old(self).spec_commission_micros() as int
                + commission_micros as int) % 0x1_0000_0000_0000_0000,
            final(self).spec_order_count() == (if old(self).spec_order_count() == i64::MAX {
                i64::MIN as int
            } else {
                old(self).spec_order_count() + 1
            }),
            final(self).spec_limits() == old(self).spec_limits(),
    {
        self.total_notional_cents = self.total_notional_cents.wrapping_add(notional_cents);
        self.total_commission_micros = self.total_commission_micros.wrapping_add(commission_micros);
        self.order_count = self.order_count.wrapping_add(1);
    }

    /// Notional traded, in cents.
    pub fn total_notional_cents(&self) -> (r: u64)
        ensures
            r == self.spec_notional_cents(),
    {
        self.total_notional_cents
    }

    /// Commission paid, in millionths of a dollar.
    pub fn total_commission_micros(&self) -> (r: u64)
        ensures
            r == self.spec_commission_micros(),
    {
        self.total_commission_micros
    }

    /// Orders executed.
    pub fn order_count(&self) -> (r: i64)
        ensures
            r == self.spec_order_count(),
    {
        self.order_count
    }

    /// The limits of this session.
    pub fn limits(&self) -> (r: ExecutionRiskLimits)
        ensures
            r == self.spec_limits(),
    {
        self.limits
    }

    /// The reason a new order is refused, checked in order: kill switch, session
    /// time, per-order notional, order count; `None` when allowed.
    pub open spec fn spec_rejection(
        &self,
        kill_switch_active: bool,
        elapsed_nanos: u128,
        estimated_notional: (int, nat),
    ) -> Option<Seq<char>> {
        let limits = self.spec_limits();
        if kill_switch_active {
            Some("Kill switch is active"@)
        } else if time_exceeded(elapsed_nanos, limits.max_execution_time_secs) {
            Some("Session time limit exceeded"@)
        } else if value_of(limits.max_notional_per_order@) < value_of(estimated_notional) {
            Some(
                "Order notional $"@ + decimal_text(estimated_notional) + " exceeds limit $"@
                    + decimal_text(limits.max_notional_per_order@),
            )
        } else if self.spec_order_count() >= limits.max_slices as i64 {
            Some(
                "Order count "@ + int_text(self.spec_order_count() as int) + " exceeds max slices "@
                    + int_text(limits.max_slices as int),
            )
        } else {
            None
        }
    }

    /// May a new order of `estimated_notional` go out? `kill_switch_active` is the
    /// global kill-switch flag and `elapsed_nanos` the time since the session began.
    pub fn check_execution_allowed(
        &self,
        kill_switch_active: bool,
        elapsed_nanos: u128,
        estimated_notional: Decimal,
    ) -> (r: RiskCheckResult)
        requires
            self.spec_limits().wf(),
            estimated_notional.wf(),
        ensures
            r.reason() == self.spec_rejection(kill_switch_active, elapsed_nanos, estimated_notional@),
    {
        if kill_switch_active {
            return RiskCheckResult::Rejected(owned("Kill switch is active"));
        }
        if elapsed_nanos > (self.limits.max_execution_time_secs as u128) * 1_000_000_000 {
            return RiskCheckResult::Rejected(owned("Session time limit exceeded"));
        }
        if less_than(self.limits.max_notional_per_order, estimated_notional) {
            let s = join(owned("Order notional $"), to_text(estimated_notional).as_str());
            let s = join(s, " exceeds limit $");
            let s = join(s, to_text(self.limits.max_notional_per_order).as_str());
            return RiskCheckResult::Rejected(s);
        }
        let count = self.order_count;
        if count >= self.limits.max_slices as i64 {
            let s = join(owned("Order count "), i64_text(count).as_str());
            let s = join(s, " exceeds max slices ");
            let s = join(s, u64_text(self.limits.max_slices as u64).as_str());
            return RiskCheckResult::Rejected(s);
        }
        RiskCheckResult::Allowed
    }
}

/// Result of all pre-trade gates together.
#[derive(Clone, Debug)]
pub struct PreTradeCheck {
    pub allowed: bool,
    pub kill_switch_active: bool,
    /// Was the order's notional within the per-order limit?
    pub notional_ok: bool,
    /// Why it was refused.
    pub reason: Option<String>,
}

impl PreTradeCheck {
    /// The reason text, as a mathematical value.
    pub open spec fn reason_view(&self) -> Option<Seq<char>> {
        match self.reason {
            Some(r) => Some(r@),
            None => None,
        }
    }

    /// Runs every gate for an order of `qty` at `estimated_price`: the kill switch,
    /// the per-order notional limit of `limits`, and the session's own check.
    /// `None` when the notional overflows.
    pub fn run(
        qty: Decimal,
        estimated_price: Decimal,
        risk_state: &CumulativeRiskState,
        limits: &ExecutionRiskLimits,
        kill_switch_active: bool,
        elapsed_nanos: u128,
    ) -> (r: Option<PreTradeCheck>)
        requires
            qty.wf(),
            estimated_price.wf(),
            limits.wf(),
            risk_state.spec_limits().wf(),
        ensures
            r is None <==> decimal_checked_mul(qty@, estimated_price@) is None,
            r matches Some(c) ==> {
                let notional = decimal_checked_mul(qty@, estimated_price@).unwrap();
                let notional_ok = value_of(notional) <= value_of(limits.max_notional_per_order@);
                let session = risk_state.spec_rejection(kill_switch_active, elapsed_nanos, notional);
                &&& c.kill_switch_active == kill_switch_active
                &&& c.notional_ok == notional_ok
                &&& c.allowed == (!kill_switch_active && notional_ok && session is None)
                &&& c.reason_view() == if kill_switch_active {
                    Some("Kill switch active"@)
                } else if !notional_ok {
                    Some(
                        "Notional $"@ + decimal_text(notional) + " exceeds $"@ + decimal_text(
                            limits.max_notional_per_order@,
                        ),
                    )
                } else {
                    session
                }
            },
    {
        let notional = match checked_mul(qty, estimated_price) {
            Some(n) => n,
            None => return None,
        };
        let notional_ok = !less_than(limits.max_notional_per_order, notional);
        let risk_result = risk_state.check_execution_allowed(kill_switch_active, elapsed_nanos, notional);
        let session_ok = risk_result.is_allowed();
        let allowed = !kill_switch_active && notional_ok && session_ok;
        let reason = if kill_switch_active {
            Some(owned("Kill switch active"))
        } else if !notional_ok {
            let s = join(owned("Notional $"), to_text(notional).as_str());
            let s = join(s, " exceeds $");
            Some(join(s, to_text(limits.max_notional_per_order).as_str()))
        } else {
            match risk_result {
                RiskCheckResult::Rejected(r) => Some(r),
                RiskCheckResult::Allowed => None,
            }
        };
        Some(PreTradeCheck { allowed, kill_switch_active, notional_ok, reason })
    }
}

/// With the kill switch on, the session check refuses every order.
pub proof fn lemma_kill_switch_refuses(
    state: &CumulativeRiskState,
    elapsed_nanos: u128,
    notional: (int, nat),
)
    ensures
        state.spec_rejection(true, elapsed_nanos, notional) is Some,
{
}

/// An allowed order is within the per-order limit, the session's time and its
/// order count.
pub proof fn lemma_allowed_within_limits(
    state: &CumulativeRiskState,
    kill: bool,
    elapsed_nanos: u128,
    notional: (int, nat),
)
    requires
        state.spec_rejection(kill, elapsed_nanos, notional) is None,
    ensures
        !kill,
        !time_exceeded(elapsed_nanos, state.spec_limits().max_execution_time_secs),
        value_of(notional) <= value_of(state.spec_limits().max_notional_per_order@),
        state.spec_order_count() < state.spec_limits().max_slices as i64,
{
}

} // verus!
