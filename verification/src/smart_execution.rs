//! Execution algorithm choices and the parameters of a smart execution.
use vstd::prelude::*;
use crate::decimal::{checked_add, checked_div, decimal_checked_add, decimal_checked_div, opt_view, same_value, value_of, Decimal};
use crate::orderbook::Side;
use crate::text::owned;

verus! {

/// Execution algorithm.
#[derive(Clone, Copy, Debug)]
pub enum ExecutionAlgo {
    /// Immediate execution.
    Market,
    /// Equal slices at fixed intervals.
    Twp { slices: usize, interval_secs: u64 },
    /// Limit near the mid, swept with a market order after a timeout.
    AdaptiveLimit { offset_bps: i32, timeout_secs: u64, max_slippage_bps: u32 },
    /// Only part of the quantity shown at a time.
    Iceberg { visible_qty: Decimal, interval_secs: u64 },
}

impl Default for ExecutionAlgo {
    fn default() -> (r: Self)
        ensures
            r is Market,
    {
        ExecutionAlgo::Market
    }
}

/// Parameters of a smart execution.
#[derive(Clone, Debug)]
pub struct ExecutionParams {
    pub symbol: String,
    pub side: Side,
    pub total_qty: Decimal,
    pub algo: ExecutionAlgo,
    /// Largest share of volume.
    pub max_participation_rate: Decimal,
    /// Closing a position only.
    pub reduce_only: bool,
}

impl ExecutionParams {
    /// A plain market execution (10 % participation, not reduce-only).
    pub fn market(symbol: &str, side: Side, qty: Decimal) -> (r: ExecutionParams)
        ensures
            r.symbol@ == symbol@ && r.side == side && r.total_qty == qty,
            r.algo is Market,
            r.max_participation_rate@ == (10int, 2nat),
            !r.reduce_only,
    {
        ExecutionParams {
            symbol: owned(symbol),
            side,
            total_qty: qty,
            algo: ExecutionAlgo::Market,
            max_participation_rate: Decimal::new(10, 2),
            reduce_only: false,
        }
    }

    /// A TWAP execution in `slices` slices `interval_secs` apart.
    pub fn twap(symbol: &str, side: Side, qty: Decimal, slices: usize, interval_secs: u64) -> (r:
        ExecutionParams)
        ensures
            r.symbol@ == symbol@ && r.side == side && r.total_qty == qty,
            r.algo matches ExecutionAlgo::Twp { slices: s, interval_secs: i } && s == slices && i
                == interval_secs,
            r.max_participation_rate@ == (10int, 2nat),
            !r.reduce_only,
    {
        ExecutionParams {
            symbol: owned(symbol),
            side,
            total_qty: qty,
            algo: ExecutionAlgo::Twp { slices, interval_secs },
            max_participation_rate: Decimal::new(10, 2),
            reduce_only: false,
        }
    }

    /// An adaptive-limit execution (sweep slippage capped at 5 bps).
    pub fn adaptive_limit(symbol: &str, side: Side, qty: Decimal, offset_bps: i32, timeout_secs: u64) -> (r:
        ExecutionParams)
        ensures
            r.symbol@ == symbol@ && r.side == side && r.total_qty == qty,
            r.algo matches ExecutionAlgo::AdaptiveLimit { offset_bps: o, timeout_secs: t, max_slippage_bps: m }
                && o == offset_bps && t == timeout_secs && m == 5,
            r.max_participation_rate@ == (10int, 2nat),
            !r.reduce_only,
    {
        ExecutionParams {
            symbol: owned(symbol),
            side,
            total_qty: qty,
            algo: ExecutionAlgo::AdaptiveLimit { offset_bps, timeout_secs, max_slippage_bps: 5 },
            max_participation_rate: Decimal::new(10, 2),
            reduce_only: false,
        }
    }

    /// The same parameters, reduce-only.
    pub fn with_reduce_only(self) -> (r: ExecutionParams)
        ensures
            r.reduce_only,
            r.symbol == self.symbol && r.side == self.side && r.total_qty == self.total_qty,
            r.max_participation_rate == self.max_participation_rate,
    {
        let mut p = self;
        p.reduce_only = true;
        p
    }
}

/// One executed slice.
#[derive(Clone, Copy, Debug)]
pub struct SliceFill {
    pub slice: usize,
    pub fill_price: Decimal,
    pub fill_qty: Decimal,
    pub notional: Decimal,
    pub commission: Decimal,
    pub is_maker: bool,
    pub timestamp_ms: i64,
}

/// Sums of notional and quantity over the first `n` slices.
pub open spec fn slice_sums(fills: Seq<SliceFill>, n: int) -> Option<((int, nat), (int, nat))>
    decreases n,
{
    if n <= 0 {
        Some(((0int, 0nat), (0int, 0nat)))
    } else {
        match slice_sums(fills, n - 1) {
            None => None,
            Some((notional, qty)) => match decimal_checked_add(notional, fills[n - 1].notional@) {
                None => None,
                Some(n2) => match decimal_checked_add(qty, fills[n - 1].fill_qty@) {
                    None => None,
                    Some(q2) => Some((n2, q2)),
                },
            },
        }
    }
}

proof fn lemma_slice_sums_none_stays(fills: Seq<SliceFill>, i: int, n: int)
    requires
        0 <= i <= n,
        slice_sums(fills, i) is None,
    ensures
        slice_sums(fills, n) is None,
    decreases n - i,
{
    if i < n {
        lemma_slice_sums_none_stays(fills, i + 1, n);
    }
}

/// The volume-weighted price of slices: zero with no slices or no quantity, else total
/// notional over total quantity.
pub open spec fn spec_slices_vwap(fills: Seq<SliceFill>) -> Option<(int, nat)> {
    if fills.len() == 0 {
        Some((0int, 0nat))
    } else {
        match slice_sums(fills, fills.len() as int) {
            None => None,
            Some((notional, qty)) => if value_of(qty) == 0 {
                Some((0int, 0nat))
            } else {
                decimal_checked_div(notional, qty)
            },
        }
    }
}

/// Volume-weighted average price of executed slices.
pub fn calculate_vwap(fills: &Vec<SliceFill>) -> (r: Option<Decimal>)
    requires
        forall|i: int| 0 <= i < fills@.len() ==> (#[trigger] fills@[i]).notional.wf() && fills@[i].fill_qty.wf(),
    ensures
        opt_view(r) == spec_slices_vwap(fills@),
        r matches Some(d) ==> d.wf(),
{
    if fills.len() == 0 {
        return Some(Decimal::zero());
    }
    let mut notional = Decimal::zero();
    let mut qty = Decimal::zero();
    let mut i: usize = 0;
    while i < fills.len()
        invariant
            forall|k: int| 0 <= k < fills@.len() ==> (#[trigger] fills@[k]).notional.wf() && fills@[k].fill_qty.wf(),
            i <= fills@.len(),
            notional.wf() && qty.wf(),
            slice_sums(fills@, i as int) == Some((notional@, qty@)),
        decreases fills@.len() - i,
    {
        let f = fills[i];
        assert(fills@[i as int].notional.wf());
        let n2 = match checked_add(notional, f.notional) {
            Some(v) => v,
            None => {
                proof {
                    lemma_slice_sums_none_stays(fills@, i as int + 1, fills@.len() as int);
                }
                return None;
            },
        };
        let q2 = match checked_add(qty, f.fill_qty) {
            Some(v) => v,
            None => {
                proof {
                    lemma_slice_sums_none_stays(fills@, i as int + 1, fills@.len() as int);
                }
                return None;
            },
        };
        notional = n2;
        qty = q2;
        i = i + 1;
    }
    if same_value(qty, Decimal::zero()) {
        Some(Decimal::zero())
    } else {
        checked_div(notional, qty)
    }
}

} // verus!
