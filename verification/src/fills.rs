//! Fills and what they add up to: filled quantity, notional, commission and the
//! volume-weighted average price.
use vstd::prelude::*;
use crate::decimal::{
    checked_add, checked_div, checked_mul, decimal_checked_add, decimal_checked_div,
    decimal_checked_mul, less_than, opt_view, value_of, Decimal,
};

verus! {

/// The amounts of one fill.
#[derive(Clone, Copy, Debug)]
pub struct Fill {
    pub price: Decimal,
    pub qty: Decimal,
    pub commission: Decimal,
}

impl Fill {
    pub open spec fn wf(self) -> bool {
        self.price.wf() && self.qty.wf() && self.commission.wf()
    }
}

/// Every fill of a sequence is well formed.
pub open spec fn fills_wf(fills: Seq<Fill>) -> bool {
    forall|i: int| 0 <= i < fills.len() ==> (#[trigger] fills[i]).wf()
}

/// Running totals over fills: (filled quantity, notional, commission).
pub struct TotalsView {
    pub filled: (int, nat),
    pub notional: (int, nat),
    pub commission: (int, nat),
}

/// Adds one fill to running totals; `None` when a sum or product overflows.
pub open spec fn add_fill(t: TotalsView, f: Fill) -> Option<TotalsView> {
    match decimal_checked_add(t.filled, f.qty@) {
        None => None,
        Some(filled) => match decimal_checked_mul(f.price@, f.qty@) {
            None => None,
            Some(n) => match decimal_checked_add(t.notional, n) {
                None => None,
                Some(notional) => match decimal_checked_add(t.commission, f.commission@) {
                    None => None,
                    Some(commission) => Some(TotalsView { filled, notional, commission }),
                },
            },
        },
    }
}

/// Totals over the first `n` fills, starting from `start`.
pub open spec fn totals_from(start: TotalsView, fills: Seq<Fill>, n: int) -> Option<TotalsView>
    decreases n,
{
    if n <= 0 {
        Some(start)
    } else {
        match totals_from(start, fills, n - 1) {
            Some(t) => add_fill(t, fills[n - 1]),
            None => None,
        }
    }
}

/// Totals starting from zero.
pub open spec fn zero_totals() -> TotalsView {
    TotalsView { filled: (0int, 0nat), notional: (0int, 0nat), commission: (0int, 0nat) }
}

/// Totals of a list of fills.
#[derive(Clone, Copy, Debug)]
pub struct FillTotals {
    pub filled_qty: Decimal,
    pub notional: Decimal,
    pub commission: Decimal,
}

impl FillTotals {
    pub open spec fn wf(self) -> bool {
        self.filled_qty.wf() && self.notional.wf() && self.commission.wf()
    }

    pub open spec fn numbers(self) -> TotalsView {
        TotalsView {
            filled: self.filled_qty@,
            notional: self.notional@,
            commission: self.commission@,
        }
    }
}

/// Once totals overflow, they stay overflowed.
proof fn lemma_totals_none_stays(start: TotalsView, fills: Seq<Fill>, i: int, n: int)
    requires
        0 <= i <= n,
        totals_from(start, fills, i) is None,
    ensures
        totals_from(start, fills, n) is None,
    decreases n - i,
{
    if i < n {
        lemma_totals_none_stays(start, fills, i + 1, n);
    }
}

/// Adds `fills` to the totals `start`: filled quantity plus each quantity, notional plus
/// each price × quantity, commission plus each commission. `None` when a number overflows.
pub fn accumulate_fills(start: FillTotals, fills: &Vec<Fill>) -> (r: Option<FillTotals>)
    requires
        start.wf(),
        fills_wf(fills@),
    ensures
        match r {
            Some(t) => t.wf() && totals_from(start.numbers(), fills@, fills@.len() as int) == Some(
                t.numbers(),
            ),
            None => totals_from(start.numbers(), fills@, fills@.len() as int) is None,
        },
{
    let mut t = start;
    let mut i: usize = 0;
    while i < fills.len()
        invariant
            fills_wf(fills@),
            i <= fills@.len(),
            t.wf(),
            totals_from(start.numbers(), fills@, i as int) == Some(t.numbers()),
        decreases fills@.len() - i,
    {
        let f = fills[i];
        assert(fills@[i as int].wf());
        let next = match checked_add(t.filled_qty, f.qty) {
            Some(filled) => match checked_mul(f.price, f.qty) {
                Some(n) => match checked_add(t.notional, n) {
                    Some(notional) => match checked_add(t.commission, f.commission) {
                        Some(commission) => Some(FillTotals { filled_qty: filled, notional, commission }),
                        None => None,
                    },
                    None => None,
                },
                None => None,
            },
            None => None,
        };
        match next {
            Some(n) => {
                t = n;
            },
            None => {
                proof {
                    lemma_totals_none_stays(start.numbers(), fills@, i as int + 1, fills@.len() as int);
                }
                return None;
            },
        }
        i = i + 1;
    }
    Some(t)
}

/// Totals of `fills` from zero.
pub fn fill_totals(fills: &Vec<Fill>) -> (r: Option<FillTotals>)
    requires
        fills_wf(fills@),
    ensures
        match r {
            Some(t) => t.wf() && totals_from(zero_totals(), fills@, fills@.len() as int) == Some(
                t.numbers(),
            ),
            None => totals_from(zero_totals(), fills@, fills@.len() as int) is None,
        },
{
    let zero = FillTotals {
        filled_qty: Decimal::zero(),
        notional: Decimal::zero(),
        commission: Decimal::zero(),
    };
    accumulate_fills(zero, fills)
}

/// `notional / filled` when something was filled, else `fallback`.
pub open spec fn spec_vwap_or(notional: (int, nat), filled: (int, nat), fallback: (int, nat)) -> Option<
    (int, nat),
> {
    if 0 < value_of(filled) {
        decimal_checked_div(notional, filled)
    } else {
        Some(fallback)
    }
}

/// Volume-weighted average price `notional / filled` when the filled quantity is
/// positive, else `fallback`; `None` when the quotient overflows.
pub fn vwap_or(notional: Decimal, filled: Decimal, fallback: Decimal) -> (r: Option<Decimal>)
    requires
        notional.wf(),
        filled.wf(),
        fallback.wf(),
    ensures
        opt_view(r) == spec_vwap_or(notional@, filled@, fallback@),
        r matches Some(d) ==> d.wf(),
{
    if less_than(Decimal::zero(), filled) {
        checked_div(notional, filled)
    } else {
        Some(fallback)
    }
}

} // verus!
