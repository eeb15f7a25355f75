//! Order-placement arithmetic shared by the execution algorithms: passive limit
//! prices and the amounts of an execution report.
use vstd::prelude::*;
use crate::decimal::{
    checked_div, checked_mul, checked_sub, decimal_checked_div, decimal_checked_mul,
    decimal_checked_sub, less_than, opt_view, value_of, Decimal, checked_add,
    decimal_checked_add, div_is_exact, pow10, sub_is_exact,
};
use crate::fills::{fill_totals, fills_wf, spec_vwap_or, totals_from, vwap_or, zero_totals, Fill};
use crate::orderbook::{OrderBookSnapshot, Side};

verus! {

/// `|offset_bps|` as a decimal.
pub open spec fn abs_bps(offset_bps: i32) -> (int, nat) {
    (if offset_bps < 0 { -(offset_bps as int) } else { offset_bps as int }, 0nat)
}

/// The limit price for an order posted `offset_bps` basis points from the mid price
/// (one when the book has no mid): at the mid for a non-positive offset, else below the
/// mid for a buy and above it for a sell.
pub open spec fn spec_limit_price(book: OrderBookSnapshot, side: Side, offset_bps: i32) -> Option<(int, nat)> {
    let mid = match book.spec_mid_price() {
        Some(m) => m,
        None => (1int, 0nat),
    };
    match decimal_checked_mul(mid, abs_bps(offset_bps)) {
        None => None,
        Some(p) => match decimal_checked_div(p, (10000int, 0nat)) {
            None => None,
            Some(offset) => if offset_bps <= 0 {
                Some(mid)
            } else if side == Side::Buy {
                decimal_checked_sub(mid, offset)
            } else {
                decimal_checked_add(mid, offset)
            },
        },
    }
}

/// Limit price `offset_bps` basis points on the passive side of the mid.
pub fn compute_limit_price(book: &OrderBookSnapshot, side: Side, offset_bps: i32) -> (r: Option<Decimal>)
    requires
        book.wf(),
        offset_bps > i32::MIN,
    ensures
        opt_view(r) == spec_limit_price(*book, side, offset_bps),
        r matches Some(d) ==> d.wf(),
{
    let mid = match book.mid_price() {
        Some(m) => m,
        None => Decimal::one(),
    };
    let bps: i32 = if offset_bps < 0 { -offset_bps } else { offset_bps };
    let p = match checked_mul(mid, Decimal::from_int(bps as i64)) {
        Some(p) => p,
        None => return None,
    };
    let offset = match checked_div(p, Decimal::new(10000, 0)) {
        Some(o) => o,
        None => return None,
    };
    if offset_bps <= 0 {
        Some(mid)
    } else {
        match side {
            Side::Buy => checked_sub(mid, offset),
            Side::Sell => checked_add(mid, offset),
        }
    }
}

/// The decimal amounts of an execution report.
#[derive(Clone, Copy, Debug)]
pub struct ReportAmounts {
    pub filled_qty: Decimal,
    /// `filled / total`, when the total is positive.
    pub fill_ratio: Option<Decimal>,
    /// Notional over filled quantity, or the arrival price when nothing filled.
    pub vwap: Decimal,
    /// Implementation shortfall as a fraction of the arrival price:
    /// `(vwap - arrival) / arrival` for a buy, `(arrival - vwap) / arrival` for a sell.
    pub shortfall_ratio: Decimal,
    pub total_commission: Decimal,
    pub slices_executed: usize,
}

/// The report's amounts: totals of the fills, fill ratio, volume-weighted price and
/// shortfall; `None` when a number overflows.
pub open spec fn spec_report_amounts(
    side: Side,
    total_qty: (int, nat),
    arrival: (int, nat),
    fills: Seq<Fill>,
) -> Option<((int, nat), Option<(int, nat)>, (int, nat), (int, nat), (int, nat))> {
    match totals_from(zero_totals(), fills, fills.len() as int) {
        None => None,
        Some(t) => {
            let ratio = if value_of(total_qty) > 0 {
                match decimal_checked_div(t.filled, total_qty) {
                    None => None,
                    Some(q) => Some(Some(q)),
                }
            } else {
                Some(None)
            };
            match ratio {
                None => None,
                Some(fill_ratio) => match spec_vwap_or(t.notional, t.filled, arrival) {
                    None => None,
                    Some(vwap) => match (if side == Side::Buy {
                        decimal_checked_sub(vwap, arrival)
                    } else {
                        decimal_checked_sub(arrival, vwap)
                    }) {
                        None => None,
                        Some(diff) => match decimal_checked_div(diff, arrival) {
                            None => None,
                            Some(shortfall) => Some((t.filled, fill_ratio, vwap, shortfall, t.commission)),
                        },
                    },
                },
            }
        },
    }
}

/// Sums the fills of an execution into its report's amounts.
pub fn report_amounts(side: Side, total_qty: Decimal, arrival_price: Decimal, fills: &Vec<Fill>) -> (r: Option<
    ReportAmounts,
>)
    requires
        total_qty.wf(),
        arrival_price.wf(),
        value_of(arrival_price@) != 0,
        fills_wf(fills@),
    ensures
        match spec_report_amounts(side, total_qty@, arrival_price@, fills@) {
            None => r is None,
            Some((filled, fill_ratio, vwap, shortfall, commission)) => r matches Some(a) && a.filled_qty@
                == filled && opt_view(a.fill_ratio) == fill_ratio && a.vwap@ == vwap
                && a.shortfall_ratio@ == shortfall && a.total_commission@ == commission
                && a.slices_executed == fills@.len(),
        },
{
    let t = match fill_totals(fills) {
        Some(t) => t,
        None => return None,
    };
    let fill_ratio = if less_than(Decimal::zero(), total_qty) {
        match checked_div(t.filled_qty, total_qty) {
            Some(q) => Some(q),
            None => return None,
        }
    } else {
        None
    };
    let vwap = match vwap_or(t.notional, t.filled_qty, arrival_price) {
        Some(v) => v,
        None => return None,
    };
    let diff = match side {
        Side::Buy => checked_sub(vwap, arrival_price),
        Side::Sell => checked_sub(arrival_price, vwap),
    };
    let diff = match diff {
        Some(d) => d,
        None => return None,
    };
    let shortfall = match checked_div(diff, arrival_price) {
        Some(s) => s,
        None => return None,
    };
    Some(
        ReportAmounts {
            filled_qty: t.filled_qty,
            fill_ratio,
            vwap,
            shortfall_ratio: shortfall,
            total_commission: t.commission,
            slices_executed: fills.len(),
        },
    )
}

/// The shortfall of an execution is measured against the arrival price: wherever
/// `rust_decimal` computes exactly, shortfall ratio × arrival price = (vwap − arrival)
/// for a buy and (arrival − vwap) for a sell; so paying more than the arrival price on a
/// buy (or getting less on a sell) gives a positive shortfall. The fill ratio is the
/// filled share of the order.
pub proof fn lemma_report_shortfall(side: Side, total_qty: (int, nat), arrival: (int, nat), fills: Seq<Fill>)
    requires
        spec_report_amounts(side, total_qty, arrival, fills) is Some,
        value_of(arrival) != 0,
    ensures
        ({
            let (filled, fill_ratio, vwap, shortfall, commission) = spec_report_amounts(
                side,
                total_qty,
                arrival,
                fills,
            ).unwrap();
            &&& side == Side::Buy && sub_is_exact(vwap, arrival) && div_is_exact(
                decimal_checked_sub(vwap, arrival).unwrap(),
                arrival,
            ) ==> value_of(shortfall) * value_of(arrival) == (value_of(vwap) - value_of(arrival))
                * pow10(28)
            &&& side == Side::Sell && sub_is_exact(arrival, vwap) && div_is_exact(
                decimal_checked_sub(arrival, vwap).unwrap(),
                arrival,
            ) ==> value_of(shortfall) * value_of(arrival) == (value_of(arrival) - value_of(vwap))
                * pow10(28)
            &&& value_of(total_qty) > 0 && div_is_exact(filled, total_qty) ==> fill_ratio is Some
                && value_of(fill_ratio.unwrap()) * value_of(total_qty) == value_of(filled) * pow10(28)
            &&& value_of(total_qty) <= 0 ==> fill_ratio is None
        }),
{
}

} // verus!
