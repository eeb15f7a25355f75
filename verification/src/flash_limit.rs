//! Order routes chosen from the spread, and tick rounding of limit prices.
use vstd::prelude::*;
use crate::decimal::{
    checked_div, checked_mul, decimal_checked_div, decimal_checked_mul, decimal_checked_sub, opt_view,
    pow10, round_half_even_parts, round_to_integer, Decimal,
};
use crate::orderbook::{OrderBookSnapshot, Side};

verus! {

/// How to send an order given the spread.
#[derive(Clone, Copy, Debug, PartialEq, Eq, Structural)]
pub enum OrderRoute {
    /// Limit at the touch, immediate-or-cancel.
    FlashLimit,
    /// Limit near the depth-weighted mid.
    AdaptiveLimit,
    /// Market order.
    Market,
    /// Do not trade: spread too wide.
    Hold,
}

impl OrderRoute {
    /// The display name.
    pub fn name(&self) -> (s: &'static str)
        ensures
            *self == OrderRoute::FlashLimit ==> s@ == "\u{26a1} FLASH_LIMIT"@,
            *self == OrderRoute::AdaptiveLimit ==> s@ == "\u{1f4d0} ADAPTIVE"@,
            *self == OrderRoute::Market ==> s@ == "\u{1f3ea} MARKET"@,
            *self == OrderRoute::Hold ==> s@ == "\u{270b} HOLD"@,
    {
        match self {
            OrderRoute::FlashLimit => "\u{26a1} FLASH_LIMIT",
            OrderRoute::AdaptiveLimit => "\u{1f4d0} ADAPTIVE",
            OrderRoute::Market => "\u{1f3ea} MARKET",
            OrderRoute::Hold => "\u{270b} HOLD",
        }
    }
}


/// `price` rounded to `decimals` fractional digits (midpoint to even): times `10^decimals`,
/// rounded to an integer, divided back; `None` when a step overflows.
pub open spec fn spec_round_to_tick(price: (int, nat), decimals: u32) -> Option<(int, nat)> {
    let factor = (pow10(decimals as nat), 0nat);
    match decimal_checked_mul(price, factor) {
        None => None,
        Some(p) => decimal_checked_div(round_half_even_parts(p), factor),
    }
}

/// `10^n` is positive.
proof fn lemma_pow10_positive(n: nat)
    ensures
        pow10(n) >= 1,
    decreases n,
{
    if n > 0 {
        lemma_pow10_positive((n - 1) as nat);
    }
}

/// `10^n` grows with `n`.
proof fn lemma_pow10_monotone(a: nat, b: nat)
    requires
        a <= b,
    ensures
        pow10(a) <= pow10(b),
    decreases b,
{
    if a < b {
        lemma_pow10_monotone(a, (b - 1) as nat);
        lemma_pow10_positive((b - 1) as nat);
    }
}

/// `10^n` for `n <= 18` stays within `10^18`.
proof fn lemma_pow10_bound(n: nat)
    requires
        n <= 18,
    ensures
        1 <= pow10(n) <= pow10(18),
{
    lemma_pow10_positive(n);
    lemma_pow10_monotone(n, 18);
}

/// `10^decimals` as a decimal (`decimals <= 19`).
fn tick_factor(decimals: u32) -> (r: Decimal)
    requires
        decimals <= 19,
    ensures
        r.wf(),
        r@ == (pow10(decimals as nat), 0nat),
{
    let mut f: u64 = 1;
    let mut i: u32 = 0;
    proof {
        reveal_with_fuel(pow10, 20);
        assert(pow10(18) == 1_000_000_000_000_000_000);
    }
    while i < decimals
        invariant
            i <= decimals <= 19,
            f == pow10(i as nat),
            pow10(18) == 1_000_000_000_000_000_000,
        decreases decimals - i,
    {
        proof {
            lemma_pow10_bound(i as nat);
        }
        f = f * 10;
        i = i + 1;
    }
    proof {
        reveal_with_fuel(pow10, 20);
        if decimals <= 18 {
            lemma_pow10_bound(decimals as nat);
        }
        assert(pow10(19) == 10_000_000_000_000_000_000);
    }
    Decimal { mantissa: f as i128, scale: 0 }
}

/// Rounds a price to `decimals` fractional digits, midpoint to even.
pub fn round_to_tick(price: Decimal, decimals: u32) -> (r: Option<Decimal>)
    requires
        price.wf(),
        decimals <= 19,
    ensures
        opt_view(r) == spec_round_to_tick(price@, decimals),
        r matches Some(d) ==> d.wf(),
{
    let factor = tick_factor(decimals);
    let scaled = match checked_mul(price, factor) {
        Some(p) => p,
        None => return None,
    };
    checked_div(round_to_integer(scaled), factor)
}

/// The improvement over the mid for an adaptive limit: 30 % of the half spread
/// (zero without a spread) rounded to the tick; `None` when a step overflows.
pub open spec fn spec_adaptive_offset(book: OrderBookSnapshot, decimals: u32) -> Option<(int, nat)> {
    let spread = match (book.spec_best_bid(), book.spec_best_ask()) {
        (Some(bid), Some(ask)) => match decimal_checked_sub(ask, bid) {
            Some(s) => s,
            None => (0int, 0nat),
        },
        _ => (0int, 0nat),
    };
    match decimal_checked_div(spread, (2int, 0nat)) {
        None => None,
        Some(half) => match spec_round_to_tick(half, decimals) {
            None => None,
            Some(rounded) => decimal_checked_mul(rounded, (3int, 1nat)),
        },
    }
}

/// How far inside the spread an adaptive limit is posted.
pub fn compute_adaptive_offset(book: &OrderBookSnapshot, side: Side, price_decimals: u32) -> (r: Option<
    Decimal,
>)
    requires
        book.wf(),
        price_decimals <= 19,
    ensures
        opt_view(r) == spec_adaptive_offset(*book, price_decimals),
        r matches Some(d) ==> d.wf(),
{
    let spread = match book.spread() {
        Some(s) => s,
        None => Decimal::zero(),
    };
    let half = match checked_div(spread, Decimal::new(2, 0)) {
        Some(h) => h,
        None => return None,
    };
    let rounded = match round_to_tick(half, price_decimals) {
        Some(v) => v,
        None => return None,
    };
    checked_mul(rounded, Decimal::new(3, 1))
}

} // verus!
