//! Pieces of time-sliced execution that need no clock: a deterministic xorshift
//! generator for timing jitter, the passive limit price for a side, and the
//! clamping of an adaptive slice size.
use vstd::prelude::*;
use crate::decimal::{checked_mul, decimal_checked_mul, opt_view, value_of, Decimal};
use crate::orderbook::{decimal_max, decimal_min, dmax, dmin, OrderBookSnapshot, Side};

verus! {

/// One xorshift64 step (shifts 13, 7, 17).
pub open spec fn xorshift(x: u64) -> u64 {
    let a = x ^ (x << 13u64);
    let b = a ^ (a >> 7u64);
    b ^ (b << 17u64)
}

/// Simple deterministic PRNG (xorshift64), for timing jitter only.
pub struct SimpleRng {
    state: u64,
}

impl SimpleRng {
    /// The current state.
    pub closed spec fn spec_state(&self) -> u64 {
        self.state
    }

    /// A generator seeded with `seed` (a zero seed becomes 1, since zero is a fixed point).
    pub fn from_seed(seed: u64) -> (r: SimpleRng)
        ensures
            r.spec_state() == if seed == 0 { 1 } else { seed },
            r.spec_state() != 0,
    {
        SimpleRng { state: if seed == 0 { 1 } else { seed } }
    }

    /// Advances the state by one xorshift step and returns it.
    pub fn next(&mut self) -> (r: u64)
        ensures
            r == xorshift(old(self).spec_state()),
            final(self).spec_state() == r,
    {
        let mut x = self.state;
        x = x ^ (x << 13u64);
        x = x ^ (x >> 7u64);
        x = x ^ (x << 17u64);
        self.state = x;
        x
    }
}

/// A non-zero state never steps to zero: each xorshift step is invertible and maps
/// zero to zero, so the generator never gets stuck.
pub proof fn lemma_xorshift_nonzero(x: u64)
    requires
        x != 0,
    ensures
        xorshift(x) != 0,
{
    let a = x ^ (x << 13u64);
    let b = a ^ (a >> 7u64);
    assert(x != 0 ==> x ^ (x << 13u64) != 0) by (bit_vector);
    assert(a != 0 ==> a ^ (a >> 7u64) != 0) by (bit_vector);
    assert(b != 0 ==> b ^ (b << 17u64) != 0) by (bit_vector);
}

/// The passive price for a side: a buy joins the best bid, a sell the best ask; with
/// that side empty, the mid price, and with no mid price, one.
pub open spec fn spec_limit_price_for_side(book: OrderBookSnapshot, side: Side) -> (int, nat) {
    let touch = if side == Side::Buy { book.spec_best_bid() } else { book.spec_best_ask() };
    match touch {
        Some(p) => p,
        None => match book.spec_mid_price() {
            Some(m) => m,
            None => (1int, 0nat),
        },
    }
}

/// Limit price for a passive slice: join the bid when buying, the ask when selling.
pub fn compute_limit_price_for_side(book: &OrderBookSnapshot, side: Side) -> (r: Decimal)
    requires
        book.wf(),
    ensures
        r@ == spec_limit_price_for_side(*book, side),
        r.wf(),
{
    let touch = match side {
        Side::Buy => book.best_bid(),
        Side::Sell => book.best_ask(),
    };
    match touch {
        Some(p) => p,
        None => match book.mid_price() {
            Some(m) => m,
            None => Decimal::one(),
        },
    }
}

/// Scales `qty` by an optional factor (`None` factor leaves it alone); `None` when the
/// product overflows.
pub open spec fn spec_scale(qty: (int, nat), factor: Option<(int, nat)>) -> Option<(int, nat)> {
    match factor {
        Some(f) => decimal_checked_mul(qty, f),
        None => Some(qty),
    }
}

/// The adaptive slice size: the smaller of the planned slice and what remains, scaled
/// by the slippage and spread factors (when present), clamped to `[min, max]`, and
/// never more than what remains.
pub open spec fn spec_adaptive_qty(
    base: (int, nat),
    remaining: (int, nat),
    min_slice: (int, nat),
    max_slice: (int, nat),
    slippage_factor: Option<(int, nat)>,
    spread_factor: Option<(int, nat)>,
) -> Option<(int, nat)> {
    match spec_scale(dmin(base, remaining), slippage_factor) {
        None => None,
        Some(q1) => match spec_scale(q1, spread_factor) {
            None => None,
            Some(q2) => Some(dmin(dmin(dmax(q2, min_slice), max_slice), remaining)),
        },
    }
}

/// Clamps an adaptive slice: `min(base, remaining)`, times each factor given, then
/// `max(min_slice)`, `min(max_slice)` and `min(remaining)`.
pub fn clamp_adaptive_qty(
    base: Decimal,
    remaining: Decimal,
    min_slice: Decimal,
    max_slice: Decimal,
    slippage_factor: Option<Decimal>,
    spread_factor: Option<Decimal>,
) -> (r: Option<Decimal>)
    requires
        base.wf(),
        remaining.wf(),
        min_slice.wf(),
        max_slice.wf(),
        slippage_factor matches Some(f) ==> f.wf(),
        spread_factor matches Some(f) ==> f.wf(),
    ensures
        opt_view(r) == spec_adaptive_qty(
            base@,
            remaining@,
            min_slice@,
            max_slice@,
            opt_view(slippage_factor),
            opt_view(spread_factor),
        ),
        r matches Some(q) ==> q.wf() && value_of(q@) <= value_of(remaining@),
{
    let mut qty = decimal_min(base, remaining);
    if let Some(f) = slippage_factor {
        qty = match checked_mul(qty, f) {
            Some(q) => q,
            None => return None,
        };
    }
    if let Some(f) = spread_factor {
        qty = match checked_mul(qty, f) {
            Some(q) => q,
            None => return None,
        };
    }
    qty = decimal_max(qty, min_slice);
    qty = decimal_min(qty, max_slice);
    qty = decimal_min(qty, remaining);
    Some(qty)
}

} // verus!
