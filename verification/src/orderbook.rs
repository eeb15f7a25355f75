//! Order-book analytics: best prices, spread, depth sums and the slippage of a
//! market order that walks the book level by level.
use vstd::prelude::*;
use crate::decimal::{
    checked_add, checked_div, checked_mul, checked_sub, decimal_checked_add, decimal_checked_div,
    decimal_checked_mul, decimal_checked_sub, add_is_exact, div_is_exact, less_than,
    max_mantissa, mul_is_exact, opt_view, pow10, same_value, sub_is_exact, value_of, Decimal,
};

verus! {

/// Order side.
#[derive(Clone, Copy, Debug, PartialEq, Eq, Structural)]
pub enum Side {
    Buy,
    Sell,
}

impl Side {
    /// The name the side is shown by (`Buy` / `Sell`).
    pub fn name(&self) -> (s: &'static str)
        ensures
            *self == Side::Buy ==> s@ == "Buy"@,
            *self == Side::Sell ==> s@ == "Sell"@,
    {
        match self {
            Side::Buy => "Buy",
            Side::Sell => "Sell",
        }
    }
}

/// A single price level in the order book.
#[derive(Clone, Copy, Debug)]
pub struct PriceLevel {
    pub price: Decimal,
    pub quantity: Decimal,
}

impl PriceLevel {
    pub open spec fn wf(self) -> bool {
        self.price.wf() && self.quantity.wf()
    }

    pub fn new(price: Decimal, quantity: Decimal) -> (l: PriceLevel)
        ensures
            l.price == price,
            l.quantity == quantity,
    {
        PriceLevel { price, quantity }
    }

    /// Notional value at this level: price × quantity (`None` when the product overflows).
    pub fn notional(&self) -> (r: Option<Decimal>)
        requires
            self.wf(),
        ensures
            opt_view(r) == decimal_checked_mul(self.price@, self.quantity@),
            r matches Some(d) ==> d.wf(),
    {
        checked_mul(self.price, self.quantity)
    }
}

/// Every level of a sequence has well-formed price and quantity.
pub open spec fn levels_wf(levels: Seq<PriceLevel>) -> bool {
    forall|i: int| 0 <= i < levels.len() ==> (#[trigger] levels[i]).wf()
}

/// A parsed L2 order book snapshot.
#[derive(Clone, Debug)]
pub struct OrderBookSnapshot {
    pub symbol: String,
    pub timestamp_ms: i64,
    /// Bids, best (highest) first.
    pub bids: Vec<PriceLevel>,
    /// Asks, best (lowest) first.
    pub asks: Vec<PriceLevel>,
}

/// The constant 2.
pub open spec fn two() -> (int, nat) {
    (2int, 0nat)
}

/// `(bid + ask) / 2` through `rust_decimal`.
pub open spec fn spec_mid(bid: (int, nat), ask: (int, nat)) -> Option<(int, nat)> {
    match decimal_checked_add(bid, ask) {
        Some(sum) => decimal_checked_div(sum, two()),
        None => None,
    }
}

/// The smaller of two decimals as `rust_decimal::Decimal::min` picks it
/// (`a` unless `b` is strictly smaller).
pub open spec fn dmin(a: (int, nat), b: (int, nat)) -> (int, nat) {
    if value_of(b) < value_of(a) {
        b
    } else {
        a
    }
}

/// The larger of two decimals as `rust_decimal::Decimal::max` picks it
/// (`b` when `a` is strictly smaller, else `a`).
pub open spec fn dmax(a: (int, nat), b: (int, nat)) -> (int, nat) {
    if value_of(a) < value_of(b) {
        b
    } else {
        a
    }
}

/// Sum of the quantities of the first `n` levels, or `None` when a partial sum overflows.
pub open spec fn spec_qty_sum(levels: Seq<PriceLevel>, n: int) -> Option<(int, nat)>
    decreases n,
{
    if n <= 0 {
        Some((0int, 0nat))
    } else {
        match spec_qty_sum(levels, n - 1) {
            Some(s) => decimal_checked_add(s, levels[n - 1].quantity@),
            None => None,
        }
    }
}

/// Sum of `price × quantity` over the first `n` levels (when `weighted`, sum of
/// `price × (price × quantity)` instead); `None` when a number overflows.
pub open spec fn spec_notional_sum(levels: Seq<PriceLevel>, n: int, weighted: bool) -> Option<(int, nat)>
    decreases n,
{
    if n <= 0 {
        Some((0int, 0nat))
    } else {
        match spec_notional_sum(levels, n - 1, weighted) {
            None => None,
            Some(s) => match decimal_checked_mul(levels[n - 1].price@, levels[n - 1].quantity@) {
                None => None,
                Some(notional) => if weighted {
                    match decimal_checked_mul(levels[n - 1].price@, notional) {
                        None => None,
                        Some(w) => decimal_checked_add(s, w),
                    }
                } else {
                    decimal_checked_add(s, notional)
                },
            },
        }
    }
}

/// The running state of a market order walking the book.
pub struct WalkState {
    pub remaining: (int, nat),
    pub cost: (int, nat),
    pub filled: (int, nat),
    pub worst: (int, nat),
    pub consumed: nat,
}

/// The walk before any level: nothing filled; the worst price starts at zero for a
/// buy (it only grows) and at the largest decimal for a sell (it only shrinks).
pub open spec fn walk_init(side: Side, qty: (int, nat)) -> WalkState {
    WalkState {
        remaining: qty,
        cost: (0int, 0nat),
        filled: (0int, 0nat),
        worst: if side == Side::Buy { (0int, 0nat) } else { (max_mantissa(), 0nat) },
        consumed: 0,
    }
}

/// One level of the walk: while something remains, take `min(remaining, level qty)`
/// at the level price.
pub open spec fn walk_step(side: Side, st: WalkState, level: PriceLevel) -> Option<WalkState> {
    if value_of(st.remaining) <= 0 {
        Some(st)
    } else {
        let fill = dmin(st.remaining, level.quantity@);
        match decimal_checked_mul(fill, level.price@) {
            None => None,
            Some(c) => match decimal_checked_add(st.cost, c) {
                None => None,
                Some(cost) => match decimal_checked_add(st.filled, fill) {
                    None => None,
                    Some(filled) => match decimal_checked_sub(st.remaining, fill) {
                        None => None,
                        Some(remaining) => Some(
                            WalkState {
                                remaining,
                                cost,
                                filled,
                                worst: if side == Side::Buy {
                                    dmax(st.worst, level.price@)
                                } else {
                                    dmin(st.worst, level.price@)
                                },
                                consumed: st.consumed + 1,
                            },
                        ),
                    },
                },
            },
        }
    }
}

/// The walk over the first `n` levels.
pub open spec fn walk(side: Side, levels: Seq<PriceLevel>, qty: (int, nat), n: int) -> Option<
    WalkState,
>
    decreases n,
{
    if n <= 0 {
        Some(walk_init(side, qty))
    } else {
        match walk(side, levels, qty, n - 1) {
            Some(st) => walk_step(side, st, levels[n - 1]),
            None => None,
        }
    }
}

/// Estimated slippage for a market order of a given size.
#[derive(Clone, Copy, Debug)]
pub struct SlippageEstimate {
    /// Buy eats asks, sell eats bids.
    pub side: Side,
    pub order_qty: Decimal,
    /// Quantity the visible book can fill.
    pub filled_qty: Decimal,
    /// What the book cannot fill (never negative).
    pub unfilled_qty: Decimal,
    /// Volume-weighted average fill price.
    pub vwap: Decimal,
    /// Furthest fill price from the touch.
    pub worst_price: Decimal,
    /// Price at the top of the book on the side eaten.
    pub best_price: Decimal,
    pub mid_price: Decimal,
    /// Adverse price difference: `vwap - mid` for a buy, `mid - vwap` for a sell.
    pub slippage: Decimal,
    /// `slippage / mid` (zero when the mid is zero).
    pub slippage_ratio: Decimal,
    pub levels_consumed: usize,
    /// Cost (buy) or proceeds (sell) of the filled part.
    pub total_notional: Decimal,
    /// `filled / order qty`.
    pub fill_ratio: Decimal,
}

/// The numbers of a [`SlippageEstimate`], as (mantissa, scale) pairs.
pub struct SlippageView {
    pub filled: (int, nat),
    pub unfilled: (int, nat),
    pub vwap: (int, nat),
    pub worst: (int, nat),
    pub best: (int, nat),
    pub mid: (int, nat),
    pub slippage: (int, nat),
    pub slippage_ratio: (int, nat),
    pub levels_consumed: nat,
    pub notional: (int, nat),
    pub fill_ratio: (int, nat),
}

impl SlippageEstimate {
    pub open spec fn numbers(&self) -> SlippageView {
        SlippageView {
            filled: self.filled_qty@,
            unfilled: self.unfilled_qty@,
            vwap: self.vwap@,
            worst: self.worst_price@,
            best: self.best_price@,
            mid: self.mid_price@,
            slippage: self.slippage@,
            slippage_ratio: self.slippage_ratio@,
            levels_consumed: self.levels_consumed as nat,
            notional: self.total_notional@,
            fill_ratio: self.fill_ratio@,
        }
    }
}

/// The slippage estimate once the walk is done: `None` when nothing fills or a
/// division or subtraction overflows.
pub open spec fn finish_estimate(
    side: Side,
    qty: (int, nat),
    mid: (int, nat),
    best: (int, nat),
    st: WalkState,
) -> Option<SlippageView> {
    if value_of(st.filled) == 0 {
        None
    } else {
        match decimal_checked_div(st.cost, st.filled) {
            None => None,
            Some(vwap) => match (if side == Side::Buy {
                decimal_checked_sub(vwap, mid)
            } else {
                decimal_checked_sub(mid, vwap)
            }) {
                None => None,
                Some(slippage) => match spec_ratio_or_zero(slippage, mid) {
                    None => None,
                    Some(slippage_ratio) => match decimal_checked_div(st.filled, qty) {
                        None => None,
                        Some(fill_ratio) => Some(
                            SlippageView {
                                filled: st.filled,
                                unfilled: dmax(st.remaining, (0int, 0nat)),
                                vwap,
                                worst: st.worst,
                                best,
                                mid,
                                slippage,
                                slippage_ratio,
                                levels_consumed: st.consumed,
                                notional: st.cost,
                                fill_ratio,
                            },
                        ),
                    },
                },
            },
        }
    }
}

/// `a / b` through `rust_decimal`, zero when `b` is zero.
pub open spec fn spec_ratio_or_zero(a: (int, nat), b: (int, nat)) -> Option<(int, nat)> {
    if value_of(b) == 0 {
        Some((0int, 0nat))
    } else {
        decimal_checked_div(a, b)
    }
}

/// `a / b`, or zero when `b` is zero; `None` when the quotient overflows.
pub fn ratio_or_zero(a: Decimal, b: Decimal) -> (r: Option<Decimal>)
    requires
        a.wf(),
        b.wf(),
    ensures
        opt_view(r) == spec_ratio_or_zero(a@, b@),
        r matches Some(d) ==> d.wf(),
{
    if same_value(b, Decimal::zero()) {
        Some(Decimal::zero())
    } else {
        checked_div(a, b)
    }
}

proof fn lemma_notional_sum_none_stays(levels: Seq<PriceLevel>, i: int, n: int, weighted: bool)
    requires
        0 <= i <= n,
        spec_notional_sum(levels, i, weighted) is None,
    ensures
        spec_notional_sum(levels, n, weighted) is None,
    decreases n - i,
{
    if i < n {
        lemma_notional_sum_none_stays(levels, i + 1, n, weighted);
    }
}

/// Sum of notionals (or price-weighted notionals) of `levels[0..n]`.
fn notional_sum(levels: &Vec<PriceLevel>, n: usize, weighted: bool) -> (r: Option<Decimal>)
    requires
        levels_wf(levels@),
        n <= levels@.len(),
    ensures
        opt_view(r) == spec_notional_sum(levels@, n as int, weighted),
        r matches Some(d) ==> d.wf(),
{
    let mut total = Decimal::zero();
    let mut i: usize = 0;
    while i < n
        invariant
            levels_wf(levels@),
            n <= levels@.len(),
            i <= n,
            total.wf(),
            spec_notional_sum(levels@, i as int, weighted) == Some(total@),
        decreases n - i,
    {
        let l = levels[i];
        assert(levels@[i as int].wf());
        let term = match checked_mul(l.price, l.quantity) {
            Some(notional) => if weighted {
                checked_mul(l.price, notional)
            } else {
                Some(notional)
            },
            None => None,
        };
        let next = match term {
            Some(t) => checked_add(total, t),
            None => None,
        };
        match next {
            Some(t) => {
                total = t;
            },
            None => {
                proof {
                    lemma_notional_sum_none_stays(levels@, i as int + 1, n as int, weighted);
                }
                return None;
            },
        }
        i = i + 1;
    }
    Some(total)
}

/// The volume-weighted price of one side's first `n` levels, weighted by notional:
/// `Σ price·notional / Σ notional`, or the best price when the notional is zero.
pub open spec fn spec_side_vwap(levels: Seq<PriceLevel>, n: int) -> Option<(int, nat)> {
    match (spec_notional_sum(levels, n, false), spec_notional_sum(levels, n, true)) {
        (Some(total), Some(weighted)) => if value_of(total) == 0 {
            Some(levels[0].price@)
        } else {
            decimal_checked_div(weighted, total)
        },
        _ => None,
    }
}

/// Sum of the quantities of `levels[0..n]`.
fn qty_sum(levels: &Vec<PriceLevel>, n: usize) -> (r: Option<Decimal>)
    requires
        levels_wf(levels@),
        n <= levels@.len(),
    ensures
        opt_view(r) == spec_qty_sum(levels@, n as int),
        r matches Some(d) ==> d.wf(),
{
    let mut total = Decimal::zero();
    let mut i: usize = 0;
    while i < n
        invariant
            levels_wf(levels@),
            n <= levels@.len(),
            i <= n,
            total.wf(),
            spec_qty_sum(levels@, i as int) == Some(total@),
        decreases n - i,
    {
        let q = levels[i].quantity;
        assert(levels@[i as int].wf());
        match checked_add(total, q) {
            Some(t) => {
                total = t;
            },
            None => {
                proof {
                    lemma_qty_sum_none_stays(levels@, i as int + 1, n as int);
                }
                return None;
            },
        }
        i = i + 1;
    }
    Some(total)
}

/// Once a partial sum overflows, every longer one does too.
proof fn lemma_qty_sum_none_stays(levels: Seq<PriceLevel>, i: int, n: int)
    requires
        0 <= i <= n,
        spec_qty_sum(levels, i) is None,
    ensures
        spec_qty_sum(levels, n) is None,
    decreases n - i,
{
    if i < n {
        lemma_qty_sum_none_stays(levels, i + 1, n);
    }
}

/// Once the walk overflows, it stays overflowed.
proof fn lemma_walk_none_stays(side: Side, levels: Seq<PriceLevel>, qty: (int, nat), i: int, n: int)
    requires
        0 <= i <= n,
        walk(side, levels, qty, i) is None,
    ensures
        walk(side, levels, qty, n) is None,
    decreases n - i,
{
    if i < n {
        lemma_walk_none_stays(side, levels, qty, i + 1, n);
    }
}

/// The smaller of two decimals, `a` unless `b` is strictly smaller.
pub fn decimal_min(a: Decimal, b: Decimal) -> (r: Decimal)
    requires
        a.wf(),
        b.wf(),
    ensures
        r@ == dmin(a@, b@),
        r.wf(),
{
    if less_than(b, a) {
        b
    } else {
        a
    }
}

/// The larger of two decimals, `b` when `a` is strictly smaller, else `a`.
pub fn decimal_max(a: Decimal, b: Decimal) -> (r: Decimal)
    requires
        a.wf(),
        b.wf(),
    ensures
        r@ == dmax(a@, b@),
        r.wf(),
{
    if less_than(a, b) {
        b
    } else {
        a
    }
}

impl OrderBookSnapshot {
    /// Every price and quantity is a well-formed decimal.
    pub open spec fn wf(&self) -> bool {
        levels_wf(self.bids@) && levels_wf(self.asks@)
    }

    /// The levels a market order of this side eats: asks for a buy, bids for a sell.
    pub open spec fn levels_for(&self, side: Side) -> Seq<PriceLevel> {
        if side == Side::Buy {
            self.asks@
        } else {
            self.bids@
        }
    }

    pub open spec fn spec_best_bid(&self) -> Option<(int, nat)> {
        if self.bids@.len() > 0 {
            Some(self.bids@[0].price@)
        } else {
            None
        }
    }

    pub open spec fn spec_best_ask(&self) -> Option<(int, nat)> {
        if self.asks@.len() > 0 {
            Some(self.asks@[0].price@)
        } else {
            None
        }
    }

    /// `(best bid + best ask) / 2`, when both sides have a level and nothing overflows.
    pub open spec fn spec_mid_price(&self) -> Option<(int, nat)> {
        match (self.spec_best_bid(), self.spec_best_ask()) {
            (Some(bid), Some(ask)) => spec_mid(bid, ask),
            _ => None,
        }
    }

    /// Best bid price.
    pub fn best_bid(&self) -> (r: Option<Decimal>)
        requires
            self.wf(),
        ensures
            opt_view(r) == self.spec_best_bid(),
            r matches Some(d) ==> d.wf(),
    {
        if self.bids.len() > 0 {
            assert(self.bids@[0].wf());
            Some(self.bids[0].price)
        } else {
            None
        }
    }

    /// Best ask price.
    pub fn best_ask(&self) -> (r: Option<Decimal>)
        requires
            self.wf(),
        ensures
            opt_view(r) == self.spec_best_ask(),
            r matches Some(d) ==> d.wf(),
    {
        if self.asks.len() > 0 {
            assert(self.asks@[0].wf());
            Some(self.asks[0].price)
        } else {
            None
        }
    }

    /// Simple mid price `(best bid + best ask) / 2`; `None` when a side is empty
    /// (or the sum overflows).
    pub fn mid_price(&self) -> (r: Option<Decimal>)
        requires
            self.wf(),
        ensures
            opt_view(r) == self.spec_mid_price(),
            r matches Some(d) ==> d.wf(),
    {
        match (self.best_bid(), self.best_ask()) {
            (Some(bid), Some(ask)) => match checked_add(bid, ask) {
                Some(sum) => checked_div(sum, Decimal::new(2, 0)),
                None => None,
            },
            _ => None,
        }
    }

    /// Bid-ask spread `best ask - best bid`; `None` when a side is empty.
    pub fn spread(&self) -> (r: Option<Decimal>)
        requires
            self.wf(),
        ensures
            opt_view(r) == match (self.spec_best_bid(), self.spec_best_ask()) {
                (Some(bid), Some(ask)) => decimal_checked_sub(ask, bid),
                _ => None,
            },
            r matches Some(d) ==> d.wf(),
    {
        match (self.best_bid(), self.best_ask()) {
            (Some(bid), Some(ask)) => checked_sub(ask, bid),
            _ => None,
        }
    }

    /// The estimate of a market order of `qty` on `side`: `None` when a side of the
    /// book is empty, nothing fills, or an intermediate number overflows.
    pub open spec fn spec_estimate(&self, side: Side, qty: (int, nat)) -> Option<SlippageView> {
        match self.spec_mid_price() {
            None => None,
            Some(mid) => match walk(
                side,
                self.levels_for(side),
                qty,
                self.levels_for(side).len() as int,
            ) {
                None => None,
                Some(st) => finish_estimate(
                    side,
                    qty,
                    mid,
                    self.levels_for(side)[0].price@,
                    st,
                ),
            },
        }
    }

    /// Walks the book on the side a market order of `qty` eats, level by level,
    /// taking `min(remaining, level qty)` at each price until nothing remains.
    pub fn estimate_slippage(&self, side: Side, qty: Decimal) -> (r: Option<SlippageEstimate>)
        requires
            self.wf(),
            qty.wf(),
        ensures
            r is Some <==> self.spec_estimate(side, qty@) is Some,
            r matches Some(e) ==> {
                &&& e.numbers() == self.spec_estimate(side, qty@).unwrap()
                &&& e.side == side
                &&& e.order_qty == qty
            },
    {
        let mid = match self.mid_price() {
            Some(m) => m,
            None => return None,
        };
        let levels = match side {
            Side::Buy => &self.asks,
            Side::Sell => &self.bids,
        };
        assert(levels@ == self.levels_for(side));
        let ghost lv = levels@;
        let mut remaining = qty;
        let mut cost = Decimal::zero();
        let mut filled = Decimal::zero();
        let mut worst = match side {
            Side::Buy => Decimal::zero(),
            Side::Sell => Decimal { mantissa: 79228162514264337593543950335i128, scale: 0 },
        };
        let mut consumed: usize = 0;
        let mut i: usize = 0;
        while i < levels.len()
            invariant
                levels@ == lv,
                lv == self.levels_for(side),
                self.spec_mid_price() == Some(mid@),
                levels_wf(lv),
                i <= lv.len(),
                remaining.wf(),
                cost.wf(),
                filled.wf(),
                worst.wf(),
                consumed <= i,
                walk(side, lv, qty@, i as int) == Some(
                    WalkState {
                        remaining: remaining@,
                        cost: cost@,
                        filled: filled@,
                        worst: worst@,
                        consumed: consumed as nat,
                    },
                ),
            decreases lv.len() - i,
        {
            let level = levels[i];
            assert(lv[i as int].wf());
            if less_than(Decimal::zero(), remaining) {
                let fill = decimal_min(remaining, level.quantity);
                let step = match checked_mul(fill, level.price) {
                    Some(c) => match checked_add(cost, c) {
                        Some(new_cost) => match checked_add(filled, fill) {
                            Some(new_filled) => match checked_sub(remaining, fill) {
                                Some(new_remaining) => Some((new_cost, new_filled, new_remaining)),
                                None => None,
                            },
                            None => None,
                        },
                        None => None,
                    },
                    None => None,
                };
                match step {
                    Some((c, f, rem)) => {
                        cost = c;
                        filled = f;
                        remaining = rem;
                        worst = match side {
                            Side::Buy => decimal_max(worst, level.price),
                            Side::Sell => decimal_min(worst, level.price),
                        };
                        consumed = consumed + 1;
                    },
                    None => {
                        proof {
                            let st = WalkState {
                                remaining: remaining@,
                                cost: cost@,
                                filled: filled@,
                                worst: worst@,
                                consumed: consumed as nat,
                            };
                            assert(level == lv[i as int]);
                            assert(walk_step(side, st, lv[i as int]) is None);
                            assert(walk(side, lv, qty@, i as int + 1) is None);
                            lemma_walk_none_stays(side, lv, qty@, i as int + 1, lv.len() as int);
                        }
                        return None;
                    },
                }
            }
            i = i + 1;
        }
        if same_value(filled, Decimal::zero()) {
            return None;
        }
        let vwap = match checked_div(cost, filled) {
            Some(v) => v,
            None => return None,
        };
        let slip = match side {
            Side::Buy => checked_sub(vwap, mid),
            Side::Sell => checked_sub(mid, vwap),
        };
        let slippage = match slip {
            Some(s) => s,
            None => return None,
        };
        let slippage_ratio = match ratio_or_zero(slippage, mid) {
            Some(s) => s,
            None => return None,
        };
        let fill_ratio = match checked_div(filled, qty) {
            Some(f) => f,
            None => return None,
        };
        assert(lv.len() > 0);
        assert(lv[0].wf());
        let best = levels[0].price;
        Some(
            SlippageEstimate {
                side,
                order_qty: qty,
                filled_qty: filled,
                unfilled_qty: decimal_max(remaining, Decimal::zero()),
                vwap,
                worst_price: worst,
                best_price: best,
                mid_price: mid,
                slippage,
                slippage_ratio,
                levels_consumed: consumed,
                total_notional: cost,
                fill_ratio,
            },
        )
    }

    /// Expected fill of a market BUY: walks up the asks.
    pub fn estimate_buy_slippage(&self, qty: Decimal) -> (r: Option<SlippageEstimate>)
        requires
            self.wf(),
            qty.wf(),
        ensures
            r is Some <==> self.spec_estimate(Side::Buy, qty@) is Some,
            r matches Some(e) ==> {
                &&& e.numbers() == self.spec_estimate(Side::Buy, qty@).unwrap()
                &&& e.side == Side::Buy
                &&& e.order_qty == qty
            },
    {
        self.estimate_slippage(Side::Buy, qty)
    }

    /// Expected fill of a market SELL: walks down the bids.
    pub fn estimate_sell_slippage(&self, qty: Decimal) -> (r: Option<SlippageEstimate>)
        requires
            self.wf(),
            qty.wf(),
        ensures
            r is Some <==> self.spec_estimate(Side::Sell, qty@) is Some,
            r matches Some(e) ==> {
                &&& e.numbers() == self.spec_estimate(Side::Sell, qty@).unwrap()
                &&& e.side == Side::Sell
                &&& e.order_qty == qty
            },
    {
        self.estimate_slippage(Side::Sell, qty)
    }

    /// Depth-weighted mid over the first `depth` levels of each side:
    /// `(bid vwap × ask notional + ask vwap × bid notional) / total notional`, falling
    /// back to the simple mid when a side is empty or the total notional is zero.
    pub open spec fn spec_depth_weighted_mid(&self, depth: usize) -> Option<(int, nat)> {
        let nb = if depth < self.bids@.len() { depth as int } else { self.bids@.len() as int };
        let na = if depth < self.asks@.len() { depth as int } else { self.asks@.len() as int };
        if nb == 0 || na == 0 {
            self.spec_mid_price()
        } else {
            match (spec_notional_sum(self.bids@, nb, false), spec_notional_sum(self.asks@, na, false)) {
                (Some(bid_notional), Some(ask_notional)) => match decimal_checked_add(
                    bid_notional,
                    ask_notional,
                ) {
                    None => None,
                    Some(total) => if value_of(total) == 0 {
                        self.spec_mid_price()
                    } else {
                        match (spec_side_vwap(self.bids@, nb), spec_side_vwap(self.asks@, na)) {
                            (Some(bid_vwap), Some(ask_vwap)) => match (
                                decimal_checked_mul(bid_vwap, ask_notional),
                                decimal_checked_mul(ask_vwap, bid_notional),
                            ) {
                                (Some(x), Some(y)) => match decimal_checked_add(x, y) {
                                    None => None,
                                    Some(num) => decimal_checked_div(num, total),
                                },
                                _ => None,
                            },
                            _ => None,
                        }
                    },
                },
                _ => None,
            }
        }
    }

    fn side_vwap(levels: &Vec<PriceLevel>, n: usize) -> (r: Option<Decimal>)
        requires
            levels_wf(levels@),
            0 < n <= levels@.len(),
        ensures
            opt_view(r) == spec_side_vwap(levels@, n as int),
            r matches Some(d) ==> d.wf(),
    {
        let total = notional_sum(levels, n, false);
        let weighted = notional_sum(levels, n, true);
        match (total, weighted) {
            (Some(t), Some(w)) => {
                if same_value(t, Decimal::zero()) {
                    assert(levels@[0].wf());
                    Some(levels[0].price)
                } else {
                    checked_div(w, t)
                }
            },
            _ => None,
        }
    }

    /// Depth-weighted mid price: the volume-weighted prices of both sides, each weighted
    /// by the other side's notional (the scarcer side weighs more).
    pub fn depth_weighted_mid(&self, depth_levels: usize) -> (r: Option<Decimal>)
        requires
            self.wf(),
        ensures
            opt_view(r) == self.spec_depth_weighted_mid(depth_levels),
            r matches Some(d) ==> d.wf(),
    {
        let nb = if depth_levels < self.bids.len() { depth_levels } else { self.bids.len() };
        let na = if depth_levels < self.asks.len() { depth_levels } else { self.asks.len() };
        if nb == 0 || na == 0 {
            return self.mid_price();
        }
        let bid_notional = match notional_sum(&self.bids, nb, false) {
            Some(v) => v,
            None => return None,
        };
        let ask_notional = match notional_sum(&self.asks, na, false) {
            Some(v) => v,
            None => return None,
        };
        let total = match checked_add(bid_notional, ask_notional) {
            Some(v) => v,
            None => return None,
        };
        if same_value(total, Decimal::zero()) {
            return self.mid_price();
        }
        let bid_vwap = match Self::side_vwap(&self.bids, nb) {
            Some(v) => v,
            None => return None,
        };
        let ask_vwap = match Self::side_vwap(&self.asks, na) {
            Some(v) => v,
            None => return None,
        };
        let x = checked_mul(bid_vwap, ask_notional);
        let y = checked_mul(ask_vwap, bid_notional);
        match (x, y) {
            (Some(x), Some(y)) => match checked_add(x, y) {
                Some(num) => checked_div(num, total),
                None => None,
            },
            _ => None,
        }
    }

    /// Total bid quantity over the first `levels` levels.
    pub fn bid_liquidity(&self, levels: usize) -> (r: Option<Decimal>)
        requires
            self.wf(),
        ensures
            opt_view(r) == spec_qty_sum(
                self.bids@,
                if levels < self.bids@.len() { levels as int } else { self.bids@.len() as int },
            ),
            r matches Some(d) ==> d.wf(),
    {
        let n = if levels < self.bids.len() { levels } else { self.bids.len() };
        qty_sum(&self.bids, n)
    }

    /// Total ask quantity over the first `levels` levels.
    pub fn ask_liquidity(&self, levels: usize) -> (r: Option<Decimal>)
        requires
            self.wf(),
        ensures
            opt_view(r) == spec_qty_sum(
                self.asks@,
                if levels < self.asks@.len() { levels as int } else { self.asks@.len() as int },
            ),
            r matches Some(d) ==> d.wf(),
    {
        let n = if levels < self.asks.len() { levels } else { self.asks.len() };
        qty_sum(&self.asks, n)
    }
}


/// Facts of the walk over the first `n` levels: it consumes at most `n` levels; an
/// order of no positive size consumes none and leaves the walk where it started; an
/// order of positive size consumes the first level, and its worst price is never
/// better than that level's price (not below it for a buy, not above it for a sell).
pub proof fn lemma_walk_bounds(side: Side, levels: Seq<PriceLevel>, qty: (int, nat), n: int)
    requires
        0 <= n <= levels.len(),
    ensures
        walk(side, levels, qty, n) matches Some(st) ==> {
            &&& st.consumed <= n
            &&& value_of(qty) <= 0 ==> st == walk_init(side, qty)
            &&& (n >= 1 && value_of(qty) > 0) ==> {
                &&& st.consumed >= 1
                &&& side == Side::Buy ==> value_of(st.worst) >= value_of(levels[0].price@)
                &&& side == Side::Sell ==> value_of(st.worst) <= value_of(levels[0].price@)
            }
        },
    decreases n,
{
    if n > 0 {
        lemma_walk_bounds(side, levels, qty, n - 1);
    }
}

/// Whenever the book gives an estimate, the order ate at least one level and no more
/// levels than the side holds, and the worst fill price is never better than the
/// best price of that side: at or above the best ask for a buy, at or below the best
/// bid for a sell.
pub proof fn lemma_estimate_worst_vs_best(book: OrderBookSnapshot, side: Side, qty: (int, nat))
    requires
        book.spec_estimate(side, qty) is Some,
    ensures
        ({
            let e = book.spec_estimate(side, qty).unwrap();
            &&& 1 <= e.levels_consumed <= book.levels_for(side).len()
            &&& side == Side::Buy ==> value_of(e.worst) >= value_of(e.best)
            &&& side == Side::Sell ==> value_of(e.worst) <= value_of(e.best)
        }),
{
    let levels = book.levels_for(side);
    lemma_walk_bounds(side, levels, qty, levels.len() as int);
}


/// What an estimate's numbers are, wherever `rust_decimal` computes them exactly: the
/// price paid is notional over filled quantity; the slippage is how much worse than the
/// mid that price is (above it for a buy, below it for a sell); the slippage ratio is
/// that slippage relative to the mid (slippage ratio × mid = slippage); the fill ratio
/// is the filled share of the order.
pub proof fn lemma_estimate_numbers(book: OrderBookSnapshot, side: Side, qty: (int, nat))
    requires
        book.spec_estimate(side, qty) is Some,
    ensures
        ({
            let e = book.spec_estimate(side, qty).unwrap();
            &&& Some(e.mid) == book.spec_mid_price()
            &&& div_is_exact(e.notional, e.filled) ==> value_of(e.vwap) * value_of(e.filled)
                == value_of(e.notional) * pow10(28)
            &&& side == Side::Buy && sub_is_exact(e.vwap, e.mid) ==> value_of(e.slippage)
                == value_of(e.vwap) - value_of(e.mid)
            &&& side == Side::Sell && sub_is_exact(e.mid, e.vwap) ==> value_of(e.slippage)
                == value_of(e.mid) - value_of(e.vwap)
            &&& value_of(e.mid) != 0 && div_is_exact(e.slippage, e.mid) ==> value_of(e.slippage_ratio)
                * value_of(e.mid) == value_of(e.slippage) * pow10(28)
            &&& value_of(e.mid) == 0 ==> value_of(e.slippage_ratio) == 0
            &&& div_is_exact(e.filled, qty) ==> value_of(e.fill_ratio) * value_of(qty) == value_of(
                e.filled,
            ) * pow10(28)
        }),
{
}

/// How many of `len` levels a depth of `depth` takes.
pub open spec fn levels_taken(len: nat, depth: usize) -> int {
    if depth < len { depth as int } else { len as int }
}

/// The depth-weighted mid weighs each side's volume-weighted price by the *other*
/// side's notional, so the scarcer side pulls harder: with bid notional `B`, ask
/// notional `A`, bid price `pb` and ask price `pa` (over the first `depth` levels),
/// wherever `rust_decimal` computes exactly, the result `r` satisfies
/// `r × (A + B) = pb × A + pa × B`; so when the asks are the scarcer side and the ask
/// price is the higher, the result lies above the plain average of the two prices.
pub proof fn lemma_depth_weighted_mid_weights(book: OrderBookSnapshot, depth: usize)
    requires
        levels_taken(book.bids@.len(), depth) > 0,
        levels_taken(book.asks@.len(), depth) > 0,
        spec_notional_sum(book.bids@, levels_taken(book.bids@.len(), depth), false) is Some,
        spec_notional_sum(book.asks@, levels_taken(book.asks@.len(), depth), false) is Some,
        spec_side_vwap(book.bids@, levels_taken(book.bids@.len(), depth)) is Some,
        spec_side_vwap(book.asks@, levels_taken(book.asks@.len(), depth)) is Some,
        ({
            let b = spec_notional_sum(book.bids@, levels_taken(book.bids@.len(), depth), false).unwrap();
            let a = spec_notional_sum(book.asks@, levels_taken(book.asks@.len(), depth), false).unwrap();
            let pb = spec_side_vwap(book.bids@, levels_taken(book.bids@.len(), depth)).unwrap();
            let pa = spec_side_vwap(book.asks@, levels_taken(book.asks@.len(), depth)).unwrap();
            &&& value_of(a) + value_of(b) != 0
            &&& add_is_exact(b, a)
            &&& mul_is_exact(pb, a)
            &&& mul_is_exact(pa, b)
            &&& add_is_exact(decimal_checked_mul(pb, a).unwrap(), decimal_checked_mul(pa, b).unwrap())
            &&& div_is_exact(
                decimal_checked_add(decimal_checked_mul(pb, a).unwrap(), decimal_checked_mul(pa, b).unwrap()).unwrap(),
                decimal_checked_add(b, a).unwrap(),
            )
        }),
    ensures
        ({
            let b = spec_notional_sum(book.bids@, levels_taken(book.bids@.len(), depth), false).unwrap();
            let a = spec_notional_sum(book.asks@, levels_taken(book.asks@.len(), depth), false).unwrap();
            let pb = spec_side_vwap(book.bids@, levels_taken(book.bids@.len(), depth)).unwrap();
            let pa = spec_side_vwap(book.asks@, levels_taken(book.asks@.len(), depth)).unwrap();
            let r = book.spec_depth_weighted_mid(depth);
            &&& r is Some
            &&& value_of(r.unwrap()) * (value_of(a) + value_of(b)) == value_of(pb) * value_of(a)
                + value_of(pa) * value_of(b)
            &&& 0 < value_of(a) < value_of(b) && value_of(pb) < value_of(pa) ==> 2 * value_of(r.unwrap())
                > value_of(pb) + value_of(pa)
        }),
{
    let nb = levels_taken(book.bids@.len(), depth);
    let na = levels_taken(book.asks@.len(), depth);
    let b = spec_notional_sum(book.bids@, nb, false).unwrap();
    let a = spec_notional_sum(book.asks@, na, false).unwrap();
    let pb = spec_side_vwap(book.bids@, nb).unwrap();
    let pa = spec_side_vwap(book.asks@, na).unwrap();
    let x = decimal_checked_mul(pb, a).unwrap();
    let y = decimal_checked_mul(pa, b).unwrap();
    let num = decimal_checked_add(x, y).unwrap();
    let total = decimal_checked_add(b, a).unwrap();
    let r = decimal_checked_div(num, total).unwrap();
    assert(book.spec_depth_weighted_mid(depth) == Some(r));
    let p = pow10(28);
    let (vr, va, vb, vpb, vpa, vx, vy) = (value_of(r), value_of(a), value_of(b), value_of(pb), value_of(pa), value_of(x), value_of(y));
    assert(vr * (va + vb) == (vx + vy) * p);
    assert((vx + vy) * p == vx * p + vy * p) by (nonlinear_arith);
    assert(vr * (va + vb) == vpb * va + vpa * vb);
    if 0 < va < vb && vpb < vpa {
        assert(2 * vr * (va + vb) - (vpb + vpa) * (va + vb) == (vpa - vpb) * (vb - va)) by (nonlinear_arith)
            requires vr * (va + vb) == vpb * va + vpa * vb;
        assert((vpa - vpb) * (vb - va) > 0) by (nonlinear_arith)
            requires vpb < vpa, va < vb;
        assert(2 * vr > vpb + vpa) by (nonlinear_arith)
            requires 2 * vr * (va + vb) - (vpb + vpa) * (va + vb) > 0, va + vb > 0;
    }
}

/// The running (filled, cost, done) of buying or selling `qty` through the first `n`
/// levels: at each level take `min(qty - filled, level qty)` at the level price, and
/// stop once `qty` is filled; `None` when a number overflows.
pub open spec fn take_walk(levels: Seq<PriceLevel>, qty: (int, nat), n: int) -> Option<
    ((int, nat), (int, nat), bool),
>
    decreases n,
{
    if n <= 0 {
        Some(((0int, 0nat), (0int, 0nat), false))
    } else {
        match take_walk(levels, qty, n - 1) {
            None => None,
            Some((filled, cost, done)) => if done {
                Some((filled, cost, done))
            } else {
                let level = levels[n - 1];
                match decimal_checked_sub(qty, filled) {
                    None => None,
                    Some(rest) => {
                        let take = dmin(rest, level.quantity@);
                        match decimal_checked_add(filled, take) {
                            None => None,
                            Some(f2) => match decimal_checked_mul(take, level.price@) {
                                None => None,
                                Some(c) => match decimal_checked_add(cost, c) {
                                    None => None,
                                    Some(c2) => Some((f2, c2, value_of(qty) <= value_of(f2))),
                                },
                            },
                        }
                    },
                }
            },
        }
    }
}

/// The volume-weighted price of taking `qty` from the levels: `Some(None)` when nothing
/// fills, `None` when a number overflows.
pub open spec fn spec_vwap_for_qty(levels: Seq<PriceLevel>, qty: (int, nat)) -> Option<Option<(int, nat)>> {
    match take_walk(levels, qty, levels.len() as int) {
        None => None,
        Some((filled, cost, _)) => if value_of(filled) == 0 {
            Some(None)
        } else {
            match decimal_checked_div(cost, filled) {
                None => None,
                Some(v) => Some(Some(v)),
            }
        },
    }
}

/// Once the take walk overflows, it stays overflowed.
proof fn lemma_take_walk_none_stays(levels: Seq<PriceLevel>, qty: (int, nat), i: int, n: int)
    requires
        0 <= i <= n,
        take_walk(levels, qty, i) is None,
    ensures
        take_walk(levels, qty, n) is None,
    decreases n - i,
{
    if i < n {
        lemma_take_walk_none_stays(levels, qty, i + 1, n);
    }
}

/// Once the take walk is done, later levels change nothing.
proof fn lemma_take_walk_done_stays(levels: Seq<PriceLevel>, qty: (int, nat), i: int, n: int)
    requires
        0 <= i <= n,
        take_walk(levels, qty, i) matches Some((_, _, done)) && done,
    ensures
        take_walk(levels, qty, n) == take_walk(levels, qty, i),
    decreases n - i,
{
    if i < n {
        lemma_take_walk_done_stays(levels, qty, i, n - 1);
    }
}

/// The volume-weighted price of taking `qty` from `levels` in order.
pub fn vwap_for_qty(levels: &Vec<PriceLevel>, qty: Decimal) -> (r: Option<Option<Decimal>>)
    requires
        levels_wf(levels@),
        qty.wf(),
    ensures
        match r {
            None => spec_vwap_for_qty(levels@, qty@) is None,
            Some(None) => spec_vwap_for_qty(levels@, qty@) == Some(Option::<(int, nat)>::None),
            Some(Some(v)) => spec_vwap_for_qty(levels@, qty@) == Some(Some(v@)) && v.wf(),
        },
{
    let mut filled = Decimal::zero();
    let mut cost = Decimal::zero();
    let mut i: usize = 0;
    while i < levels.len()
        invariant_except_break
            take_walk(levels@, qty@, i as int) == Some((filled@, cost@, false)),
        invariant
            levels_wf(levels@),
            qty.wf(),
            i <= levels@.len(),
            filled.wf() && cost.wf(),
        ensures
            take_walk(levels@, qty@, levels@.len() as int) matches Some((f, c, _)) && f == filled@ && c
                == cost@,
        decreases levels@.len() - i,
    {
        let level = levels[i];
        assert(levels@[i as int].wf());
        let rest = match checked_sub(qty, filled) {
            Some(v) => v,
            None => {
                proof {
                    lemma_take_walk_none_stays(levels@, qty@, i as int + 1, levels@.len() as int);
                }
                return None;
            },
        };
        let take = decimal_min(rest, level.quantity);
        let f2 = match checked_add(filled, take) {
            Some(v) => v,
            None => {
                proof {
                    lemma_take_walk_none_stays(levels@, qty@, i as int + 1, levels@.len() as int);
                }
                return None;
            },
        };
        let c = match checked_mul(take, level.price) {
            Some(v) => v,
            None => {
                proof {
                    lemma_take_walk_none_stays(levels@, qty@, i as int + 1, levels@.len() as int);
                }
                return None;
            },
        };
        let c2 = match checked_add(cost, c) {
            Some(v) => v,
            None => {
                proof {
                    lemma_take_walk_none_stays(levels@, qty@, i as int + 1, levels@.len() as int);
                }
                return None;
            },
        };
        filled = f2;
        cost = c2;
        i = i + 1;
        if !less_than(filled, qty) {
            proof {
                lemma_take_walk_done_stays(levels@, qty@, i as int, levels@.len() as int);
            }
            break;
        }
    }
    if same_value(filled, Decimal::zero()) {
        return Some(None);
    }
    match checked_div(cost, filled) {
        Some(v) => Some(Some(v)),
        None => None,
    }
}

} // verus!
