//! Building an order book from an exchange depth message: each `[price, qty]` entry
//! whose texts parse as decimals becomes a level; bids are then ordered best (highest)
//! first and asks best (lowest) first, entries of equal price keeping their order.
use vstd::prelude::*;
use crate::decimal::{decimal_parse, less_than, parse_decimal, value_of};
use crate::orderbook::{levels_wf, OrderBookSnapshot, PriceLevel};
use crate::text::owned;

verus! {

broadcast use vstd::seq_lib::group_to_multiset_ensures;

/// One depth entry: its price and quantity texts (`None` where the entry lacks the
/// field or it is not a text).
#[derive(Clone, Debug)]
pub struct RawLevel {
    pub price: Option<String>,
    pub qty: Option<String>,
}

/// A depth message as plain values.
#[derive(Clone, Debug)]
pub struct RawDepth {
    /// The `bids` entries; `None` when the message has no `bids` field (a field that
    /// is not a list counts as an empty list).
    pub bids: Option<Vec<RawLevel>>,
    /// The `asks` entries, likewise.
    pub asks: Option<Vec<RawLevel>>,
    /// The event time `E`, when present as an integer.
    pub event_time: Option<i64>,
}

/// The text of an optional string.
pub open spec fn opt_text(s: Option<String>) -> Option<Seq<char>> {
    match s {
        Some(t) => Some(t@),
        None => None,
    }
}

/// The (price, quantity) an entry stands for, when both texts parse as decimals.
pub open spec fn spec_entry_level(e: RawLevel) -> Option<((int, nat), (int, nat))> {
    match (opt_text(e.price), opt_text(e.qty)) {
        (Some(p), Some(q)) => match (decimal_parse(p), decimal_parse(q)) {
            (Some(pv), Some(qv)) => Some((pv, qv)),
            _ => None,
        },
        _ => None,
    }
}

/// The levels of a list of entries, in order, skipping entries that do not parse.
pub open spec fn spec_parse_levels(raw: Seq<RawLevel>) -> Seq<((int, nat), (int, nat))>
    decreases raw.len(),
{
    if raw.len() == 0 {
        Seq::empty()
    } else {
        let rest = spec_parse_levels(raw.drop_last());
        match spec_entry_level(raw.last()) {
            Some(l) => rest.push(l),
            None => rest,
        }
    }
}

/// The (price, quantity) of each level.
pub open spec fn level_views(v: Seq<PriceLevel>) -> Seq<((int, nat), (int, nat))> {
    v.map_values(|l: PriceLevel| (l.price@, l.quantity@))
}

/// In the wanted order, `a` belongs strictly after `b`: a lower price for bids
/// (`descending`), a higher price for asks.
pub open spec fn comes_after(a: ((int, nat), (int, nat)), b: ((int, nat), (int, nat)), descending: bool) -> bool {
    if descending {
        value_of(a.0) < value_of(b.0)
    } else {
        value_of(b.0) < value_of(a.0)
    }
}

/// Inserts `x` into an ordered list after every level it does not belong before.
pub open spec fn insert_level(
    t: Seq<((int, nat), (int, nat))>,
    x: ((int, nat), (int, nat)),
    descending: bool,
) -> Seq<((int, nat), (int, nat))>
    decreases t.len(),
{
    if t.len() > 0 && comes_after(t.last(), x, descending) {
        insert_level(t.drop_last(), x, descending).push(t.last())
    } else {
        t.push(x)
    }
}

/// The stable sort of levels by price: each level inserted in turn.
pub open spec fn sort_levels(s: Seq<((int, nat), (int, nat))>, descending: bool) -> Seq<
    ((int, nat), (int, nat)),
>
    decreases s.len(),
{
    if s.len() == 0 {
        s
    } else {
        insert_level(sort_levels(s.drop_last(), descending), s.last(), descending)
    }
}

/// No level comes after a later one.
pub open spec fn levels_ordered(s: Seq<((int, nat), (int, nat))>, descending: bool) -> bool {
    forall|i: int, j: int| 0 <= i < j < s.len() ==> !comes_after(#[trigger] s[i], #[trigger] s[j], descending)
}

/// Inserting puts `x` at one position `p`: the levels before it do not come after it
/// and those behind it do.
proof fn lemma_insert_shape(t: Seq<((int, nat), (int, nat))>, x: ((int, nat), (int, nat)), descending: bool) -> (p: int)
    ensures
        0 <= p <= t.len(),
        insert_level(t, x, descending) == t.insert(p, x),
        forall|k: int| p <= k < t.len() ==> comes_after(#[trigger] t[k], x, descending),
        p > 0 ==> !comes_after(t[p - 1], x, descending),
    decreases t.len(),
{
    if t.len() > 0 && comes_after(t.last(), x, descending) {
        let q = lemma_insert_shape(t.drop_last(), x, descending);
        assert(t.drop_last().insert(q, x).push(t.last()) =~= t.insert(q, x));
        assert forall|k: int| q <= k < t.len() implies comes_after(#[trigger] t[k], x, descending) by {
            if k < t.len() - 1 {
                assert(t[k] == t.drop_last()[k]);
            }
        }
        if q > 0 {
            assert(t[q - 1] == t.drop_last()[q - 1]);
        }
        q
    } else {
        assert(t.push(x) =~= t.insert(t.len() as int, x));
        t.len() as int
    }
}

/// Inserting into an ordered list keeps it ordered and adds exactly `x`.
proof fn lemma_insert_ordered(t: Seq<((int, nat), (int, nat))>, x: ((int, nat), (int, nat)), descending: bool)
    requires
        levels_ordered(t, descending),
    ensures
        levels_ordered(insert_level(t, x, descending), descending),
        insert_level(t, x, descending).to_multiset() == t.to_multiset().insert(x),
{
    let p = lemma_insert_shape(t, x, descending);
    let r = insert_level(t, x, descending);
    assert forall|i: int, j: int| 0 <= i < j < r.len() implies !comes_after(
        #[trigger] r[i],
        #[trigger] r[j],
        descending,
    ) by {
        if j < p {
            assert(r[i] == t[i] && r[j] == t[j]);
        } else if j == p {
            assert(r[j] == x);
            assert(r[i] == t[i]);
            assert(!comes_after(t[i], t[p - 1], descending) || i == p - 1);
        } else if i < p {
            assert(r[i] == t[i] && r[j] == t[j - 1]);
        } else if i == p {
            assert(r[i] == x && r[j] == t[j - 1]);
            assert(comes_after(t[j - 1], x, descending));
        } else {
            assert(r[i] == t[i - 1] && r[j] == t[j - 1]);
        }
    }
}

/// The sorted levels are ordered by price and are the same levels as before, each as
/// often.
pub proof fn lemma_sort_levels(s: Seq<((int, nat), (int, nat))>, descending: bool)
    ensures
        levels_ordered(sort_levels(s, descending), descending),
        sort_levels(s, descending).to_multiset() == s.to_multiset(),
    decreases s.len(),
{
    if s.len() > 0 {
        lemma_sort_levels(s.drop_last(), descending);
        lemma_insert_ordered(sort_levels(s.drop_last(), descending), s.last(), descending);
        assert(s.drop_last().push(s.last()) =~= s);
    }
}

/// Parses the entries that have two decimal texts, in order.
fn parse_levels(raw: &Vec<RawLevel>) -> (r: Vec<PriceLevel>)
    ensures
        level_views(r@) == spec_parse_levels(raw@),
        levels_wf(r@),
{
    let mut out: Vec<PriceLevel> = Vec::new();
    let mut i: usize = 0;
    while i < raw.len()
        invariant
            i <= raw@.len(),
            level_views(out@) == spec_parse_levels(raw@.take(i as int)),
            levels_wf(out@),
        decreases raw@.len() - i,
    {
        proof {
            assert(raw@.take(i as int + 1).drop_last() =~= raw@.take(i as int));
            assert(raw@.take(i as int + 1).last() == raw@[i as int]);
        }
        let entry = &raw[i];
        let level = match (&entry.price, &entry.qty) {
            (Some(p), Some(q)) => match (parse_decimal(p.as_str()), parse_decimal(q.as_str())) {
                (Some(price), Some(quantity)) => Some(PriceLevel::new(price, quantity)),
                _ => None,
            },
            _ => None,
        };
        if let Some(l) = level {
            let ghost before = out@;
            out.push(l);
            proof {
                assert(level_views(out@) =~= level_views(before).push((l.price@, l.quantity@)));
            }
        }
        i = i + 1;
    }
    proof {
        assert(raw@.take(raw@.len() as int) =~= raw@);
    }
    out
}

/// Does level `a` belong strictly after level `b`?
fn belongs_after(a: &PriceLevel, b: &PriceLevel, descending: bool) -> (r: bool)
    requires
        a.wf(),
        b.wf(),
    ensures
        r == comes_after((a.price@, a.quantity@), (b.price@, b.quantity@), descending),
{
    if descending {
        less_than(a.price, b.price)
    } else {
        less_than(b.price, a.price)
    }
}

/// Inserts `x` after every level it does not belong before.
fn insert_sorted(out: &mut Vec<PriceLevel>, x: PriceLevel, descending: bool)
    requires
        levels_wf(old(out)@),
        x.wf(),
    ensures
        levels_wf(final(out)@),
        level_views(final(out)@) == insert_level(level_views(old(out)@), (x.price@, x.quantity@), descending),
{
    let ghost t = level_views(out@);
    let ghost xv = (x.price@, x.quantity@);
    out.push(x);
    let mut j: usize = out.len() - 1;
    proof {
        assert(level_views(out@) =~= t.take(j as int) + seq![xv] + t.skip(j as int));
    }
    while j > 0 && belongs_after(&out[j - 1], &x, descending)
        invariant
            out@.len() == t.len() + 1,
            0 <= j <= t.len(),
            t.len() == level_views(old(out)@).len(),
            t == level_views(old(out)@),
            xv == (x.price@, x.quantity@),
            x.wf(),
            out@[j as int] == x,
            level_views(out@) == t.take(j as int) + seq![xv] + t.skip(j as int),
            forall|k: int| j <= k < t.len() ==> comes_after(#[trigger] t[k], xv, descending),
            levels_wf(out@),
        decreases j,
    {
        let prev = out[j - 1];
        proof {
            assert(level_views(out@)[j - 1] == t[j - 1]);
        }
        let ghost before = level_views(out@);
        out.set(j, prev);
        out.set(j - 1, x);
        proof {
            let want = t.take(j - 1) + seq![xv] + t.skip(j - 1);
            assert forall|k: int| 0 <= k < out@.len() implies #[trigger] level_views(out@)[k] == want[k] by {
                if k < j - 1 {
                    assert(before[k] == t[k]);
                } else if k == j {
                    assert(before[j - 1] == t[j - 1]);
                } else if k > j {
                    assert(before[k] == t[k - 1]);
                }
            }
            assert(level_views(out@) =~= want);
        }
        j = j - 1;
    }
    proof {
        lemma_insert_split(t, xv, descending, j as int);
        if j > 0 {
            assert(level_views(out@)[j - 1] == t[j - 1]);
            assert(t.take(j as int).last() == t[j - 1]);
        }
        assert(insert_level(t.take(j as int), xv, descending) =~= t.take(j as int).push(xv));
        assert(level_views(out@) =~= t.take(j as int).push(xv) + t.skip(j as int));
    }
}

/// When every level from `j` on comes after `x`, inserting `x` only looks at the first
/// `j` levels.
proof fn lemma_insert_split(
    t: Seq<((int, nat), (int, nat))>,
    x: ((int, nat), (int, nat)),
    descending: bool,
    j: int,
)
    requires
        0 <= j <= t.len(),
        forall|k: int| j <= k < t.len() ==> comes_after(#[trigger] t[k], x, descending),
    ensures
        insert_level(t, x, descending) == insert_level(t.take(j), x, descending) + t.skip(j),
    decreases t.len() - j,
{
    if j == t.len() {
        assert(t.take(j) =~= t);
        assert(t.skip(j) =~= Seq::<((int, nat), (int, nat))>::empty());
        assert(insert_level(t, x, descending) + t.skip(j) =~= insert_level(t, x, descending));
    } else {
        let u = t.drop_last();
        assert(comes_after(t[t.len() - 1], x, descending));
        assert forall|k: int| j <= k < u.len() implies comes_after(#[trigger] u[k], x, descending) by {
            assert(u[k] == t[k]);
        }
        lemma_insert_split(u, x, descending, j);
        assert(u.take(j) =~= t.take(j));
        assert(u.skip(j).push(t.last()) =~= t.skip(j));
        assert((insert_level(u.take(j), x, descending) + u.skip(j)).push(t.last()) =~= insert_level(
            u.take(j),
            x,
            descending,
        ) + u.skip(j).push(t.last()));
    }
}

/// Orders levels by price, keeping the order of levels of equal price.
fn sort_by_price(v: Vec<PriceLevel>, descending: bool) -> (r: Vec<PriceLevel>)
    requires
        levels_wf(v@),
    ensures
        levels_wf(r@),
        level_views(r@) == sort_levels(level_views(v@), descending),
{
    let mut out: Vec<PriceLevel> = Vec::new();
    let mut i: usize = 0;
    proof {
        assert(level_views(v@).take(0) =~= Seq::<((int, nat), (int, nat))>::empty());
        assert(level_views(out@) =~= Seq::<((int, nat), (int, nat))>::empty());
    }
    while i < v.len()
        invariant
            i <= v@.len(),
            levels_wf(v@),
            levels_wf(out@),
            level_views(out@) == sort_levels(level_views(v@).take(i as int), descending),
        decreases v@.len() - i,
    {
        let x = v[i];
        proof {
            let s = level_views(v@).take(i as int + 1);
            assert(s.drop_last() =~= level_views(v@).take(i as int));
            assert(s.last() == (x.price@, x.quantity@));
        }
        insert_sorted(&mut out, x, descending);
        i = i + 1;
    }
    proof {
        assert(level_views(v@).take(v@.len() as int) =~= level_views(v@));
    }
    out
}

impl OrderBookSnapshot {
    /// The book a depth message describes: `None` when it lacks `bids` or `asks`.
    /// Entries whose price or quantity is missing or not a decimal are skipped; bids
    /// are ordered from the highest price down and asks from the lowest price up
    /// (levels of equal price keep their order); the time is the event time, or zero.
    pub fn from_binance_depth(symbol: &str, depth: &RawDepth) -> (r: Option<OrderBookSnapshot>)
        ensures
            r is Some <==> (depth.bids is Some && depth.asks is Some),
            r matches Some(b) ==> {
                &&& b.wf()
                &&& b.symbol@ == symbol@
                &&& b.timestamp_ms == (match depth.event_time {
                    Some(t) => t,
                    None => 0,
                })
                &&& level_views(b.bids@) == sort_levels(spec_parse_levels(depth.bids.unwrap()@), true)
                &&& level_views(b.asks@) == sort_levels(spec_parse_levels(depth.asks.unwrap()@), false)
            },
    {
        let (raw_bids, raw_asks) = match (&depth.bids, &depth.asks) {
            (Some(b), Some(a)) => (b, a),
            _ => return None,
        };
        let bids = sort_by_price(parse_levels(raw_bids), true);
        let asks = sort_by_price(parse_levels(raw_asks), false);
        let timestamp_ms = match depth.event_time {
            Some(t) => t,
            None => 0,
        };
        Some(OrderBookSnapshot { symbol: owned(symbol), timestamp_ms, bids, asks })
    }
}

} // verus!
