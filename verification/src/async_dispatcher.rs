//! Order tasks sent through the concurrent dispatcher, the pacing between orders,
//! and how a batch's results are split for retry and summed up.
use vstd::prelude::*;
use crate::decimal::{checked_add, checked_mul, Decimal};
use crate::fills::{add_fill, spec_vwap_or, vwap_or, zero_totals, Fill, TotalsView};
use crate::orderbook::Side;
use crate::text::owned;

verus! {

/// A lightweight order description.
#[derive(Clone, Debug)]
pub enum OrderTask {
    Market { symbol: String, side: Side, qty: Decimal },
    Limit { symbol: String, side: Side, qty: Decimal, price: Decimal },
}

impl OrderTask {
    pub open spec fn spec_symbol(&self) -> Seq<char> {
        match self {
            OrderTask::Market { symbol, .. } => symbol@,
            OrderTask::Limit { symbol, .. } => symbol@,
        }
    }

    pub open spec fn spec_side(&self) -> Side {
        match self {
            OrderTask::Market { side, .. } => *side,
            OrderTask::Limit { side, .. } => *side,
        }
    }

    pub open spec fn spec_qty(&self) -> Decimal {
        match self {
            OrderTask::Market { qty, .. } => *qty,
            OrderTask::Limit { qty, .. } => *qty,
        }
    }

    /// A market order task.
    pub fn market(symbol: &str, side: Side, qty: Decimal) -> (r: OrderTask)
        ensures
            r is Market,
            r.spec_symbol() == symbol@,
            r.spec_side() == side,
            r.spec_qty() == qty,
    {
        OrderTask::Market { symbol: owned(symbol), side, qty }
    }

    /// A limit order task at `price`.
    pub fn limit(symbol: &str, side: Side, qty: Decimal, price: Decimal) -> (r: OrderTask)
        ensures
            r matches OrderTask::Limit { price: p, .. } && p == price,
            r.spec_symbol() == symbol@,
            r.spec_side() == side,
            r.spec_qty() == qty,
    {
        OrderTask::Limit { symbol: owned(symbol), side, qty, price }
    }

    pub fn symbol(&self) -> (r: &str)
        ensures
            r@ == self.spec_symbol(),
    {
        match self {
            OrderTask::Market { symbol, .. } => symbol.as_str(),
            OrderTask::Limit { symbol, .. } => symbol.as_str(),
        }
    }

    pub fn side(&self) -> (r: Side)
        ensures
            r == self.spec_side(),
    {
        match self {
            OrderTask::Market { side, .. } => *side,
            OrderTask::Limit { side, .. } => *side,
        }
    }

    pub fn qty(&self) -> (r: Decimal)
        ensures
            r == self.spec_qty(),
    {
        match self {
            OrderTask::Market { qty, .. } => *qty,
            OrderTask::Limit { qty, .. } => *qty,
        }
    }
}

/// What came of one dispatched order.
#[derive(Clone, Debug)]
pub struct DispatchedResult {
    pub task: OrderTask,
    /// The fill, when the order succeeded.
    pub fill: Option<Fill>,
    /// The error text, when it failed.
    pub error: Option<String>,
    /// Time from dispatch to completion (ms).
    pub latency_ms: u64,
}

impl DispatchedResult {
    /// Did the order fill?
    pub fn is_ok(&self) -> (r: bool)
        ensures
            r == self.fill is Some,
    {
        self.fill.is_some()
    }
}

/// Concurrency settings for slice execution.
#[derive(Clone, Copy, Debug)]
pub struct ConcurrentSliceConfig {
    pub max_concurrent: usize,
    /// Least time between two orders (ms).
    pub min_interval_ms: u64,
    /// Time limit of one order (ms).
    pub order_timeout_ms: u64,
    /// Retries per slice.
    pub max_retries: usize,
    /// Pause before a retry (ms).
    pub retry_delay_ms: u64,
}

impl Default for ConcurrentSliceConfig {
    /// 5 concurrent, 50 ms apart, 5 s timeout, 2 retries 100 ms apart.
    fn default() -> (r: Self)
        ensures
            r.max_concurrent == 5 && r.min_interval_ms == 50 && r.order_timeout_ms == 5000
                && r.max_retries == 2 && r.retry_delay_ms == 100,
    {
        ConcurrentSliceConfig {
            max_concurrent: 5,
            min_interval_ms: 50,
            order_timeout_ms: 5000,
            max_retries: 2,
            retry_delay_ms: 100,
        }
    }
}

impl ConcurrentSliceConfig {
    /// 3 concurrent, 200 ms apart, 10 s timeout, 3 retries 500 ms apart.
    pub fn conservative() -> (r: Self)
        ensures
            r.max_concurrent == 3 && r.min_interval_ms == 200 && r.order_timeout_ms == 10000
                && r.max_retries == 3 && r.retry_delay_ms == 500,
    {
        ConcurrentSliceConfig {
            max_concurrent: 3,
            min_interval_ms: 200,
            order_timeout_ms: 10000,
            max_retries: 3,
            retry_delay_ms: 500,
        }
    }

    /// 10 concurrent, 33 ms apart, 3 s timeout, 1 retry 50 ms later.
    pub fn aggressive() -> (r: Self)
        ensures
            r.max_concurrent == 10 && r.min_interval_ms == 33 && r.order_timeout_ms == 3000
                && r.max_retries == 1 && r.retry_delay_ms == 50,
    {
        ConcurrentSliceConfig {
            max_concurrent: 10,
            min_interval_ms: 33,
            order_timeout_ms: 3000,
            max_retries: 1,
            retry_delay_ms: 50,
        }
    }
}

/// How long to wait before the next order so that orders are at least
/// `min_interval_ms` apart (a clock that went backwards counts as no time passed).
pub fn pacing_wait_ms(now_ms: u64, last_order_ms: u64, min_interval_ms: u64) -> (r: u64)
    ensures
        r == if now_ms >= last_order_ms && now_ms - last_order_ms >= min_interval_ms {
            0
        } else if now_ms >= last_order_ms {
            (min_interval_ms - (now_ms - last_order_ms)) as u64
        } else {
            min_interval_ms
        },
{
    let elapsed = now_ms.saturating_sub(last_order_ms);
    if elapsed < min_interval_ms {
        min_interval_ms - elapsed
    } else {
        0
    }
}

/// Results whose order filled, in order.
pub open spec fn successes(rs: Seq<DispatchedResult>) -> Seq<DispatchedResult>
    decreases rs.len(),
{
    if rs.len() == 0 {
        Seq::empty()
    } else if rs.last().fill is Some {
        successes(rs.drop_last()).push(rs.last())
    } else {
        successes(rs.drop_last())
    }
}

/// Results whose order failed, in order.
pub open spec fn failures(rs: Seq<DispatchedResult>) -> Seq<DispatchedResult>
    decreases rs.len(),
{
    if rs.len() == 0 {
        Seq::empty()
    } else if rs.last().fill is Some {
        failures(rs.drop_last())
    } else {
        failures(rs.drop_last()).push(rs.last())
    }
}

/// Splits a round of results into those that filled and those that failed, each in
/// the order given.
pub fn partition_results(results: Vec<DispatchedResult>) -> (r: (
    Vec<DispatchedResult>,
    Vec<DispatchedResult>,
))
    ensures
        r.0@ == successes(results@),
        r.1@ == failures(results@),
{
    let ghost all = results@;
    let mut rest = results;
    let mut ok: Vec<DispatchedResult> = Vec::new();
    let mut failed: Vec<DispatchedResult> = Vec::new();
    let ghost mut done: int = 0;
    while rest.len() > 0
        invariant
            0 <= done <= all.len(),
            rest@ == all.skip(done),
            ok@ == successes(all.take(done)),
            failed@ == failures(all.take(done)),
        decreases rest@.len(),
    {
        let r = rest.remove(0);
        proof {
            assert(all.take(done + 1).drop_last() =~= all.take(done));
            assert(all.take(done + 1).last() == r);
            done = done + 1;
            assert(rest@ =~= all.skip(done));
        }
        if r.fill.is_some() {
            ok.push(r);
        } else {
            failed.push(r);
        }
    }
    proof {
        assert(all.take(done) =~= all);
    }
    (ok, failed)
}

/// The results an attempt of a batch keeps: every filled one, and on the last attempt
/// the failed ones too, in order.
pub open spec fn kept_results(rs: Seq<DispatchedResult>, last_attempt: bool) -> Seq<DispatchedResult>
    decreases rs.len(),
{
    if rs.len() == 0 {
        Seq::empty()
    } else if rs.last().fill is Some || last_attempt {
        kept_results(rs.drop_last(), last_attempt).push(rs.last())
    } else {
        kept_results(rs.drop_last(), last_attempt)
    }
}

/// The tasks an attempt sends again: those of the failed results, unless it was the
/// last attempt.
pub open spec fn retried_tasks(rs: Seq<DispatchedResult>, last_attempt: bool) -> Seq<OrderTask>
    decreases rs.len(),
{
    if rs.len() == 0 || last_attempt {
        Seq::empty()
    } else if rs.last().fill is Some {
        retried_tasks(rs.drop_last(), last_attempt)
    } else {
        retried_tasks(rs.drop_last(), last_attempt).push(rs.last().task)
    }
}

/// Takes in the results of attempt `attempt` (counting from zero) of a batch that may be
/// retried `max_retries` times: the kept results are appended to `collected`, and the
/// tasks to send again are returned.
pub fn absorb_attempt(
    collected: &mut Vec<DispatchedResult>,
    results: Vec<DispatchedResult>,
    attempt: usize,
    max_retries: usize,
) -> (retry: Vec<OrderTask>)
    ensures
        final(collected)@ == old(collected)@ + kept_results(results@, attempt >= max_retries),
        retry@ == retried_tasks(results@, attempt >= max_retries),
{
    let ghost all = results@;
    let ghost start = collected@;
    let ghost last = attempt >= max_retries;
    let mut rest = results;
    let mut retry: Vec<OrderTask> = Vec::new();
    let ghost mut done: int = 0;
    proof {
        assert(all.take(0) =~= Seq::<DispatchedResult>::empty());
        assert(start + kept_results(all.take(0), last) =~= start);
    }
    while rest.len() > 0
        invariant
            0 <= done <= all.len(),
            last == (attempt >= max_retries),
            rest@ == all.skip(done),
            collected@ == start + kept_results(all.take(done), last),
            retry@ == retried_tasks(all.take(done), last),
        decreases rest@.len(),
    {
        let r = rest.remove(0);
        proof {
            assert(all.take(done + 1).drop_last() =~= all.take(done));
            assert(all.take(done + 1).last() == r);
        }
        if r.fill.is_some() || attempt >= max_retries {
            let ghost before = collected@;
            collected.push(r);
            proof {
                assert(collected@ =~= start + kept_results(all.take(done + 1), last));
            }
        } else {
            retry.push(r.task);
        }
        proof {
            done = done + 1;
            assert(rest@ =~= all.skip(done));
        }
    }
    proof {
        assert(all.take(done) =~= all);
    }
    retry
}

/// No result of an attempt is lost: each is kept or has its task sent again, and on the
/// last attempt every result is kept and nothing is sent again.
pub proof fn lemma_attempt_accounts(rs: Seq<DispatchedResult>, last_attempt: bool)
    ensures
        kept_results(rs, last_attempt).len() + retried_tasks(rs, last_attempt).len() == rs.len(),
        last_attempt ==> kept_results(rs, last_attempt) == rs,
        last_attempt ==> retried_tasks(rs, last_attempt).len() == 0,
    decreases rs.len(),
{
    if rs.len() > 0 {
        lemma_attempt_accounts(rs.drop_last(), last_attempt);
        if last_attempt {
            assert(rs.drop_last().push(rs.last()) =~= rs);
        }
    }
}


/// Summary of a concurrent batch.
pub struct BatchSummary {
    pub successful: usize,
    pub failed: usize,
    pub total_filled_qty: Decimal,
    /// `notional / filled`, zero when nothing filled.
    pub avg_fill_price: Decimal,
    pub total_commission: Decimal,
    /// Sum of latencies (ms).
    pub total_latency_ms: u128,
    pub max_latency_ms: u64,
}

/// Running summary over the first `n` results: counts, fill totals of the results
/// that filled, latency sum and maximum; `None` when a fill total overflows.
pub open spec fn summary_upto(rs: Seq<DispatchedResult>, n: int) -> Option<(nat, nat, TotalsView, int, u64)>
    decreases n,
{
    if n <= 0 {
        Some((0, 0, zero_totals(), 0, 0))
    } else {
        match summary_upto(rs, n - 1) {
            None => None,
            Some((ok, bad, t, lat, mx)) => {
                let r = rs[n - 1];
                let mx2 = if mx < r.latency_ms { r.latency_ms } else { mx };
                match r.fill {
                    Some(f) => match add_fill(t, f) {
                        None => None,
                        Some(t2) => Some((ok + 1, bad, t2, lat + r.latency_ms, mx2)),
                    },
                    None => Some((ok, bad + 1, t, lat + r.latency_ms, mx2)),
                }
            },
        }
    }
}

/// Every fill among the results is well formed.
pub open spec fn results_wf(rs: Seq<DispatchedResult>) -> bool {
    forall|i: int| 0 <= i < rs.len() ==> ((#[trigger] rs[i]).fill matches Some(f) ==> f.wf())
}

proof fn lemma_summary_none_stays(rs: Seq<DispatchedResult>, i: int, n: int)
    requires
        0 <= i <= n,
        summary_upto(rs, i) is None,
    ensures
        summary_upto(rs, n) is None,
    decreases n - i,
{
    if i < n {
        lemma_summary_none_stays(rs, i + 1, n);
    }
}

/// Sums up a batch: how many filled and failed, the filled quantity, average fill
/// price and commission over the fills, and the latency sum and maximum. `None` when a
/// fill total overflows.
pub fn summarize_batch(results: &Vec<DispatchedResult>) -> (r: Option<BatchSummary>)
    requires
        results_wf(results@),
        results@.len() < 0x1_0000_0000_0000_0000,
    ensures
        match summary_upto(results@, results@.len() as int) {
            None => r is None,
            Some((ok, bad, t, lat, mx)) => match spec_vwap_or(t.notional, t.filled, (0int, 0nat)) {
                None => r is None,
                Some(avg) => r matches Some(s) && s.successful == ok && s.failed == bad
                    && s.successful + s.failed == results@.len()
                    && s.total_filled_qty@ == t.filled && s.avg_fill_price@ == avg
                    && s.total_commission@ == t.commission && s.total_latency_ms == lat
                    && s.max_latency_ms == mx,
            },
        },
{
    let mut ok: usize = 0;
    let mut bad: usize = 0;
    let mut filled = Decimal::zero();
    let mut notional = Decimal::zero();
    let mut commission = Decimal::zero();
    let mut latency: u128 = 0;
    let mut max_latency: u64 = 0;
    let mut i: usize = 0;
    while i < results.len()
        invariant
            results_wf(results@),
            results@.len() < 0x1_0000_0000_0000_0000,
            i <= results@.len(),
            ok + bad == i,
            latency <= i * 0xffff_ffff_ffff_ffff,
            filled.wf() && notional.wf() && commission.wf(),
            summary_upto(results@, i as int) == Some(
                (
                    ok as nat,
                    bad as nat,
                    TotalsView { filled: filled@, notional: notional@, commission: commission@ },
                    latency as int,
                    max_latency,
                ),
            ),
        decreases results@.len() - i,
    {
        let r = &results[i];
        assert(results_wf(results@));
        assert(results@[i as int] == *r);
        if r.latency_ms > max_latency {
            max_latency = r.latency_ms;
        }
        match r.fill {
            Some(f) => {
                assert(f.wf());
                let next = match checked_add(filled, f.qty) {
                    Some(a) => match checked_mul(f.price, f.qty) {
                        Some(n) => match checked_add(notional, n) {
                            Some(b) => match checked_add(commission, f.commission) {
                                Some(c) => Some((a, b, c)),
                                None => None,
                            },
                            None => None,
                        },
                        None => None,
                    },
                    None => None,
                };
                match next {
                    Some((a, b, c)) => {
                        filled = a;
                        notional = b;
                        commission = c;
                        ok = ok + 1;
                    },
                    None => {
                        proof {
                            lemma_summary_none_stays(results@, i as int + 1, results@.len() as int);
                        }
                        return None;
                    },
                }
            },
            None => {
                bad = bad + 1;
            },
        }
        proof {
            assert(latency + r.latency_ms <= (i + 1) * 0xffff_ffff_ffff_ffff) by (nonlinear_arith)
                requires
                    latency <= i * 0xffff_ffff_ffff_ffff,
                    r.latency_ms <= 0xffff_ffff_ffff_ffffu64,
            ;
            assert((i + 1) * 0xffff_ffff_ffff_ffff < 0x1_0000_0000_0000_0000 * 0x1_0000_0000_0000_0000) by (nonlinear_arith)
                requires
                    i + 1 <= 0x1_0000_0000_0000_0000,
            ;
        }
        latency = latency + r.latency_ms as u128;
        i = i + 1;
    }
    let avg = match vwap_or(notional, filled, Decimal::zero()) {
        Some(a) => a,
        None => return None,
    };
    Some(
        BatchSummary {
            successful: ok,
            failed: bad,
            total_filled_qty: filled,
            avg_fill_price: avg,
            total_commission: commission,
            total_latency_ms: latency,
            max_latency_ms: max_latency,
        },
    )
}

} // verus!
