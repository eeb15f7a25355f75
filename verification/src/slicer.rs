//! The memory of recent slices that the optimal slicer keeps: each slice uses up some
//! visible liquidity and leaves a footprint that later slices account for.
use crate::decimal::Decimal;
use vstd::prelude::*;

verus! {

/// The history after recording `qty`: it goes in front, and the oldest entry leaves
/// once more than `max_history` are held.
pub open spec fn spec_record(recent: Seq<Decimal>, max_history: nat, qty: Decimal) -> Seq<Decimal> {
    let pushed = seq![qty] + recent;
    if pushed.len() > max_history {
        pushed.drop_last()
    } else {
        pushed
    }
}

/// The quantities of recent slices, newest first, keeping at most `max_history` of them.
pub struct SliceHistory {
    recent: Vec<Decimal>,
    max_history: usize,
}

impl SliceHistory {
    /// The recorded quantities, newest first.
    pub closed spec fn recent(&self) -> Seq<Decimal> {
        self.recent@
    }

    pub closed spec fn max_history(&self) -> nat {
        self.max_history as nat
    }

    /// An empty history keeping at most `max_history` slices.
    pub fn new(max_history: usize) -> (r: SliceHistory)
        ensures
            r.recent() == Seq::<Decimal>::empty(),
            r.max_history() == max_history,
    {
        SliceHistory { recent: Vec::new(), max_history }
    }

    /// Records a slice as the newest, forgetting the oldest once there are more than
    /// `max_history`.
    pub fn record(&mut self, qty: Decimal)
        ensures
            final(self).max_history() == old(self).max_history(),
            final(self).recent() == spec_record(old(self).recent(), old(self).max_history(), qty),
    {
        let ghost before = self.recent@;
        self.recent.insert(0, qty);
        assert(self.recent@ =~= seq![qty] + before);
        if self.recent.len() > self.max_history {
            let ghost pushed = self.recent@;
            self.recent.pop();
            assert(self.recent@ =~= pushed.drop_last());
        }
    }

    /// Forgets every recorded slice.
    pub fn reset(&mut self)
        ensures
            final(self).max_history() == old(self).max_history(),
            final(self).recent() == Seq::<Decimal>::empty(),
    {
        self.recent.clear();
    }

    /// How many slices are recorded.
    pub fn len(&self) -> (r: usize)
        ensures
            r == self.recent().len(),
    {
        self.recent.len()
    }

    /// The `i`-th most recent slice (0 is the newest).
    pub fn get(&self, i: usize) -> (r: Option<Decimal>)
        ensures
            r == if i < self.recent().len() { Some(self.recent()[i as int]) } else { None::<Decimal> },
    {
        if i < self.recent.len() {
            Some(self.recent[i])
        } else {
            None
        }
    }
}

/// Recording keeps a history that held at most `max_history` slices within that bound,
/// puts the new slice first, and keeps the older ones in their order behind it.
pub proof fn lemma_record_keeps_order(recent: Seq<Decimal>, max_history: nat, qty: Decimal)
    requires
        recent.len() <= max_history,
    ensures
        ({
            let after = spec_record(recent, max_history, qty);
            &&& after.len() <= max_history
            &&& after.len() == if max_history == 0 { 0 } else if recent.len() < max_history { recent.len() + 1 } else { max_history }
            &&& after.len() > 0 ==> after[0] == qty
            &&& forall|i: int| 0 < i < after.len() ==> #[trigger] after[i] == recent[i - 1]
        }),
{
}

} // verus!
