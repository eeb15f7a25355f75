//! Order-flow-imbalance signals, which side they favour, and the recent signals of a
//! tracker.
use vstd::prelude::*;
use crate::orderbook::Side;

verus! {

/// OFI signal strength from L2 depth.
#[derive(Clone, Copy, Debug, PartialEq, Eq, Structural)]
pub enum OfiSignal {
    /// Very heavy bids.
    StrongBuy,
    /// Moderately heavy bids.
    Buy,
    /// Balanced book.
    Neutral,
    /// Moderately heavy asks.
    Sell,
    /// Very heavy asks.
    StrongSell,
}

impl OfiSignal {
    /// Buy signals favour buying, sell signals favour selling; neutral favours neither.
    pub open spec fn spec_favorable_for(self, side: Side) -> bool {
        match side {
            Side::Buy => self == OfiSignal::StrongBuy || self == OfiSignal::Buy,
            Side::Sell => self == OfiSignal::StrongSell || self == OfiSignal::Sell,
        }
    }

    /// Is this signal favourable for the given side?
    pub fn favorable_for(&self, side: Side) -> (r: bool)
        ensures
            r == self.spec_favorable_for(side),
    {
        match (self, side) {
            (OfiSignal::StrongBuy, Side::Buy) | (OfiSignal::Buy, Side::Buy) => true,
            (OfiSignal::StrongSell, Side::Sell) | (OfiSignal::Sell, Side::Sell) => true,
            _ => false,
        }
    }

    /// The display name.
    pub fn name(&self) -> (s: &'static str)
        ensures
            *self == OfiSignal::StrongBuy ==> s@ == "\u{1f7e2}\u{1f7e2} STRONG_BUY"@,
            *self == OfiSignal::Buy ==> s@ == "\u{1f7e2} BUY"@,
            *self == OfiSignal::Neutral ==> s@ == "\u{26aa} NEUTRAL"@,
            *self == OfiSignal::Sell ==> s@ == "\u{1f534} SELL"@,
            *self == OfiSignal::StrongSell ==> s@ == "\u{1f534}\u{1f534} STRONG_SELL"@,
    {
        match self {
            OfiSignal::StrongBuy => "\u{1f7e2}\u{1f7e2} STRONG_BUY",
            OfiSignal::Buy => "\u{1f7e2} BUY",
            OfiSignal::Neutral => "\u{26aa} NEUTRAL",
            OfiSignal::Sell => "\u{1f534} SELL",
            OfiSignal::StrongSell => "\u{1f534}\u{1f534} STRONG_SELL",
        }
    }
}

/// No signal favours both sides, and the neutral signal favours neither.
pub proof fn lemma_signal_one_side(s: OfiSignal)
    ensures
        !(s.spec_favorable_for(Side::Buy) && s.spec_favorable_for(Side::Sell)),
        s == OfiSignal::Neutral ==> !s.spec_favorable_for(Side::Buy) && !s.spec_favorable_for(Side::Sell),
{
}


/// The signals of a tracker, oldest first, keeping at most `max_history` of them.
pub struct SignalHistory {
    signals: Vec<OfiSignal>,
    max_history: usize,
}

/// Have the last `n` signals all favoured `side` (with at least `n` recorded)?
pub open spec fn spec_consistent(signals: Seq<OfiSignal>, side: Side, n: nat) -> bool {
    &&& n <= signals.len()
    &&& forall|i: int| signals.len() - n <= i < signals.len() ==> (#[trigger] signals[i]).spec_favorable_for(side)
}

impl SignalHistory {
    /// The recorded signals, oldest first.
    pub closed spec fn signals(&self) -> Seq<OfiSignal> {
        self.signals@
    }

    pub closed spec fn max_history(&self) -> nat {
        self.max_history as nat
    }

    /// An empty history keeping at most `max_history` signals.
    pub fn new(max_history: usize) -> (r: SignalHistory)
        ensures
            r.signals() == Seq::<OfiSignal>::empty(),
            r.max_history() == max_history,
    {
        SignalHistory { signals: Vec::new(), max_history }
    }

    /// Records a signal, forgetting the oldest once there are more than `max_history`.
    pub fn push(&mut self, signal: OfiSignal)
        ensures
            final(self).max_history() == old(self).max_history(),
            final(self).signals() == if old(self).signals().len() + 1 > old(self).max_history() {
                old(self).signals().push(signal).drop_first()
            } else {
                old(self).signals().push(signal)
            },
    {
        self.signals.push(signal);
        if self.signals.len() > self.max_history {
            let ghost before = self.signals@;
            self.signals.remove(0);
            assert(self.signals@ =~= before.drop_first());
        }
    }

    /// The newest signal.
    pub fn latest(&self) -> (r: Option<OfiSignal>)
        ensures
            r == if self.signals().len() > 0 { Some(self.signals().last()) } else { None::<OfiSignal> },
    {
        if self.signals.len() > 0 {
            Some(self.signals[self.signals.len() - 1])
        } else {
            None
        }
    }

    /// Have the last `n` signals all favoured `side`? `false` with fewer than `n` recorded.
    pub fn consistent_signal(&self, side: Side, n: usize) -> (r: bool)
        ensures
            r == spec_consistent(self.signals(), side, n as nat),
    {
        let len = self.signals.len();
        if len < n {
            return false;
        }
        let mut i: usize = len - n;
        while i < len
            invariant
                len == self.signals@.len(),
                n <= len,
                len - n <= i <= len,
                forall|k: int| len - n <= k < i ==> (#[trigger] self.signals@[k]).spec_favorable_for(side),
            decreases len - i,
        {
            if !self.signals[i].favorable_for(side) {
                return false;
            }
            i = i + 1;
        }
        true
    }

    /// How many signals are recorded.
    pub fn sample_count(&self) -> (r: usize)
        ensures
            r == self.signals().len(),
    {
        self.signals.len()
    }
}

/// A history never holds more than `max_history` signals once it holds no more than
/// that, and the newest signal is always the one last pushed (when any is kept).
pub proof fn lemma_history_bounded(before: Seq<OfiSignal>, max_history: nat, signal: OfiSignal)
    requires
        before.len() <= max_history,
    ensures
        ({
            let after = if before.len() + 1 > max_history {
                before.push(signal).drop_first()
            } else {
                before.push(signal)
            };
            &&& after.len() <= max_history
            &&& after.len() > 0 ==> after.last() == signal
        }),
{
}

} // verus!
