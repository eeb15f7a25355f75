//! The checks made before each slice of a scheduled execution (TWAP, VWAP, shortfall,
//! participation): what each finding means for the slice, how many times a slice is
//! retried, and which outcomes end the whole execution.
use vstd::prelude::*;

verus! {

/// What one round of pre-slice checks found, the first failing check winning, in the
/// order they are made.
#[derive(Clone, Copy, Debug, PartialEq, Eq, Structural)]
pub enum SliceCheck {
    /// The kill switch is on.
    KillSwitch,
    /// The order book could not be fetched.
    BookUnavailable,
    /// The spread is beyond the abort threshold.
    SpreadAbort,
    /// The spread is beyond the pause threshold.
    SpreadWide,
    /// The estimated slippage is beyond the per-slice maximum.
    SlippageHigh,
    /// The risk limits refuse the slice.
    RiskRefused,
    /// Every check passed.
    Clear,
}

/// What becomes of the slice after one round of checks.
#[derive(Clone, Copy, Debug, PartialEq, Eq, Structural)]
pub enum SliceGate {
    /// Place the slice.
    Execute,
    /// Wait the retry delay and check again.
    Retry,
    /// Give the slice up: the kill switch is on.
    KillSwitch,
    /// Give the slice up: the book stayed unavailable through the retries.
    BookUnavailable,
    /// Give the slice up: the spread blew out.
    SpreadAbort,
    /// Give the slice up: the spread stayed wide through the retries.
    SpreadTimeout,
    /// Give the slice up: the slippage stayed high through the retries.
    SlippageTimeout,
    /// Skip the slice: the risk limits refuse it.
    RiskSkip,
}

/// The outcome of a round of checks and the retry count after it. A failure that
/// may clear (book, wide spread, high slippage) uses up a retry and is retried until
/// `max_retries` retries are used; the others decide at once.
pub open spec fn spec_gate(check: SliceCheck, retries: nat, max_retries: nat) -> (SliceGate, nat) {
    let used = retries + 1;
    match check {
        SliceCheck::KillSwitch => (SliceGate::KillSwitch, retries),
        SliceCheck::SpreadAbort => (SliceGate::SpreadAbort, retries),
        SliceCheck::RiskRefused => (SliceGate::RiskSkip, retries),
        SliceCheck::Clear => (SliceGate::Execute, retries),
        SliceCheck::BookUnavailable => if used >= max_retries {
            (SliceGate::BookUnavailable, used)
        } else {
            (SliceGate::Retry, used)
        },
        SliceCheck::SpreadWide => if used >= max_retries {
            (SliceGate::SpreadTimeout, used)
        } else {
            (SliceGate::Retry, used)
        },
        SliceCheck::SlippageHigh => if used >= max_retries {
            (SliceGate::SlippageTimeout, used)
        } else {
            (SliceGate::Retry, used)
        },
    }
}

/// Decides a slice from one round of checks, `retries` having been used already.
pub fn gate_slice(check: SliceCheck, retries: usize, max_retries: usize) -> (r: (SliceGate, usize))
    requires
        retries < usize::MAX,
    ensures
        (r.0, r.1 as nat) == spec_gate(check, retries as nat, max_retries as nat),
{
    match check {
        SliceCheck::KillSwitch => (SliceGate::KillSwitch, retries),
        SliceCheck::SpreadAbort => (SliceGate::SpreadAbort, retries),
        SliceCheck::RiskRefused => (SliceGate::RiskSkip, retries),
        SliceCheck::Clear => (SliceGate::Execute, retries),
        SliceCheck::BookUnavailable => {
            let used = retries + 1;
            if used >= max_retries {
                (SliceGate::BookUnavailable, used)
            } else {
                (SliceGate::Retry, used)
            }
        },
        SliceCheck::SpreadWide => {
            let used = retries + 1;
            if used >= max_retries {
                (SliceGate::SpreadTimeout, used)
            } else {
                (SliceGate::Retry, used)
            }
        },
        SliceCheck::SlippageHigh => {
            let used = retries + 1;
            if used >= max_retries {
                (SliceGate::SlippageTimeout, used)
            } else {
                (SliceGate::Retry, used)
            }
        },
    }
}

impl SliceGate {
    /// The outcome stops the whole execution, not just the slice (VWAP, shortfall and
    /// participation executions): the kill switch, or a blown-out spread.
    pub open spec fn spec_ends_execution(self) -> bool {
        self == SliceGate::KillSwitch || self == SliceGate::SpreadAbort
    }

    /// Whether the outcome stops the whole execution (VWAP, shortfall, participation).
    pub fn ends_execution(&self) -> (r: bool)
        ensures
            r == self.spec_ends_execution(),
    {
        match self {
            SliceGate::KillSwitch | SliceGate::SpreadAbort => true,
            _ => false,
        }
    }

    /// The outcome stops a TWAP execution: a failure (the book stayed unavailable, or
    /// the spread blew out). A TWAP execution waits out the kill switch slice by slice.
    pub open spec fn spec_ends_twap(self) -> bool {
        self == SliceGate::BookUnavailable || self == SliceGate::SpreadAbort
    }

    /// Whether the outcome stops a TWAP execution.
    pub fn ends_twap(&self) -> (r: bool)
        ensures
            r == self.spec_ends_twap(),
    {
        match self {
            SliceGate::BookUnavailable | SliceGate::SpreadAbort => true,
            _ => false,
        }
    }
}

/// The outcome of checking a slice round after round, starting with `retries` used,
/// until it is decided (or the checks run out: then `Retry`).
pub open spec fn spec_gate_rounds(checks: Seq<SliceCheck>, retries: nat, max_retries: nat) -> (SliceGate, nat, nat)
    decreases checks.len(),
{
    if checks.len() == 0 {
        (SliceGate::Retry, retries, 0)
    } else {
        let (g, used) = spec_gate(checks[0], retries, max_retries);
        if g == SliceGate::Retry {
            let (rest, r, n) = spec_gate_rounds(checks.drop_first(), used, max_retries);
            (rest, r, n + 1)
        } else {
            (g, used, 1)
        }
    }
}

/// A slice is never retried forever: starting with `retries` used, however the checks
/// come out, it is decided within `max_retries - retries` rounds (one round when no
/// retry is left), and a decided slice has used at most `max_retries` retries (or one
/// more than it started with).
pub proof fn lemma_gate_rounds_bounded(checks: Seq<SliceCheck>, retries: nat, max_retries: nat)
    ensures
        ({
            let (g, used, rounds) = spec_gate_rounds(checks, retries, max_retries);
            &&& rounds <= checks.len()
            &&& (checks.len() >= if max_retries > retries + 1 { max_retries - retries } else { 1 }) ==> g != SliceGate::Retry
            &&& g != SliceGate::Retry ==> used <= if max_retries > retries { max_retries } else { retries + 1 }
            &&& g != SliceGate::Retry ==> rounds <= if max_retries > retries + 1 { max_retries - retries } else { 1 }
        }),
    decreases checks.len(),
{
    if checks.len() > 0 {
        let (g, used) = spec_gate(checks[0], retries, max_retries);
        if g == SliceGate::Retry {
            lemma_gate_rounds_bounded(checks.drop_first(), used, max_retries);
        }
    }
}

} // verus!
