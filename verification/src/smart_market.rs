//! Book states that steer a smart market order, and its phase records.
use vstd::prelude::*;

verus! {

/// Classified book state, which decides the execution strategy.
#[derive(Clone, Copy, Debug, PartialEq, Eq, Structural)]
pub enum BookState {
    /// Heavy liquidity on our side: join the touch.
    Aggressive,
    /// Balanced: post inside the spread.
    Passive,
    /// Adverse: wait or use a tight limit.
    Defensive,
    /// A wall against us: reduce size or wait.
    WallBlocking,
    /// Spread too wide: pause or abort.
    WideSpread,
}

impl BookState {
    /// The display name.
    pub fn name(&self) -> (s: &'static str)
        ensures
            *self == BookState::Aggressive ==> s@ == "\u{1f7e2} AGGRESSIVE"@,
            *self == BookState::Passive ==> s@ == "\u{1f535} PASSIVE"@,
            *self == BookState::Defensive ==> s@ == "\u{1f7e1} DEFENSIVE"@,
            *self == BookState::WallBlocking ==> s@ == "\u{1f9f1} WALL_BLOCKING"@,
            *self == BookState::WideSpread ==> s@ == "\u{1f534} WIDE_SPREAD"@,
    {
        match self {
            BookState::Aggressive => "\u{1f7e2} AGGRESSIVE",
            BookState::Passive => "\u{1f535} PASSIVE",
            BookState::Defensive => "\u{1f7e1} DEFENSIVE",
            BookState::WallBlocking => "\u{1f9f1} WALL_BLOCKING",
            BookState::WideSpread => "\u{1f534} WIDE_SPREAD",
        }
    }
}

/// Record of one phase of a smart market order.
#[derive(Clone, Debug)]
pub struct SmartMarketPhaseRecord {
    /// Phase number (1-5).
    pub phase: u8,
    pub name: String,
    /// Duration (µs).
    pub duration_us: u64,
    pub outcome: String,
}

} // verus!
