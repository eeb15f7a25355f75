//! Three-order trade saga (entry, stop-loss, take-profit) with compensation: when a
//! later order fails, the orders already placed are cancelled, newest first.
//!
//! The saga is a state machine: [`TradeSaga::next_action`] says which exchange call to
//! make, and [`TradeSaga::on_event`] takes what came back.
use vstd::prelude::*;
use crate::decimal::{checked_div, checked_sub, decimal_checked_div, decimal_checked_sub, less_than, opt_view, value_of, Decimal};
use crate::orderbook::Side;
use crate::text::{i64_text, int_text, join, owned};

verus! {

/// Parameters of a trade.
#[derive(Clone, Debug)]
pub struct TradeParams {
    pub symbol: String,
    pub side: Side,
    pub quantity: Decimal,
    pub entry_price: Decimal,
    pub stop_loss: Decimal,
    pub take_profit: Decimal,
    pub is_long: bool,
}

/// `|v|` of a (mantissa, scale) pair.
pub open spec fn abs_parts(v: (int, nat)) -> (int, nat) {
    if v.0 < 0 {
        (-v.0, v.1)
    } else {
        v
    }
}

/// The absolute value of a decimal.
pub fn decimal_abs(d: Decimal) -> (r: Decimal)
    requires
        d.wf(),
    ensures
        r.wf(),
        r@ == abs_parts(d@),
{
    if d.mantissa < 0 {
        Decimal { mantissa: -d.mantissa, scale: d.scale }
    } else {
        d
    }
}

impl TradeParams {
    pub open spec fn wf(&self) -> bool {
        self.quantity.wf() && self.entry_price.wf() && self.stop_loss.wf() && self.take_profit.wf()
    }

    /// A long trade: buy at `entry`.
    pub fn long(symbol: &str, quantity: Decimal, entry: Decimal, sl: Decimal, tp: Decimal) -> (r: TradeParams)
        ensures
            r.symbol@ == symbol@,
            r.side == Side::Buy,
            r.is_long,
            r.quantity == quantity && r.entry_price == entry && r.stop_loss == sl && r.take_profit == tp,
    {
        TradeParams {
            symbol: owned(symbol),
            side: Side::Buy,
            quantity,
            entry_price: entry,
            stop_loss: sl,
            take_profit: tp,
            is_long: true,
        }
    }

    /// A short trade: sell at `entry`.
    pub fn short(symbol: &str, quantity: Decimal, entry: Decimal, sl: Decimal, tp: Decimal) -> (r: TradeParams)
        ensures
            r.symbol@ == symbol@,
            r.side == Side::Sell,
            !r.is_long,
            r.quantity == quantity && r.entry_price == entry && r.stop_loss == sl && r.take_profit == tp,
    {
        TradeParams {
            symbol: owned(symbol),
            side: Side::Sell,
            quantity,
            entry_price: entry,
            stop_loss: sl,
            take_profit: tp,
            is_long: false,
        }
    }

    /// `|take profit - entry| / |entry - stop loss|`, or zero when the risk is zero.
    pub open spec fn spec_risk_reward(&self) -> Option<(int, nat)> {
        match decimal_checked_sub(self.entry_price@, self.stop_loss@) {
            None => None,
            Some(risk) => match decimal_checked_sub(self.take_profit@, self.entry_price@) {
                None => None,
                Some(reward) => if value_of(abs_parts(risk)) > 0 {
                    decimal_checked_div(abs_parts(reward), abs_parts(risk))
                } else {
                    Some((0int, 0nat))
                },
            },
        }
    }

    /// Reward-to-risk ratio; `None` when a difference or the ratio overflows.
    pub fn risk_reward(&self) -> (r: Option<Decimal>)
        requires
            self.wf(),
        ensures
            opt_view(r) == self.spec_risk_reward(),
            r matches Some(d) ==> d.wf(),
    {
        let risk = match checked_sub(self.entry_price, self.stop_loss) {
            Some(v) => decimal_abs(v),
            None => return None,
        };
        let reward = match checked_sub(self.take_profit, self.entry_price) {
            Some(v) => decimal_abs(v),
            None => return None,
        };
        if less_than(Decimal::zero(), risk) {
            checked_div(reward, risk)
        } else {
            Some(Decimal::zero())
        }
    }

    /// The side of the stop-loss: against the entry.
    pub fn sl_side(&self) -> (r: Side)
        ensures
            r == if self.is_long { Side::Sell } else { Side::Buy },
    {
        if self.is_long {
            Side::Sell
        } else {
            Side::Buy
        }
    }

    /// The side of the take-profit: against the entry.
    pub fn tp_side(&self) -> (r: Side)
        ensures
            r == if self.is_long { Side::Sell } else { Side::Buy },
    {
        if self.is_long {
            Side::Sell
        } else {
            Side::Buy
        }
    }
}

/// The exchange call the saga needs next.
#[derive(Clone, Copy, Debug, PartialEq, Eq, Structural)]
pub enum SagaAction {
    /// Claim the entry order's client id (duplicate guard).
    ClaimEntryId,
    PlaceEntry,
    PlaceStopLoss,
    PlaceTakeProfit,
    /// Cancel the stop-loss algo order with this id.
    CancelStopLoss { algo_id: i64 },
    /// Cancel the entry order with this id.
    CancelEntry { order_id: i64 },
    /// Nothing more to do; the outcome is final.
    Finished,
}

/// What came back from the last call.
#[derive(Clone, Debug)]
pub enum SagaEvent {
    IdClaimed { fresh: bool },
    EntryPlaced { order_id: i64 },
    EntryFailed { error: String },
    /// The stop-loss was accepted.
    StopLossPlaced { algo_id: i64 },
    /// The exchange answered but refused the stop-loss.
    StopLossRejected { message: String },
    /// The call failed.
    StopLossFailed { error: String },
    TakeProfitPlaced { algo_id: i64 },
    TakeProfitRejected { message: String },
    TakeProfitFailed { error: String },
    Cancelled,
    CancelFailed { error: String },
}

/// A [`SagaEvent`] with its texts as mathematical values.
pub enum EventView {
    IdClaimed { fresh: bool },
    EntryPlaced { order_id: i64 },
    EntryFailed { error: Seq<char> },
    StopLossPlaced { algo_id: i64 },
    StopLossRejected { message: Seq<char> },
    StopLossFailed { error: Seq<char> },
    TakeProfitPlaced { algo_id: i64 },
    TakeProfitRejected { message: Seq<char> },
    TakeProfitFailed { error: Seq<char> },
    Cancelled,
    CancelFailed { error: Seq<char> },
}

impl View for SagaEvent {
    type V = EventView;

    open spec fn view(&self) -> EventView {
        match self {
            SagaEvent::IdClaimed { fresh } => EventView::IdClaimed { fresh: *fresh },
            SagaEvent::EntryPlaced { order_id } => EventView::EntryPlaced { order_id: *order_id },
            SagaEvent::EntryFailed { error } => EventView::EntryFailed { error: error@ },
            SagaEvent::StopLossPlaced { algo_id } => EventView::StopLossPlaced { algo_id: *algo_id },
            SagaEvent::StopLossRejected { message } => EventView::StopLossRejected { message: message@ },
            SagaEvent::StopLossFailed { error } => EventView::StopLossFailed { error: error@ },
            SagaEvent::TakeProfitPlaced { algo_id } => EventView::TakeProfitPlaced { algo_id: *algo_id },
            SagaEvent::TakeProfitRejected { message } => EventView::TakeProfitRejected {
                message: message@,
            },
            SagaEvent::TakeProfitFailed { error } => EventView::TakeProfitFailed { error: error@ },
            SagaEvent::Cancelled => EventView::Cancelled,
            SagaEvent::CancelFailed { error } => EventView::CancelFailed { error: error@ },
        }
    }
}

/// The state of a saga as mathematical values.
pub struct SagaView {
    pub phase: SagaPhase,
    pub entry: Option<i64>,
    pub sl: Option<i64>,
    pub tp: Option<i64>,
    pub error: Option<Seq<char>>,
    pub notes: Seq<Seq<char>>,
}

/// The saga before any call.
pub open spec fn saga_start() -> SagaView {
    SagaView {
        phase: SagaPhase::Claiming,
        entry: None,
        sl: None,
        tp: None,
        error: None,
        notes: Seq::empty(),
    }
}

/// One transition. A duplicate id or a failed entry ends the saga with nothing to
/// undo; a refused or failed stop-loss undoes the entry; a refused or failed
/// take-profit undoes the stop-loss, then the entry. Each cancellation is noted,
/// whether it worked or not. An event that does not answer the pending call changes
/// nothing.
pub open spec fn saga_step(s: SagaView, e: EventView) -> SagaView {
    match (s.phase, e) {
        (SagaPhase::Claiming, EventView::IdClaimed { fresh }) => if fresh {
            SagaView { phase: SagaPhase::PlacingEntry, ..s }
        } else {
            SagaView { phase: SagaPhase::Failed, error: Some("Duplicate entry order"@), ..s }
        },
        (SagaPhase::PlacingEntry, EventView::EntryPlaced { order_id }) => SagaView {
            phase: SagaPhase::PlacingStopLoss,
            entry: Some(order_id),
            ..s
        },
        (SagaPhase::PlacingEntry, EventView::EntryFailed { error }) => SagaView {
            phase: SagaPhase::Failed,
            error: Some("Entry failed: "@ + error),
            ..s
        },
        (SagaPhase::PlacingStopLoss, EventView::StopLossPlaced { algo_id }) => SagaView {
            phase: SagaPhase::PlacingTakeProfit,
            sl: Some(algo_id),
            ..s
        },
        (SagaPhase::PlacingStopLoss, EventView::StopLossRejected { message }) => SagaView {
            phase: SagaPhase::CancellingEntry,
            error: Some("SL rejected: "@ + message),
            ..s
        },
        (SagaPhase::PlacingStopLoss, EventView::StopLossFailed { error }) => SagaView {
            phase: SagaPhase::CancellingEntry,
            error: Some("SL failed: "@ + error),
            ..s
        },
        (SagaPhase::PlacingTakeProfit, EventView::TakeProfitPlaced { algo_id }) => SagaView {
            phase: SagaPhase::Succeeded,
            tp: Some(algo_id),
            ..s
        },
        (SagaPhase::PlacingTakeProfit, EventView::TakeProfitRejected { message }) => SagaView {
            phase: SagaPhase::CancellingStopLoss,
            error: Some("TP rejected: "@ + message),
            ..s
        },
        (SagaPhase::PlacingTakeProfit, EventView::TakeProfitFailed { error }) => SagaView {
            phase: SagaPhase::CancellingStopLoss,
            error: Some("TP failed: "@ + error),
            ..s
        },
        (SagaPhase::CancellingStopLoss, EventView::Cancelled) => SagaView {
            phase: SagaPhase::CancellingEntry,
            notes: s.notes.push(cancel_note("algo"@, s.sl.unwrap(), None)),
            ..s
        },
        (SagaPhase::CancellingStopLoss, EventView::CancelFailed { error }) => SagaView {
            phase: SagaPhase::CancellingEntry,
            notes: s.notes.push(cancel_note("algo"@, s.sl.unwrap(), Some(error))),
            ..s
        },
        (SagaPhase::CancellingEntry, EventView::Cancelled) => SagaView {
            phase: SagaPhase::Failed,
            notes: s.notes.push(cancel_note("entry"@, s.entry.unwrap(), None)),
            ..s
        },
        (SagaPhase::CancellingEntry, EventView::CancelFailed { error }) => SagaView {
            phase: SagaPhase::Failed,
            notes: s.notes.push(cancel_note("entry"@, s.entry.unwrap(), Some(error))),
            ..s
        },
        _ => s,
    }
}

/// The saga after a sequence of events.
pub open spec fn saga_run(events: Seq<EventView>) -> SagaView
    decreases events.len(),
{
    if events.len() == 0 {
        saga_start()
    } else {
        saga_step(saga_run(events.drop_last()), events.last())
    }
}

/// `note` records a cancellation of `what` number `id`, successful or not.
pub open spec fn is_cancel_note(note: Seq<char>, what: Seq<char>, id: i64) -> bool {
    note == cancel_note(what, id, None) || exists|e: Seq<char>| note == cancel_note(what, id, Some(e))
}

/// What every reachable saga state satisfies: no notes and no error while placing or
/// after success (then all three orders exist); while undoing, the notes are exactly
/// the cancellations done so far (stop-loss first); a failed saga that had placed its
/// entry has noted the cancellation of the stop-loss (if placed) and then of the entry.
pub open spec fn saga_inv(s: SagaView) -> bool {
    match s.phase {
        SagaPhase::Claiming | SagaPhase::PlacingEntry => s.entry is None && s.sl is None && s.tp is None
            && s.error is None && s.notes.len() == 0,
        SagaPhase::PlacingStopLoss => s.entry is Some && s.sl is None && s.tp is None && s.error is None
            && s.notes.len() == 0,
        SagaPhase::PlacingTakeProfit => s.entry is Some && s.sl is Some && s.tp is None && s.error is None
            && s.notes.len() == 0,
        SagaPhase::Succeeded => s.entry is Some && s.sl is Some && s.tp is Some && s.error is None
            && s.notes.len() == 0,
        SagaPhase::CancellingStopLoss => s.entry is Some && s.sl is Some && s.tp is None && s.error is Some
            && s.notes.len() == 0,
        SagaPhase::CancellingEntry => s.entry is Some && s.tp is None && s.error is Some && (match s.sl {
            Some(sl) => s.notes.len() == 1 && is_cancel_note(s.notes[0], "algo"@, sl),
            None => s.notes.len() == 0,
        }),
        SagaPhase::Failed => s.tp is None && s.error is Some && (match s.entry {
            None => s.sl is None && s.notes.len() == 0,
            Some(entry) => match s.sl {
                Some(sl) => s.notes.len() == 2 && is_cancel_note(s.notes[0], "algo"@, sl)
                    && is_cancel_note(s.notes[1], "entry"@, entry),
                None => s.notes.len() == 1 && is_cancel_note(s.notes[0], "entry"@, entry),
            },
        }),
    }
}

/// Every sequence of events leads to a state of [`saga_inv`]: in particular a failed
/// saga has cancelled (or tried to cancel) every order it placed, the stop-loss before
/// the entry, and a successful one has all three orders and no compensation.
pub proof fn lemma_saga_compensates(events: Seq<EventView>)
    ensures
        saga_inv(saga_run(events)),
    decreases events.len(),
{
    if events.len() > 0 {
        lemma_saga_compensates(events.drop_last());
        let s = saga_run(events.drop_last());
        let e = events.last();
        let t = saga_step(s, e);
        match (s.phase, e) {
            (SagaPhase::CancellingStopLoss, EventView::CancelFailed { error }) => {
                assert(t.notes[0] == cancel_note("algo"@, s.sl.unwrap(), Some(error)));
            },
            (SagaPhase::CancellingEntry, EventView::CancelFailed { error }) => {
                assert(t.notes[t.notes.len() - 1] == cancel_note("entry"@, s.entry.unwrap(), Some(error)));
                if s.sl is Some {
                    assert(t.notes[0] == s.notes[0]);
                }
            },
            (SagaPhase::CancellingEntry, EventView::Cancelled) => {
                if s.sl is Some {
                    assert(t.notes[0] == s.notes[0]);
                }
            },
            _ => {},
        }
    }
}

/// Where the saga stands.
#[derive(Clone, Copy, Debug, PartialEq, Eq, Structural)]
pub enum SagaPhase {
    Claiming,
    PlacingEntry,
    PlacingStopLoss,
    PlacingTakeProfit,
    /// Undoing the stop-loss, then the entry.
    CancellingStopLoss,
    /// Undoing the entry.
    CancellingEntry,
    Succeeded,
    Failed,
}

/// A running trade saga.
pub struct TradeSaga {
    phase: SagaPhase,
    entry_order_id: Option<i64>,
    sl_algo_id: Option<i64>,
    tp_algo_id: Option<i64>,
    error: Option<String>,
    compensations: Vec<String>,
}

/// The outcome of a saga.
pub struct SagaResult {
    pub success: bool,
    pub entry_order_id: Option<i64>,
    pub sl_algo_id: Option<i64>,
    pub tp_algo_id: Option<i64>,
    pub error: Option<String>,
    /// Compensating actions taken, in order.
    pub compensations: Vec<String>,
}

impl SagaResult {
    /// A saga that placed all three orders.
    pub fn ok(entry_order_id: i64, sl_algo_id: i64, tp_algo_id: i64) -> (r: SagaResult)
        ensures
            r.success,
            r.entry_order_id == Some(entry_order_id),
            r.sl_algo_id == Some(sl_algo_id),
            r.tp_algo_id == Some(tp_algo_id),
            r.error is None,
            r.compensations@.len() == 0,
    {
        SagaResult {
            success: true,
            entry_order_id: Some(entry_order_id),
            sl_algo_id: Some(sl_algo_id),
            tp_algo_id: Some(tp_algo_id),
            error: None,
            compensations: Vec::new(),
        }
    }

    /// A failed saga: the error and the compensations taken; no order is reported.
    pub fn failed(error: &str, compensations: Vec<String>) -> (r: SagaResult)
        ensures
            !r.success,
            r.entry_order_id is None && r.sl_algo_id is None && r.tp_algo_id is None,
            r.error matches Some(e) && e@ == error@,
            r.compensations == compensations,
    {
        SagaResult {
            success: false,
            entry_order_id: None,
            sl_algo_id: None,
            tp_algo_id: None,
            error: Some(owned(error)),
            compensations,
        }
    }
}

/// The text recorded for a cancellation attempt.
pub open spec fn cancel_note(what: Seq<char>, id: i64, error: Option<Seq<char>>) -> Seq<char> {
    match error {
        None => "Cancelled "@ + what + " order #"@ + int_text(id as int),
        Some(e) => "CRITICAL: Failed to cancel "@ + what + " #"@ + int_text(id as int) + ": "@ + e,
    }
}

/// The text noted for a cancellation of `what` number `id` (with the error when it failed).
pub fn cancellation_text(what: &str, id: i64, error: Option<&str>) -> (r: String)
    ensures
        r@ == cancel_note(what@, id, match error {
            Some(e) => Some(e@),
            None => None,
        }),
{
    match error {
        None => {
            let s = join(owned("Cancelled "), what);
            let s = join(s, " order #");
            join(s, i64_text(id).as_str())
        },
        Some(e) => {
            let s = join(owned("CRITICAL: Failed to cancel "), what);
            let s = join(s, " #");
            let s = join(s, i64_text(id).as_str());
            let s = join(s, ": ");
            join(s, e)
        },
    }
}

impl TradeSaga {
    /// The state as mathematical values.
    pub closed spec fn state(&self) -> SagaView {
        SagaView {
            phase: self.phase,
            entry: self.entry_order_id,
            sl: self.sl_algo_id,
            tp: self.tp_algo_id,
            error: match self.error {
                Some(e) => Some(e@),
                None => None,
            },
            notes: self.compensations@.map_values(|s: String| s@),
        }
    }

    pub open spec fn phase(&self) -> SagaPhase {
        self.state().phase
    }

    pub open spec fn entry_id(&self) -> Option<i64> {
        self.state().entry
    }

    pub open spec fn sl_id(&self) -> Option<i64> {
        self.state().sl
    }

    pub open spec fn tp_id(&self) -> Option<i64> {
        self.state().tp
    }

    pub open spec fn error_text(&self) -> Option<Seq<char>> {
        self.state().error
    }

    pub open spec fn notes(&self) -> Seq<Seq<char>> {
        self.state().notes
    }

    /// The ids on record match the phase: the entry exists from the stop-loss step on,
    /// the stop-loss from the take-profit step on, a success has all three, the
    /// take-profit exists only after success; nothing has been cancelled before the
    /// undoing starts, and an undoing or failed saga has its error.
    pub closed spec fn wf(&self) -> bool {
        match self.phase {
            SagaPhase::Claiming | SagaPhase::PlacingEntry => self.entry_order_id is None
                && self.sl_algo_id is None && self.tp_algo_id is None && self.compensations@.len() == 0,
            SagaPhase::PlacingStopLoss => self.entry_order_id is Some && self.sl_algo_id is None
                && self.tp_algo_id is None && self.compensations@.len() == 0,
            SagaPhase::CancellingEntry => self.entry_order_id is Some && self.tp_algo_id is None
                && self.error is Some,
            SagaPhase::PlacingTakeProfit => self.entry_order_id is Some && self.sl_algo_id is Some
                && self.tp_algo_id is None && self.compensations@.len() == 0,
            SagaPhase::CancellingStopLoss => self.entry_order_id is Some && self.sl_algo_id is Some
                && self.tp_algo_id is None && self.error is Some,
            SagaPhase::Succeeded => self.entry_order_id is Some && self.sl_algo_id is Some
                && self.tp_algo_id is Some && self.compensations@.len() == 0,
            SagaPhase::Failed => self.tp_algo_id is None && self.error is Some,
        }
    }

    /// A saga that has not started.
    pub fn new() -> (r: TradeSaga)
        ensures
            r.wf(),
            r.state() == saga_start(),
    {
        let r = TradeSaga {
            phase: SagaPhase::Claiming,
            entry_order_id: None,
            sl_algo_id: None,
            tp_algo_id: None,
            error: None,
            compensations: Vec::new(),
        };
        assert(r.notes() =~= Seq::<Seq<char>>::empty());
        r
    }

    /// The call to make next.
    pub open spec fn spec_next_action(&self) -> SagaAction {
        match self.phase() {
            SagaPhase::Claiming => SagaAction::ClaimEntryId,
            SagaPhase::PlacingEntry => SagaAction::PlaceEntry,
            SagaPhase::PlacingStopLoss => SagaAction::PlaceStopLoss,
            SagaPhase::PlacingTakeProfit => SagaAction::PlaceTakeProfit,
            SagaPhase::CancellingStopLoss => SagaAction::CancelStopLoss { algo_id: self.sl_id().unwrap() },
            SagaPhase::CancellingEntry => SagaAction::CancelEntry { order_id: self.entry_id().unwrap() },
            _ => SagaAction::Finished,
        }
    }

    pub fn next_action(&self) -> (r: SagaAction)
        requires
            self.wf(),
        ensures
            r == self.spec_next_action(),
    {
        match self.phase {
            SagaPhase::Claiming => SagaAction::ClaimEntryId,
            SagaPhase::PlacingEntry => SagaAction::PlaceEntry,
            SagaPhase::PlacingStopLoss => SagaAction::PlaceStopLoss,
            SagaPhase::PlacingTakeProfit => SagaAction::PlaceTakeProfit,
            SagaPhase::CancellingStopLoss => SagaAction::CancelStopLoss { algo_id: self.sl_algo_id.unwrap() },
            SagaPhase::CancellingEntry => SagaAction::CancelEntry { order_id: self.entry_order_id.unwrap() },
            _ => SagaAction::Finished,
        }
    }

    /// Takes what came back from the last call.
    pub fn on_event(&mut self, event: SagaEvent)
        requires
            old(self).wf(),
        ensures
            final(self).wf(),
            final(self).state() == saga_step(old(self).state(), event@),
    {
        let ghost before = self.state();
        match (self.phase, event) {
            (SagaPhase::Claiming, SagaEvent::IdClaimed { fresh }) => {
                if fresh {
                    self.phase = SagaPhase::PlacingEntry;
                } else {
                    self.fail_with(owned("Duplicate entry order"));
                }
            },
            (SagaPhase::PlacingEntry, SagaEvent::EntryPlaced { order_id }) => {
                self.entry_order_id = Some(order_id);
                self.phase = SagaPhase::PlacingStopLoss;
            },
            (SagaPhase::PlacingEntry, SagaEvent::EntryFailed { error }) => {
                self.fail_with(join(owned("Entry failed: "), error.as_str()));
            },
            (SagaPhase::PlacingStopLoss, SagaEvent::StopLossPlaced { algo_id }) => {
                self.sl_algo_id = Some(algo_id);
                self.phase = SagaPhase::PlacingTakeProfit;
            },
            (SagaPhase::PlacingStopLoss, SagaEvent::StopLossRejected { message }) => {
                self.start_compensation(join(owned("SL rejected: "), message.as_str()), false);
            },
            (SagaPhase::PlacingStopLoss, SagaEvent::StopLossFailed { error }) => {
                self.start_compensation(join(owned("SL failed: "), error.as_str()), false);
            },
            (SagaPhase::PlacingTakeProfit, SagaEvent::TakeProfitPlaced { algo_id }) => {
                self.tp_algo_id = Some(algo_id);
                self.phase = SagaPhase::Succeeded;
            },
            (SagaPhase::PlacingTakeProfit, SagaEvent::TakeProfitRejected { message }) => {
                self.start_compensation(join(owned("TP rejected: "), message.as_str()), true);
            },
            (SagaPhase::PlacingTakeProfit, SagaEvent::TakeProfitFailed { error }) => {
                self.start_compensation(join(owned("TP failed: "), error.as_str()), true);
            },
            (SagaPhase::CancellingStopLoss, SagaEvent::Cancelled) => {
                let id = self.sl_algo_id.unwrap();
                self.add_note(cancellation_text("algo", id, None));
                self.phase = SagaPhase::CancellingEntry;
            },
            (SagaPhase::CancellingStopLoss, SagaEvent::CancelFailed { error }) => {
                let id = self.sl_algo_id.unwrap();
                self.add_note(cancellation_text("algo", id, Some(error.as_str())));
                self.phase = SagaPhase::CancellingEntry;
            },
            (SagaPhase::CancellingEntry, SagaEvent::Cancelled) => {
                let id = self.entry_order_id.unwrap();
                self.add_note(cancellation_text("entry", id, None));
                self.phase = SagaPhase::Failed;
            },
            (SagaPhase::CancellingEntry, SagaEvent::CancelFailed { error }) => {
                let id = self.entry_order_id.unwrap();
                self.add_note(cancellation_text("entry", id, Some(error.as_str())));
                self.phase = SagaPhase::Failed;
            },
            _ => {},
        }
        proof {
            assert(self.state().notes =~= saga_step(before, event@).notes);
        }
    }

    fn add_note(&mut self, note: String)
        ensures
            final(self).notes() == old(self).notes().push(note@),
            final(self).phase == old(self).phase,
            final(self).entry_order_id == old(self).entry_order_id,
            final(self).sl_algo_id == old(self).sl_algo_id,
            final(self).tp_algo_id == old(self).tp_algo_id,
            final(self).error == old(self).error,
    {
        let ghost before = self.notes();
        self.compensations.push(note);
        assert(self.notes() =~= before.push(note@));
    }

    /// The outcome, once [`TradeSaga::next_action`] says `Finished`.
    pub fn into_result(self) -> (r: SagaResult)
        requires
            self.wf(),
            self.phase() == SagaPhase::Succeeded || self.phase() == SagaPhase::Failed,
        ensures
            r.success == (self.phase() == SagaPhase::Succeeded),
            r.success ==> r.entry_order_id == self.entry_id() && r.sl_algo_id == self.sl_id()
                && r.tp_algo_id == self.tp_id() && r.error is None,
            !r.success ==> (r.entry_order_id is None && r.sl_algo_id is None && r.tp_algo_id is None
                && (r.error matches Some(e) && self.error_text() == Some(e@))),
            r.compensations@.map_values(|s: String| s@) == self.notes(),
    {
        if self.phase == SagaPhase::Succeeded {
            let r = SagaResult::ok(
                self.entry_order_id.unwrap(),
                self.sl_algo_id.unwrap(),
                self.tp_algo_id.unwrap(),
            );
            proof {
                assert(r.compensations@.map_values(|s: String| s@) =~= self.notes());
            }
            r
        } else {
            let error = match &self.error {
                Some(e) => e.clone(),
                None => String::new(),
            };
            SagaResult::failed(error.as_str(), self.compensations)
        }
    }

    fn fail_with(&mut self, error: String)
        ensures
            final(self).phase == SagaPhase::Failed,
            final(self).error_text() == Some(error@),
            final(self).entry_order_id == old(self).entry_order_id,
            final(self).sl_algo_id == old(self).sl_algo_id,
            final(self).tp_algo_id == old(self).tp_algo_id,
            final(self).compensations == old(self).compensations,
    {
        self.phase = SagaPhase::Failed;
        self.error = Some(error);
    }

    fn start_compensation(&mut self, error: String, cancel_sl_first: bool)
        ensures
            final(self).phase == if cancel_sl_first {
                SagaPhase::CancellingStopLoss
            } else {
                SagaPhase::CancellingEntry
            },
            final(self).error_text() == Some(error@),
            final(self).entry_order_id == old(self).entry_order_id,
            final(self).sl_algo_id == old(self).sl_algo_id,
            final(self).tp_algo_id == old(self).tp_algo_id,
            final(self).compensations == old(self).compensations,
    {
        self.phase = if cancel_sl_first {
            SagaPhase::CancellingStopLoss
        } else {
            SagaPhase::CancellingEntry
        };
        self.error = Some(error);
    }
}

} // verus!
