//! Typed execution errors and the retry / skip / abort policy built on them.
//!
//! Exchange error codes are classified as transient or permanent; an
//! [`ExecutionError`] says whether to retry (and after how long), skip the slice,
//! or abort the whole execution, and [`decide`] turns that into one decision.
use vstd::prelude::*;
use crate::decimal::{
    checked_add, checked_mul, checked_sub, decimal_checked_add, decimal_checked_mul,
    decimal_checked_sub, decimal_text, decimal_text_places, less_than, round_one_place,
    add_is_exact, sub_is_exact,
    round_one_place_parts, to_text, to_text_places,
    value_of, Decimal,
};
use crate::fills::{spec_vwap_or, vwap_or, Fill};
use crate::text::{
    is_digit, lemma_find_from_first, lemma_int_text_reads_back, occurs_at,
    contains, digit_char, find, i64_text, int_text, join, nat_text, occurs_in, owned, parse_i64,
    spec_parse_int,
    split_once, starts_with, strip_prefix, trim, trimmed, u64_text,
};

verus! {

/// Known exchange API error codes.
#[derive(Clone, Copy, Debug, PartialEq, Eq, Structural)]
pub enum BinanceErrorCode {
    /// -1000
    Unknown,
    /// -1001
    Disconnected,
    /// -1015
    TooManyOrders,
    /// -1016
    ServiceShuttingDown,
    /// -1020
    UnsupportedOrders,
    /// -1021
    TimestampNotSynced,
    /// -1022
    InvalidSignature,
    /// -2010
    NewOrderRejected,
    /// -2011
    CancelRejected,
    /// -2013
    NoSuchOrder,
    /// -2019
    MarginInsufficient,
    /// -2022
    ExceedMaxPosition,
    /// -4000
    InvalidPrice,
    /// -4001
    InvalidQuantity,
    /// -4003
    MinNotional,
    /// -4131
    ReduceOnlyReject,
    /// Any other code.
    Other(i64),
}

impl BinanceErrorCode {
    /// The code for a number: each documented number has its variant, any other
    /// number is `Other(number)`.
    pub open spec fn spec_from_code(code: i64) -> BinanceErrorCode {
        if code == -1000 {
            BinanceErrorCode::Unknown
        } else if code == -1001 {
            BinanceErrorCode::Disconnected
        } else if code == -1015 {
            BinanceErrorCode::TooManyOrders
        } else if code == -1016 {
            BinanceErrorCode::ServiceShuttingDown
        } else if code == -1020 {
            BinanceErrorCode::UnsupportedOrders
        } else if code == -1021 {
            BinanceErrorCode::TimestampNotSynced
        } else if code == -1022 {
            BinanceErrorCode::InvalidSignature
        } else if code == -2010 {
            BinanceErrorCode::NewOrderRejected
        } else if code == -2011 {
            BinanceErrorCode::CancelRejected
        } else if code == -2013 {
            BinanceErrorCode::NoSuchOrder
        } else if code == -2019 {
            BinanceErrorCode::MarginInsufficient
        } else if code == -2022 {
            BinanceErrorCode::ExceedMaxPosition
        } else if code == -4000 {
            BinanceErrorCode::InvalidPrice
        } else if code == -4001 {
            BinanceErrorCode::InvalidQuantity
        } else if code == -4003 {
            BinanceErrorCode::MinNotional
        } else if code == -4131 {
            BinanceErrorCode::ReduceOnlyReject
        } else {
            BinanceErrorCode::Other(code)
        }
    }

    /// The number of a code.
    pub open spec fn spec_number(self) -> int {
        match self {
            BinanceErrorCode::Unknown => -1000,
            BinanceErrorCode::Disconnected => -1001,
            BinanceErrorCode::TooManyOrders => -1015,
            BinanceErrorCode::ServiceShuttingDown => -1016,
            BinanceErrorCode::UnsupportedOrders => -1020,
            BinanceErrorCode::TimestampNotSynced => -1021,
            BinanceErrorCode::InvalidSignature => -1022,
            BinanceErrorCode::NewOrderRejected => -2010,
            BinanceErrorCode::CancelRejected => -2011,
            BinanceErrorCode::NoSuchOrder => -2013,
            BinanceErrorCode::MarginInsufficient => -2019,
            BinanceErrorCode::ExceedMaxPosition => -2022,
            BinanceErrorCode::InvalidPrice => -4000,
            BinanceErrorCode::InvalidQuantity => -4001,
            BinanceErrorCode::MinNotional => -4003,
            BinanceErrorCode::ReduceOnlyReject => -4131,
            BinanceErrorCode::Other(code) => code as int,
        }
    }

    /// Transient codes: a retry can succeed.
    pub open spec fn spec_is_transient(self) -> bool {
        ||| self == BinanceErrorCode::TooManyOrders
        ||| self == BinanceErrorCode::Disconnected
        ||| self == BinanceErrorCode::TimestampNotSynced
        ||| self == BinanceErrorCode::ServiceShuttingDown
    }

    /// Permanent codes: a retry cannot help.
    pub open spec fn spec_is_permanent(self) -> bool {
        ||| self == BinanceErrorCode::MarginInsufficient
        ||| self == BinanceErrorCode::ExceedMaxPosition
        ||| self == BinanceErrorCode::InvalidSignature
        ||| self == BinanceErrorCode::MinNotional
        ||| self == BinanceErrorCode::InvalidPrice
        ||| self == BinanceErrorCode::InvalidQuantity
    }

    /// The display name of a code, such as `TOO_MANY_ORDERS(-1015)`.
    pub open spec fn spec_text(self) -> Seq<char> {
        match self {
            BinanceErrorCode::Unknown => "UNKNOWN(-1000)"@,
            BinanceErrorCode::Disconnected => "DISCONNECTED(-1001)"@,
            BinanceErrorCode::TooManyOrders => "TOO_MANY_ORDERS(-1015)"@,
            BinanceErrorCode::ServiceShuttingDown => "SERVICE_SHUTTING_DOWN(-1016)"@,
            BinanceErrorCode::UnsupportedOrders => "UNSUPPORTED_ORDERS(-1020)"@,
            BinanceErrorCode::TimestampNotSynced => "TIMESTAMP_NOT_SYNCED(-1021)"@,
            BinanceErrorCode::InvalidSignature => "INVALID_SIGNATURE(-1022)"@,
            BinanceErrorCode::NewOrderRejected => "NEW_ORDER_REJECTED(-2010)"@,
            BinanceErrorCode::CancelRejected => "CANCEL_REJECTED(-2011)"@,
            BinanceErrorCode::NoSuchOrder => "NO_SUCH_ORDER(-2013)"@,
            BinanceErrorCode::MarginInsufficient => "MARGIN_INSUFFICIENT(-2019)"@,
            BinanceErrorCode::ExceedMaxPosition => "EXCEED_MAX_POSITION(-2022)"@,
            BinanceErrorCode::InvalidPrice => "INVALID_PRICE(-4000)"@,
            BinanceErrorCode::InvalidQuantity => "INVALID_QUANTITY(-4001)"@,
            BinanceErrorCode::MinNotional => "MIN_NOTIONAL(-4003)"@,
            BinanceErrorCode::ReduceOnlyReject => "REDUCE_ONLY_REJECT(-4131)"@,
            BinanceErrorCode::Other(code) => "OTHER("@ + int_text(code as int) + ")"@,
        }
    }

    /// Parse a numeric API code.
    pub fn from_code(code: i64) -> (r: BinanceErrorCode)
        ensures
            r == BinanceErrorCode::spec_from_code(code),
    {
        match code {
            -1000 => BinanceErrorCode::Unknown,
            -1001 => BinanceErrorCode::Disconnected,
            -1015 => BinanceErrorCode::TooManyOrders,
            -1016 => BinanceErrorCode::ServiceShuttingDown,
            -1020 => BinanceErrorCode::UnsupportedOrders,
            -1021 => BinanceErrorCode::TimestampNotSynced,
            -1022 => BinanceErrorCode::InvalidSignature,
            -2010 => BinanceErrorCode::NewOrderRejected,
            -2011 => BinanceErrorCode::CancelRejected,
            -2013 => BinanceErrorCode::NoSuchOrder,
            -2019 => BinanceErrorCode::MarginInsufficient,
            -2022 => BinanceErrorCode::ExceedMaxPosition,
            -4000 => BinanceErrorCode::InvalidPrice,
            -4001 => BinanceErrorCode::InvalidQuantity,
            -4003 => BinanceErrorCode::MinNotional,
            -4131 => BinanceErrorCode::ReduceOnlyReject,
            other => BinanceErrorCode::Other(other),
        }
    }

    /// The numeric API code.
    pub fn number(&self) -> (r: i64)
        ensures
            r as int == self.spec_number(),
    {
        match self {
            BinanceErrorCode::Unknown => -1000,
            BinanceErrorCode::Disconnected => -1001,
            BinanceErrorCode::TooManyOrders => -1015,
            BinanceErrorCode::ServiceShuttingDown => -1016,
            BinanceErrorCode::UnsupportedOrders => -1020,
            BinanceErrorCode::TimestampNotSynced => -1021,
            BinanceErrorCode::InvalidSignature => -1022,
            BinanceErrorCode::NewOrderRejected => -2010,
            BinanceErrorCode::CancelRejected => -2011,
            BinanceErrorCode::NoSuchOrder => -2013,
            BinanceErrorCode::MarginInsufficient => -2019,
            BinanceErrorCode::ExceedMaxPosition => -2022,
            BinanceErrorCode::InvalidPrice => -4000,
            BinanceErrorCode::InvalidQuantity => -4001,
            BinanceErrorCode::MinNotional => -4003,
            BinanceErrorCode::ReduceOnlyReject => -4131,
            BinanceErrorCode::Other(code) => *code,
        }
    }

    /// Is a retry worthwhile?
    pub fn is_transient(&self) -> (r: bool)
        ensures
            r == self.spec_is_transient(),
    {
        match self {
            BinanceErrorCode::TooManyOrders | BinanceErrorCode::Disconnected
            | BinanceErrorCode::TimestampNotSynced | BinanceErrorCode::ServiceShuttingDown => true,
            _ => false,
        }
    }

    /// Will a retry never help?
    pub fn is_permanent(&self) -> (r: bool)
        ensures
            r == self.spec_is_permanent(),
    {
        match self {
            BinanceErrorCode::MarginInsufficient | BinanceErrorCode::ExceedMaxPosition
            | BinanceErrorCode::InvalidSignature | BinanceErrorCode::MinNotional
            | BinanceErrorCode::InvalidPrice | BinanceErrorCode::InvalidQuantity => true,
            _ => false,
        }
    }

    /// The display text, such as `TOO_MANY_ORDERS(-1015)`.
    pub fn to_display_string(&self) -> (s: String)
        ensures
            s@ == self.spec_text(),
    {
        match self {
            BinanceErrorCode::Unknown => owned("UNKNOWN(-1000)"),
            BinanceErrorCode::Disconnected => owned("DISCONNECTED(-1001)"),
            BinanceErrorCode::TooManyOrders => owned("TOO_MANY_ORDERS(-1015)"),
            BinanceErrorCode::ServiceShuttingDown => owned("SERVICE_SHUTTING_DOWN(-1016)"),
            BinanceErrorCode::UnsupportedOrders => owned("UNSUPPORTED_ORDERS(-1020)"),
            BinanceErrorCode::TimestampNotSynced => owned("TIMESTAMP_NOT_SYNCED(-1021)"),
            BinanceErrorCode::InvalidSignature => owned("INVALID_SIGNATURE(-1022)"),
            BinanceErrorCode::NewOrderRejected => owned("NEW_ORDER_REJECTED(-2010)"),
            BinanceErrorCode::CancelRejected => owned("CANCEL_REJECTED(-2011)"),
            BinanceErrorCode::NoSuchOrder => owned("NO_SUCH_ORDER(-2013)"),
            BinanceErrorCode::MarginInsufficient => owned("MARGIN_INSUFFICIENT(-2019)"),
            BinanceErrorCode::ExceedMaxPosition => owned("EXCEED_MAX_POSITION(-2022)"),
            BinanceErrorCode::InvalidPrice => owned("INVALID_PRICE(-4000)"),
            BinanceErrorCode::InvalidQuantity => owned("INVALID_QUANTITY(-4001)"),
            BinanceErrorCode::MinNotional => owned("MIN_NOTIONAL(-4003)"),
            BinanceErrorCode::ReduceOnlyReject => owned("REDUCE_ONLY_REJECT(-4131)"),
            BinanceErrorCode::Other(code) => {
                let s = join(owned("OTHER("), i64_text(*code).as_str());
                join(s, ")")
            },
        }
    }
}

/// An error from the outside world (`anyhow::Error`), carried through opaquely.
#[verifier::external_type_specification]
#[verifier::external_body]
pub struct ExAnyhowError(anyhow::Error);

/// Formats an `anyhow::Error` with its whole cause chain (`{:#}`). Nothing is claimed
/// of the text.
#[verifier::external_body]
fn error_chain_text(err: &anyhow::Error) -> String {
    format!("{err:#}")
}

/// Typed execution error with what an algorithm needs to recover.
#[derive(Clone, Debug)]
pub enum ExecutionError {
    /// Rate limit hit: back off for `retry_after_secs`.
    RateLimited { code: BinanceErrorCode, message: String, retry_after_secs: u64 },
    /// Order partly filled; the rest needs handling.
    PartialFill {
        filled_qty: Decimal,
        remaining_qty: Decimal,
        fill_price: Decimal,
        commission: Decimal,
        reason: String,
    },
    /// Not enough margin to place the order.
    InsufficientMargin { required: Decimal, available: Decimal },
    /// Order would exceed the maximum position.
    ExceedMaxPosition { current: Decimal, max: Decimal },
    /// Rejected by the exchange.
    Rejected { code: BinanceErrorCode, reason: String },
    /// Spread too wide to execute (basis points).
    SpreadTooWide { spread_bps: Decimal, max_spread_bps: Decimal },
    /// Estimated slippage above the maximum (basis points).
    SlippageExceeded { estimated_bps: Decimal, max_bps: Decimal },
    /// Global kill switch active.
    KillSwitched,
    /// Pre-trade risk check failed.
    RiskCheckFailed { reason: String },
    /// Network or connectivity failure.
    NetworkError { message: String, retry_count: u32 },
    /// Clock out of sync with the server.
    TimestampSync { drift_ms: i64 },
    /// Anything else.
    Unknown { message: String },
}

/// An [`ExecutionError`] with texts and numbers as mathematical values.
pub enum ErrorView {
    RateLimited { code: BinanceErrorCode, message: Seq<char>, retry_after_secs: u64 },
    PartialFill {
        filled_qty: (int, nat),
        remaining_qty: (int, nat),
        fill_price: (int, nat),
        commission: (int, nat),
        reason: Seq<char>,
    },
    InsufficientMargin { required: (int, nat), available: (int, nat) },
    ExceedMaxPosition { current: (int, nat), max: (int, nat) },
    Rejected { code: BinanceErrorCode, reason: Seq<char> },
    SpreadTooWide { spread_bps: (int, nat), max_spread_bps: (int, nat) },
    SlippageExceeded { estimated_bps: (int, nat), max_bps: (int, nat) },
    KillSwitched,
    RiskCheckFailed { reason: Seq<char> },
    NetworkError { message: Seq<char>, retry_count: u32 },
    TimestampSync { drift_ms: i64 },
    Unknown { message: Seq<char> },
}

impl View for ExecutionError {
    type V = ErrorView;

    open spec fn view(&self) -> ErrorView {
        match self {
            ExecutionError::RateLimited { code, message, retry_after_secs } => ErrorView::RateLimited {
                code: *code,
                message: message@,
                retry_after_secs: *retry_after_secs,
            },
            ExecutionError::PartialFill {
                filled_qty,
                remaining_qty,
                fill_price,
                commission,
                reason,
            } => ErrorView::PartialFill {
                filled_qty: filled_qty@,
                remaining_qty: remaining_qty@,
                fill_price: fill_price@,
                commission: commission@,
                reason: reason@,
            },
            ExecutionError::InsufficientMargin { required, available } => ErrorView::InsufficientMargin {
                required: required@,
                available: available@,
            },
            ExecutionError::ExceedMaxPosition { current, max } => ErrorView::ExceedMaxPosition {
                current: current@,
                max: max@,
            },
            ExecutionError::Rejected { code, reason } => ErrorView::Rejected {
                code: *code,
                reason: reason@,
            },
            ExecutionError::SpreadTooWide { spread_bps, max_spread_bps } => ErrorView::SpreadTooWide {
                spread_bps: spread_bps@,
                max_spread_bps: max_spread_bps@,
            },
            ExecutionError::SlippageExceeded { estimated_bps, max_bps } => ErrorView::SlippageExceeded {
                estimated_bps: estimated_bps@,
                max_bps: max_bps@,
            },
            ExecutionError::KillSwitched => ErrorView::KillSwitched,
            ExecutionError::RiskCheckFailed { reason } => ErrorView::RiskCheckFailed { reason: reason@ },
            ExecutionError::NetworkError { message, retry_count } => ErrorView::NetworkError {
                message: message@,
                retry_count: *retry_count,
            },
            ExecutionError::TimestampSync { drift_ms } => ErrorView::TimestampSync { drift_ms: *drift_ms },
            ExecutionError::Unknown { message } => ErrorView::Unknown { message: message@ },
        }
    }
}

/// The number zero as (mantissa, scale).
pub open spec fn zero_parts() -> (int, nat) {
    (0int, 0nat)
}

/// The prefix of an exchange API error message.
pub open spec fn api_prefix() -> Seq<char> {
    "Binance API error: "@
}

/// The separator between code and text in an exchange API error message.
pub open spec fn api_separator() -> Seq<char> {
    " \u{2014} "@
}

/// The code number in an API message: its trimmed text parsed as an integer, else zero.
pub open spec fn code_number_of(s: Seq<char>) -> i64 {
    match spec_parse_int(trimmed(s), i64::MIN as int, i64::MAX as int) {
        Some(v) => v as i64,
        None => 0,
    }
}

/// Code and text of an API message `"Binance API error: <code> — <text>"`; any other
/// message gives the `Unknown` code with the message (after the prefix, if present).
pub open spec fn api_parts(msg: Seq<char>) -> (BinanceErrorCode, Seq<char>) {
    if starts_with(msg, api_prefix()) {
        let rest = msg.skip(api_prefix().len() as int);
        match find(rest, api_separator()) {
            Some(i) => (
                BinanceErrorCode::spec_from_code(code_number_of(rest.take(i))),
                trimmed(rest.skip(i + api_separator().len())),
            ),
            None => (BinanceErrorCode::Unknown, rest),
        }
    } else {
        (BinanceErrorCode::Unknown, msg)
    }
}

/// The error an API message stands for.
pub open spec fn spec_from_binance_api(msg: Seq<char>) -> ErrorView {
    let (code, message) = api_parts(msg);
    match code {
        BinanceErrorCode::TooManyOrders => ErrorView::RateLimited { code, message, retry_after_secs: 10 },
        BinanceErrorCode::Disconnected => ErrorView::NetworkError { message, retry_count: 0 },
        BinanceErrorCode::TimestampNotSynced => ErrorView::TimestampSync { drift_ms: 0 },
        BinanceErrorCode::MarginInsufficient => ErrorView::InsufficientMargin {
            required: zero_parts(),
            available: zero_parts(),
        },
        BinanceErrorCode::ExceedMaxPosition => ErrorView::ExceedMaxPosition {
            current: zero_parts(),
            max: zero_parts(),
        },
        BinanceErrorCode::NewOrderRejected => ErrorView::Rejected { code, reason: message },
        _ => ErrorView::Unknown { message },
    }
}

/// The error a free-form message stands for, by the words it contains.
pub open spec fn spec_from_message(msg: Seq<char>) -> ErrorView {
    if occurs_in(msg, "Binance API error:"@) {
        spec_from_binance_api(msg)
    } else if occurs_in(msg, "kill switch"@) {
        ErrorView::KillSwitched
    } else if occurs_in(msg, "spread"@) && occurs_in(msg, "bps"@) {
        ErrorView::SpreadTooWide { spread_bps: zero_parts(), max_spread_bps: zero_parts() }
    } else if occurs_in(msg, "slippage"@) {
        ErrorView::SlippageExceeded { estimated_bps: zero_parts(), max_bps: zero_parts() }
    } else if occurs_in(msg, "pre-trade"@) || occurs_in(msg, "risk"@) {
        ErrorView::RiskCheckFailed { reason: msg }
    } else if occurs_in(msg, "timeout"@) || occurs_in(msg, "connection"@) {
        ErrorView::NetworkError { message: msg, retry_count: 0 }
    } else {
        ErrorView::Unknown { message: msg }
    }
}

impl ErrorView {
    pub open spec fn is_retryable(self) -> bool {
        ||| self is RateLimited
        ||| self is NetworkError
        ||| self is TimestampSync
        ||| self is SpreadTooWide
    }

    pub open spec fn should_abort(self) -> bool {
        ||| self is KillSwitched
        ||| self is InsufficientMargin
        ||| self is ExceedMaxPosition
        ||| self is RiskCheckFailed
    }

    pub open spec fn should_skip(self) -> bool {
        ||| self is SlippageExceeded
        ||| self is Rejected
        ||| self is Unknown
    }

    /// Suggested wait before a retry, in milliseconds: the exchange's back-off for a
    /// rate limit, 500 ms doubled per earlier attempt (at most 5 doublings) for a
    /// network error, 1 s for a clock drift, 5 s for a wide spread, 2 s otherwise.
    pub open spec fn retry_delay_millis(self) -> int {
        match self {
            ErrorView::RateLimited { retry_after_secs, .. } => retry_after_secs as int * 1000,
            ErrorView::NetworkError { retry_count, .. } => 500 * (vstd::arithmetic::power2::pow2(
                if retry_count < 5 { retry_count as nat } else { 5 },
            ) as int),
            ErrorView::TimestampSync { .. } => 1000int,
            ErrorView::SpreadTooWide { .. } => 5000int,
            _ => 2000int,
        }
    }
}

impl ExecutionError {
    /// Every number it carries is a well-formed decimal.
    pub open spec fn wf(&self) -> bool {
        match self {
            ExecutionError::PartialFill { filled_qty, remaining_qty, fill_price, commission, .. } => {
                filled_qty.wf() && remaining_qty.wf() && fill_price.wf() && commission.wf()
            },
            ExecutionError::InsufficientMargin { required, available } => required.wf()
                && available.wf(),
            ExecutionError::ExceedMaxPosition { current, max } => current.wf() && max.wf(),
            ExecutionError::SpreadTooWide { spread_bps, max_spread_bps } => spread_bps.wf()
                && max_spread_bps.wf(),
            ExecutionError::SlippageExceeded { estimated_bps, max_bps } => estimated_bps.wf()
                && max_bps.wf(),
            _ => true,
        }
    }

    /// Builds the error an exchange API message stands for, such as
    /// `"Binance API error: -1015 — Too many orders"`.
    pub fn from_binance_api(msg: &str) -> (r: ExecutionError)
        ensures
            r@ == spec_from_binance_api(msg@),
            r.wf(),
    {
        let (code, message) = match strip_prefix(msg, "Binance API error: ") {
            Some(rest) => {
                let parts = split_once(rest.as_str(), " \u{2014} ");
                match parts {
                    Some(p) => {
                        let code_text = p.0;
                        let text = p.1;
                        let number = match parse_i64(trim(code_text.as_str())) {
                            Some(v) => v,
                            None => 0,
                        };
                        let m = owned(trim(text.as_str()));
                        (BinanceErrorCode::from_code(number), m)
                    },
                    None => (BinanceErrorCode::Unknown, rest),
                }
            },
            None => (BinanceErrorCode::Unknown, owned(msg)),
        };
        match code {
            BinanceErrorCode::TooManyOrders => ExecutionError::RateLimited {
                code,
                message,
                retry_after_secs: 10,
            },
            BinanceErrorCode::Disconnected => ExecutionError::NetworkError { message, retry_count: 0 },
            BinanceErrorCode::TimestampNotSynced => ExecutionError::TimestampSync { drift_ms: 0 },
            BinanceErrorCode::MarginInsufficient => ExecutionError::InsufficientMargin {
                required: Decimal::zero(),
                available: Decimal::zero(),
            },
            BinanceErrorCode::ExceedMaxPosition => ExecutionError::ExceedMaxPosition {
                current: Decimal::zero(),
                max: Decimal::zero(),
            },
            BinanceErrorCode::NewOrderRejected => ExecutionError::Rejected { code, reason: message },
            _ => ExecutionError::Unknown { message },
        }
    }

    /// Builds the error a free-form message stands for, by the words it contains.
    pub fn from_message(msg: &str) -> (r: ExecutionError)
        ensures
            r@ == spec_from_message(msg@),
            r.wf(),
    {
        if contains(msg, "Binance API error:") {
            ExecutionError::from_binance_api(msg)
        } else if contains(msg, "kill switch") {
            ExecutionError::KillSwitched
        } else if contains(msg, "spread") && contains(msg, "bps") {
            ExecutionError::SpreadTooWide {
                spread_bps: Decimal::zero(),
                max_spread_bps: Decimal::zero(),
            }
        } else if contains(msg, "slippage") {
            ExecutionError::SlippageExceeded { estimated_bps: Decimal::zero(), max_bps: Decimal::zero() }
        } else if contains(msg, "pre-trade") || contains(msg, "risk") {
            ExecutionError::RiskCheckFailed { reason: owned(msg) }
        } else if contains(msg, "timeout") || contains(msg, "connection") {
            ExecutionError::NetworkError { message: owned(msg), retry_count: 0 }
        } else {
            ExecutionError::Unknown { message: owned(msg) }
        }
    }

    /// Builds the error an `anyhow::Error` stands for, from its message with the whole
    /// cause chain.
    pub fn from_anyhow(err: &anyhow::Error) -> (r: ExecutionError)
        ensures
            exists|m: Seq<char>| r@ == spec_from_message(m),
            r.wf(),
    {
        let text = error_chain_text(err);
        ExecutionError::from_message(text.as_str())
    }

    /// Can the same slice be tried again?
    pub fn is_retryable(&self) -> (r: bool)
        ensures
            r == self@.is_retryable(),
    {
        match self {
            ExecutionError::RateLimited { .. } | ExecutionError::NetworkError { .. }
            | ExecutionError::TimestampSync { .. } | ExecutionError::SpreadTooWide { .. } => true,
            _ => false,
        }
    }

    /// Must the whole execution stop?
    pub fn should_abort(&self) -> (r: bool)
        ensures
            r == self@.should_abort(),
    {
        match self {
            ExecutionError::KillSwitched | ExecutionError::InsufficientMargin { .. }
            | ExecutionError::ExceedMaxPosition { .. } | ExecutionError::RiskCheckFailed { .. } => true,
            _ => false,
        }
    }

    /// Should this slice be dropped and the next one taken?
    pub fn should_skip(&self) -> (r: bool)
        ensures
            r == self@.should_skip(),
    {
        match self {
            ExecutionError::SlippageExceeded { .. } | ExecutionError::Rejected { .. }
            | ExecutionError::Unknown { .. } => true,
            _ => false,
        }
    }

    /// Is this a partial fill whose rest needs handling?
    pub fn is_partial_fill(&self) -> (r: bool)
        ensures
            r == self@ is PartialFill,
    {
        match self {
            ExecutionError::PartialFill { .. } => true,
            _ => false,
        }
    }

    /// Suggested wait before retrying, in milliseconds.
    pub fn retry_delay_millis(&self) -> (r: u128)
        ensures
            r as int == self@.retry_delay_millis(),
    {
        match self {
            ExecutionError::RateLimited { retry_after_secs, .. } => (*retry_after_secs as u128) * 1000,
            ExecutionError::NetworkError { retry_count, .. } => {
                let n: u32 = if *retry_count < 5 { *retry_count } else { 5 };
                let mut factor: u128 = 1;
                let mut i: u32 = 0;
                proof {
                    vstd::arithmetic::power2::lemma2_to64();
                }
                while i < n
                    invariant
                        i <= n <= 5,
                        factor == vstd::arithmetic::power2::pow2(i as nat),
                    decreases n - i,
                {
                    proof {
                        vstd::arithmetic::power2::lemma2_to64();
                    }
                    factor = factor * 2;
                    i = i + 1;
                }
                500 * factor
            },
            ExecutionError::TimestampSync { .. } => 1000,
            ExecutionError::SpreadTooWide { .. } => 5000,
            _ => 2000,
        }
    }
}

/// The display text of an error.
pub open spec fn spec_error_text(e: ErrorView) -> Seq<char> {
    match e {
        ErrorView::RateLimited { code, retry_after_secs, .. } => "RATE_LIMITED("@ + code.spec_text()
            + ", retry after "@ + int_text(retry_after_secs as int) + "s)"@,
        ErrorView::PartialFill { filled_qty, remaining_qty, fill_price, .. } => "PARTIAL_FILL(got "@
            + decimal_text(filled_qty) + " @ "@ + decimal_text(fill_price) + ", remaining "@
            + decimal_text(remaining_qty) + ")"@,
        ErrorView::InsufficientMargin { required, available } => "INSUFFICIENT_MARGIN(need "@
            + decimal_text(required) + ", have "@ + decimal_text(available) + ")"@,
        ErrorView::ExceedMaxPosition { current, max } => "EXCEED_MAX_POSITION(have "@ + decimal_text(
            current,
        ) + ", max "@ + decimal_text(max) + ")"@,
        ErrorView::Rejected { code, reason } => "REJECTED("@ + code.spec_text() + ": "@ + reason
            + ")"@,
        ErrorView::SpreadTooWide { spread_bps, max_spread_bps } => "SPREAD_TOO_WIDE("@
            + decimal_text_places(round_one_place_parts(spread_bps), 1) + "bps > "@ + decimal_text_places(round_one_place_parts(max_spread_bps), 1)
            + "bps)"@,
        ErrorView::SlippageExceeded { estimated_bps, max_bps } => "SLIPPAGE_EXCEEDED("@
            + decimal_text_places(round_one_place_parts(estimated_bps), 1) + "bps > "@ + decimal_text_places(round_one_place_parts(max_bps), 1)
            + "bps)"@,
        ErrorView::KillSwitched => "KILL_SWITCHED"@,
        ErrorView::RiskCheckFailed { reason } => "RISK_CHECK_FAILED("@ + reason + ")"@,
        ErrorView::NetworkError { message, retry_count } => "NETWORK_ERROR(retry #"@ + int_text(
            retry_count as int,
        ) + ": "@ + message + ")"@,
        ErrorView::TimestampSync { drift_ms } => "TIMESTAMP_SYNC(drift "@ + int_text(drift_ms as int)
            + "ms)"@,
        ErrorView::Unknown { message } => "UNKNOWN("@ + message + ")"@,
    }
}

impl ExecutionError {
    /// The display text, such as `RATE_LIMITED(TOO_MANY_ORDERS(-1015), retry after 10s)`.
    pub fn to_display_string(&self) -> (s: String)
        requires
            self.wf(),
        ensures
            s@ == spec_error_text(self@),
    {
        match self {
            ExecutionError::RateLimited { code, retry_after_secs, .. } => {
                let s = join(owned("RATE_LIMITED("), code.to_display_string().as_str());
                let s = join(s, ", retry after ");
                let s = join(s, u64_text(*retry_after_secs).as_str());
                join(s, "s)")
            },
            ExecutionError::PartialFill { filled_qty, remaining_qty, fill_price, .. } => {
                let s = join(owned("PARTIAL_FILL(got "), to_text(*filled_qty).as_str());
                let s = join(s, " @ ");
                let s = join(s, to_text(*fill_price).as_str());
                let s = join(s, ", remaining ");
                let s = join(s, to_text(*remaining_qty).as_str());
                join(s, ")")
            },
            ExecutionError::InsufficientMargin { required, available } => {
                let s = join(owned("INSUFFICIENT_MARGIN(need "), to_text(*required).as_str());
                let s = join(s, ", have ");
                let s = join(s, to_text(*available).as_str());
                join(s, ")")
            },
            ExecutionError::ExceedMaxPosition { current, max } => {
                let s = join(owned("EXCEED_MAX_POSITION(have "), to_text(*current).as_str());
                let s = join(s, ", max ");
                let s = join(s, to_text(*max).as_str());
                join(s, ")")
            },
            ExecutionError::Rejected { code, reason } => {
                let s = join(owned("REJECTED("), code.to_display_string().as_str());
                let s = join(s, ": ");
                let s = join(s, reason.as_str());
                join(s, ")")
            },
            ExecutionError::SpreadTooWide { spread_bps, max_spread_bps } => {
                let s = join(owned("SPREAD_TOO_WIDE("), to_text_places(round_one_place(*spread_bps), 1).as_str());
                let s = join(s, "bps > ");
                let s = join(s, to_text_places(round_one_place(*max_spread_bps), 1).as_str());
                join(s, "bps)")
            },
            ExecutionError::SlippageExceeded { estimated_bps, max_bps } => {
                let s = join(owned("SLIPPAGE_EXCEEDED("), to_text_places(round_one_place(*estimated_bps), 1).as_str());
                let s = join(s, "bps > ");
                let s = join(s, to_text_places(round_one_place(*max_bps), 1).as_str());
                join(s, "bps)")
            },
            ExecutionError::KillSwitched => owned("KILL_SWITCHED"),
            ExecutionError::RiskCheckFailed { reason } => {
                let s = join(owned("RISK_CHECK_FAILED("), reason.as_str());
                join(s, ")")
            },
            ExecutionError::NetworkError { message, retry_count } => {
                let s = join(owned("NETWORK_ERROR(retry #"), u64_text(*retry_count as u64).as_str());
                let s = join(s, ": ");
                let s = join(s, message.as_str());
                join(s, ")")
            },
            ExecutionError::TimestampSync { drift_ms } => {
                let s = join(owned("TIMESTAMP_SYNC(drift "), i64_text(*drift_ms).as_str());
                join(s, "ms)")
            },
            ExecutionError::Unknown { message } => {
                let s = join(owned("UNKNOWN("), message.as_str());
                join(s, ")")
            },
        }
    }
}

/// What to do after an execution error.
#[derive(Clone, Copy, Debug, PartialEq, Eq, Structural)]
pub enum ErrorDecision {
    /// Try the same slice again after `delay_ms`.
    Retry { delay_ms: u64, max_retries: u32 },
    /// Drop this slice and go on.
    Skip,
    /// Stop the whole execution.
    Abort,
}

/// The policy: abort on abort-worthy errors; partial fills are handled elsewhere
/// (skip); retry a retryable error while retries remain, abort once they are used up;
/// skip skippable errors; abort on anything else. The delay is the suggested one in
/// milliseconds, truncated to 64 bits.
pub open spec fn spec_decide(e: ErrorView, retry_count: u32, max_retries: u32) -> ErrorDecision {
    if e.should_abort() {
        ErrorDecision::Abort
    } else if e is PartialFill {
        ErrorDecision::Skip
    } else if e.is_retryable() && retry_count < max_retries {
        ErrorDecision::Retry { delay_ms: e.retry_delay_millis() as u64, max_retries }
    } else if e.is_retryable() {
        ErrorDecision::Abort
    } else if e.should_skip() {
        ErrorDecision::Skip
    } else {
        ErrorDecision::Abort
    }
}

/// Decide what to do with an execution error on the `retry_count`-th attempt.
pub fn decide(error: &ExecutionError, retry_count: u32, max_retries: u32) -> (r: ErrorDecision)
    ensures
        r == spec_decide(error@, retry_count, max_retries),
{
    if error.should_abort() {
        return ErrorDecision::Abort;
    }
    if error.is_partial_fill() {
        return ErrorDecision::Skip;
    }
    if error.is_retryable() && retry_count < max_retries {
        let delay = error.retry_delay_millis();
        return ErrorDecision::Retry { delay_ms: delay as u64, max_retries };
    }
    if error.is_retryable() && retry_count >= max_retries {
        return ErrorDecision::Abort;
    }
    if error.should_skip() {
        return ErrorDecision::Skip;
    }
    ErrorDecision::Abort
}

/// Ways to handle the unfilled rest of a partial fill.
#[derive(Clone, Copy, Debug, PartialEq, Eq, Structural)]
pub enum PartialFillStrategy {
    /// Send a market order for the rest at once.
    MarketRest,
    /// Send a limit order for the rest at the price of the first fill.
    LimitRest,
    /// Keep the partial fill and move on.
    AcceptAndMove,
    /// Cancel the rest and send the full original quantity again as a market order.
    RetryFull,
}

/// The order that recovers the rest of a partial fill.
#[derive(Clone, Copy, Debug)]
pub enum RecoveryOrder {
    Market { qty: Decimal },
    Limit { qty: Decimal, price: Decimal },
}

/// What came of the recovery order.
#[derive(Clone, Copy, Debug)]
pub enum RecoveryOutcome {
    /// No order was sent.
    NotPlaced,
    /// The order failed.
    Failed,
    /// The order filled.
    Filled(Fill),
}

/// The outcome of handling a partial fill.
#[derive(Clone, Copy, Debug)]
pub struct PartialFillResult {
    pub initial_fill_qty: Decimal,
    pub initial_fill_price: Decimal,
    pub strategy: PartialFillStrategy,
    /// Quantity filled after recovery.
    pub total_filled_qty: Decimal,
    /// Volume-weighted price over all fills.
    pub total_vwap: Decimal,
    pub total_commission: Decimal,
    /// Recovery orders sent (0 or 1).
    pub recovery_attempts: usize,
    /// Was the whole original quantity filled?
    pub fully_filled: bool,
}

/// The numbers of a [`PartialFillResult`].
pub struct PartialFillView {
    pub total_filled: (int, nat),
    pub total_vwap: (int, nat),
    pub total_commission: (int, nat),
    pub recovery_attempts: nat,
    pub fully_filled: bool,
}

impl PartialFillResult {
    pub open spec fn numbers(self) -> PartialFillView {
        PartialFillView {
            total_filled: self.total_filled_qty@,
            total_vwap: self.total_vwap@,
            total_commission: self.total_commission@,
            recovery_attempts: self.recovery_attempts as nat,
            fully_filled: self.fully_filled,
        }
    }
}

/// The recovery order for a partial fill: none when nothing remains or the strategy
/// accepts the partial fill; a market order for the rest (`MarketRest`); a market order
/// for the whole original quantity (`RetryFull`); a limit order for the rest at the first
/// fill's price (`LimitRest`). The outer `None` means the remainder overflowed.
pub open spec fn spec_recovery(
    original: (int, nat),
    filled: (int, nat),
    price: (int, nat),
    strategy: PartialFillStrategy,
) -> Option<Option<((int, nat), Option<(int, nat)>)>> {
    match decimal_checked_sub(original, filled) {
        None => None,
        Some(remaining) => if value_of(remaining) <= 0 || strategy == PartialFillStrategy::AcceptAndMove {
            Some(None)
        } else if strategy == PartialFillStrategy::LimitRest {
            Some(Some((remaining, Some(price))))
        } else if strategy == PartialFillStrategy::RetryFull {
            Some(Some((original, None)))
        } else {
            Some(Some((remaining, None)))
        },
    }
}

/// The (quantity, optional limit price) of a recovery order.
pub open spec fn recovery_view(o: RecoveryOrder) -> ((int, nat), Option<(int, nat)>) {
    match o {
        RecoveryOrder::Market { qty } => (qty@, None),
        RecoveryOrder::Limit { qty, price } => (qty@, Some(price@)),
    }
}

/// Which order, if any, should recover a partial fill (see [`spec_recovery`]).
pub fn partial_fill_recovery(
    original_qty: Decimal,
    filled_qty: Decimal,
    fill_price: Decimal,
    strategy: PartialFillStrategy,
) -> (r: Option<Option<RecoveryOrder>>)
    requires
        original_qty.wf(),
        filled_qty.wf(),
        fill_price.wf(),
    ensures
        match r {
            None => spec_recovery(original_qty@, filled_qty@, fill_price@, strategy) is None,
            Some(None) => spec_recovery(original_qty@, filled_qty@, fill_price@, strategy) == Some(
                Option::<((int, nat), Option<(int, nat)>)>::None,
            ),
            Some(Some(o)) => spec_recovery(original_qty@, filled_qty@, fill_price@, strategy) == Some(
                Some(recovery_view(o)),
            ),
        },
{
    let remaining = match checked_sub(original_qty, filled_qty) {
        Some(r) => r,
        None => return None,
    };
    if !less_than(Decimal::zero(), remaining) {
        return Some(None);
    }
    match strategy {
        PartialFillStrategy::AcceptAndMove => Some(None),
        PartialFillStrategy::LimitRest => Some(Some(RecoveryOrder::Limit { qty: remaining, price: fill_price })),
        PartialFillStrategy::MarketRest => Some(Some(RecoveryOrder::Market { qty: remaining })),
        PartialFillStrategy::RetryFull => Some(Some(RecoveryOrder::Market { qty: original_qty })),
    }
}

/// The amounts a recovery outcome adds: a filled recovery order adds its fill when
/// the strategy sends one.
pub open spec fn recovered_fill(strategy: PartialFillStrategy, outcome: RecoveryOutcome) -> Option<Fill> {
    match outcome {
        RecoveryOutcome::Filled(f) => if strategy == PartialFillStrategy::AcceptAndMove {
            None
        } else {
            Some(f)
        },
        _ => None,
    }
}

/// The result of handling a partial fill given what came of the recovery order.
/// When nothing remained: the first fill alone, fully filled, no attempt. Otherwise the
/// totals start from the first fill (commission zero) and add the recovered fill;
/// one attempt unless the strategy accepts the partial fill; fully filled when the
/// total reaches the original quantity.
pub open spec fn spec_finish_partial_fill(
    original: (int, nat),
    filled: (int, nat),
    price: (int, nat),
    strategy: PartialFillStrategy,
    outcome: RecoveryOutcome,
) -> Option<PartialFillView> {
    match decimal_checked_sub(original, filled) {
        None => None,
        Some(remaining) => if value_of(remaining) <= 0 {
            Some(
                PartialFillView {
                    total_filled: filled,
                    total_vwap: price,
                    total_commission: (0int, 0nat),
                    recovery_attempts: 0,
                    fully_filled: true,
                },
            )
        } else {
            match decimal_checked_mul(price, filled) {
                None => None,
                Some(notional0) => {
                    let totals: Option<((int, nat), (int, nat), (int, nat))> = match recovered_fill(
                        strategy,
                        outcome,
                    ) {
                        None => Some((filled, notional0, (0int, 0nat))),
                        Some(f) => match decimal_checked_add(filled, f.qty@) {
                            None => None,
                            Some(tf) => match decimal_checked_mul(f.price@, f.qty@) {
                                None => None,
                                Some(n) => match decimal_checked_add(notional0, n) {
                                    None => None,
                                    Some(tn) => match decimal_checked_add((0int, 0nat), f.commission@) {
                                        None => None,
                                        Some(tc) => Some((tf, tn, tc)),
                                    },
                                },
                            },
                        },
                    };
                    match totals {
                        None => None,
                        Some((tf, tn, tc)) => match spec_vwap_or(tn, tf, price) {
                            None => None,
                            Some(vwap) => Some(
                                PartialFillView {
                                    total_filled: tf,
                                    total_vwap: vwap,
                                    total_commission: tc,
                                    recovery_attempts: if strategy
                                        == PartialFillStrategy::AcceptAndMove {
                                        0
                                    } else {
                                        1
                                    },
                                    fully_filled: value_of(original) <= value_of(tf),
                                },
                            ),
                        },
                    }
                },
            }
        },
    }
}

/// Completes the handling of a partial fill once the recovery order (if any) is done.
pub fn finish_partial_fill(
    original_qty: Decimal,
    filled_qty: Decimal,
    fill_price: Decimal,
    strategy: PartialFillStrategy,
    outcome: RecoveryOutcome,
) -> (r: Option<PartialFillResult>)
    requires
        original_qty.wf(),
        filled_qty.wf(),
        fill_price.wf(),
        outcome matches RecoveryOutcome::Filled(f) ==> f.wf(),
    ensures
        match r {
            Some(res) => {
                &&& spec_finish_partial_fill(original_qty@, filled_qty@, fill_price@, strategy, outcome)
                    == Some(res.numbers())
                &&& res.initial_fill_qty == filled_qty
                &&& res.initial_fill_price == fill_price
                &&& res.strategy == strategy
            },
            None => spec_finish_partial_fill(
                original_qty@,
                filled_qty@,
                fill_price@,
                strategy,
                outcome,
            ) is None,
        },
{
    let remaining = match checked_sub(original_qty, filled_qty) {
        Some(r) => r,
        None => return None,
    };
    if !less_than(Decimal::zero(), remaining) {
        return Some(
            PartialFillResult {
                initial_fill_qty: filled_qty,
                initial_fill_price: fill_price,
                strategy,
                total_filled_qty: filled_qty,
                total_vwap: fill_price,
                total_commission: Decimal::zero(),
                recovery_attempts: 0,
                fully_filled: true,
            },
        );
    }
    let notional0 = match checked_mul(fill_price, filled_qty) {
        Some(n) => n,
        None => return None,
    };
    let recovered = match outcome {
        RecoveryOutcome::Filled(f) => match strategy {
            PartialFillStrategy::AcceptAndMove => None,
            _ => Some(f),
        },
        _ => None,
    };
    let (total_filled, total_notional, total_commission) = match recovered {
        None => (filled_qty, notional0, Decimal::zero()),
        Some(f) => {
            let tf = match checked_add(filled_qty, f.qty) {
                Some(v) => v,
                None => return None,
            };
            let n = match checked_mul(f.price, f.qty) {
                Some(v) => v,
                None => return None,
            };
            let tn = match checked_add(notional0, n) {
                Some(v) => v,
                None => return None,
            };
            let tc = match checked_add(Decimal::zero(), f.commission) {
                Some(v) => v,
                None => return None,
            };
            (tf, tn, tc)
        },
    };
    let total_vwap = match vwap_or(total_notional, total_filled, fill_price) {
        Some(v) => v,
        None => return None,
    };
    let attempts: usize = match strategy {
        PartialFillStrategy::AcceptAndMove => 0,
        _ => 1,
    };
    Some(
        PartialFillResult {
            initial_fill_qty: filled_qty,
            initial_fill_price: fill_price,
            strategy,
            total_filled_qty: total_filled,
            total_vwap,
            total_commission,
            recovery_attempts: attempts,
            fully_filled: !less_than(total_filled, original_qty),
        },
    )
}

/// What handling a partial fill adds up, wherever `rust_decimal` computes exactly, when
/// something was left to fill: a recovery order that filled (any strategy but
/// accepting the partial fill) adds its quantity to the first fill and its commission
/// to zero, counts one attempt, and the result is fully filled exactly when the total
/// reaches the original quantity; accepting the partial fill keeps the first fill alone,
/// with no attempt, not fully filled; a recovery that did not fill leaves the first
/// fill alone, not fully filled.
pub proof fn lemma_partial_fill_totals(
    original: (int, nat),
    filled: (int, nat),
    price: (int, nat),
    strategy: PartialFillStrategy,
    outcome: RecoveryOutcome,
)
    requires
        spec_finish_partial_fill(original, filled, price, strategy, outcome) is Some,
        sub_is_exact(original, filled),
        value_of(filled) < value_of(original),
    ensures
        ({
            let v = spec_finish_partial_fill(original, filled, price, strategy, outcome).unwrap();
            &&& outcome matches RecoveryOutcome::Filled(f) ==> (strategy != PartialFillStrategy::AcceptAndMove
                && add_is_exact(filled, f.qty@) && add_is_exact((0int, 0nat), f.commission@) ==> {
                &&& value_of(v.total_filled) == value_of(filled) + value_of(f.qty@)
                &&& value_of(v.total_commission) == value_of(f.commission@)
                &&& v.recovery_attempts == 1
                &&& v.fully_filled <==> value_of(original) <= value_of(filled) + value_of(f.qty@)
            })
            &&& strategy == PartialFillStrategy::AcceptAndMove ==> {
                &&& v.total_filled == filled
                &&& v.total_commission == (0int, 0nat)
                &&& v.recovery_attempts == 0
                &&& !v.fully_filled
            }
            &&& !(outcome is Filled) ==> {
                &&& v.total_filled == filled
                &&& !v.fully_filled
                &&& v.recovery_attempts == if strategy == PartialFillStrategy::AcceptAndMove {
                    0nat
                } else {
                    1nat
                }
            }
        }),
{
}

/// An exchange API message `"Binance API error: <code> — <text>"` is classified by its
/// code, as the exchange documents it: -2019 (margin insufficient) and -2022 (exceeds
/// the maximum position) are the abort-worthy errors; -1015 is a rate limit (retry
/// after 10 s), -1001 a network error, -1021 a clock drift, -2010 a rejected order;
/// any other code is an unknown error carrying the trimmed text.
pub proof fn lemma_api_message_by_code(code: i64, text: Seq<char>)
    ensures
        ({
            let e = spec_from_binance_api(api_prefix() + int_text(code as int) + api_separator() + text);
            let t = trimmed(text);
            &&& code == -2019 ==> e == ErrorView::InsufficientMargin {
                required: zero_parts(),
                available: zero_parts(),
            }
            &&& code == -2022 ==> e == ErrorView::ExceedMaxPosition {
                current: zero_parts(),
                max: zero_parts(),
            }
            &&& code == -1015 ==> e == ErrorView::RateLimited {
                code: BinanceErrorCode::TooManyOrders,
                message: t,
                retry_after_secs: 10,
            }
            &&& code == -1001 ==> e == ErrorView::NetworkError { message: t, retry_count: 0 }
            &&& code == -1021 ==> e == ErrorView::TimestampSync { drift_ms: 0 }
            &&& code == -2010 ==> e == ErrorView::Rejected {
                code: BinanceErrorCode::NewOrderRejected,
                reason: t,
            }
            &&& !(code == -2019 || code == -2022 || code == -1015 || code == -1001 || code == -1021
                || code == -2010) ==> e == ErrorView::Unknown { message: t }
            &&& e.should_abort() <==> (code == -2019 || code == -2022)
        }),
{
    reveal_strlit("Binance API error: ");
    reveal_strlit(" \u{2014} ");
    let pre = api_prefix();
    let sep = api_separator();
    let t = int_text(code as int);
    lemma_int_text_reads_back(code as int, i64::MIN as int, i64::MAX as int);
    let msg = pre + t + sep + text;
    assert(msg.subrange(0, pre.len() as int) =~= pre);
    assert(starts_with(msg, pre));
    let rest = msg.skip(pre.len() as int);
    assert(rest =~= t + sep + text);
    assert(rest.subrange(t.len() as int, (t.len() + sep.len()) as int) =~= sep);
    assert(occurs_at(rest, sep, t.len() as int));
    assert forall|m: int| 0 <= m < t.len() implies !occurs_at(rest, sep, m) by {
        if occurs_at(rest, sep, m) {
            assert(rest.subrange(m, m + sep.len())[0] == rest[m]);
            assert(rest[m] == t[m]);
            assert(sep[0] == ' ');
            assert(is_digit(t[m]) || t[m] == '-');
        }
    }
    lemma_find_from_first(rest, sep, 0, t.len() as int);
    assert(rest.take(t.len() as int) =~= t);
    assert(rest.skip((t.len() + sep.len()) as int) =~= text);
    assert(code_number_of(t) == code);
}

/// Every number comes back unchanged through its code.
pub proof fn lemma_code_number_round_trip(code: i64)
    ensures
        BinanceErrorCode::spec_from_code(code).spec_number() == code as int,
{
}

/// `t` is the end of `s`.
pub open spec fn ends_with(s: Seq<char>, t: Seq<char>) -> bool {
    s.len() >= t.len() && s.skip(s.len() - t.len()) == t
}

/// The numbers that have a code of their own.
pub open spec fn is_known_code(code: i64) -> bool {
    code == -1000 || code == -1001 || code == -1015 || code == -1016 || code == -1020 || code
        == -1021 || code == -1022 || code == -2010 || code == -2011 || code == -2013 || code
        == -2019 || code == -2022 || code == -4000 || code == -4001 || code == -4003 || code == -4131
}

/// The display text of every number's code ends with the number in brackets; a number
/// is `Other` exactly when it is none of the sixteen documented ones; and different
/// numbers never share a code.
pub proof fn lemma_code_display(code: i64, other: i64)
    ensures
        ends_with(
            BinanceErrorCode::spec_from_code(code).spec_text(),
            "("@ + int_text(code as int) + ")"@,
        ),
        BinanceErrorCode::spec_from_code(code) is Other <==> !is_known_code(code),
        code != other ==> BinanceErrorCode::spec_from_code(code) != BinanceErrorCode::spec_from_code(
            other,
        ),
{
    lemma_code_number_round_trip(code);
    lemma_code_number_round_trip(other);
    let t = BinanceErrorCode::spec_from_code(code).spec_text();
    let tail = "("@ + int_text(code as int) + ")"@;
    reveal_strlit("(");
    reveal_strlit(")");
    if is_known_code(code) {
        reveal_with_fuel(nat_text, 5);
        reveal_strlit("UNKNOWN(-1000)");
        reveal_strlit("DISCONNECTED(-1001)");
        reveal_strlit("TOO_MANY_ORDERS(-1015)");
        reveal_strlit("SERVICE_SHUTTING_DOWN(-1016)");
        reveal_strlit("UNSUPPORTED_ORDERS(-1020)");
        reveal_strlit("TIMESTAMP_NOT_SYNCED(-1021)");
        reveal_strlit("INVALID_SIGNATURE(-1022)");
        reveal_strlit("NEW_ORDER_REJECTED(-2010)");
        reveal_strlit("CANCEL_REJECTED(-2011)");
        reveal_strlit("NO_SUCH_ORDER(-2013)");
        reveal_strlit("MARGIN_INSUFFICIENT(-2019)");
        reveal_strlit("EXCEED_MAX_POSITION(-2022)");
        reveal_strlit("INVALID_PRICE(-4000)");
        reveal_strlit("INVALID_QUANTITY(-4001)");
        reveal_strlit("MIN_NOTIONAL(-4003)");
        reveal_strlit("REDUCE_ONLY_REJECT(-4131)");
        let n = (-(code as int)) as nat;
        assert(nat_text(n) =~= seq![
            digit_char((n / 1000) as int),
            digit_char(((n / 100) % 10) as int),
            digit_char(((n / 10) % 10) as int),
            digit_char((n % 10) as int),
        ]);
        assert(t.skip(t.len() - tail.len()) =~= tail);
    } else {
        reveal_strlit("OTHER(");
        assert(t.skip(t.len() - tail.len()) =~= tail);
    }
}

/// No code is both transient and permanent.
pub proof fn lemma_transient_permanent_disjoint(c: BinanceErrorCode)
    ensures
        !(c.spec_is_transient() && c.spec_is_permanent()),
{
}


/// The retry policy: an abort-worthy error always aborts; a retry is only ever
/// decided for a retryable error while attempts remain, and it carries the caller's
/// retry limit; once the attempts are used up nothing is retried.
pub proof fn lemma_decide_policy(e: ErrorView, retry_count: u32, max_retries: u32)
    ensures
        e.should_abort() ==> spec_decide(e, retry_count, max_retries) == ErrorDecision::Abort,
        spec_decide(e, retry_count, max_retries) matches ErrorDecision::Retry { max_retries: m, .. }
            ==> e.is_retryable() && retry_count < max_retries && m == max_retries,
        retry_count >= max_retries ==> !(spec_decide(e, retry_count, max_retries) is Retry),
        e.is_retryable() && retry_count < max_retries ==> (spec_decide(e, retry_count, max_retries)
            is Retry || e.should_abort()),
{
}

/// The two halves of partial-fill handling agree: a recovery order is planned
/// exactly when the result counts one recovery attempt; a partial fill that left
/// nothing to fill is reported fully filled with no attempt, and accepting the
/// partial fill never counts an attempt.
pub proof fn lemma_recovery_attempts_agree(
    original: (int, nat),
    filled: (int, nat),
    price: (int, nat),
    strategy: PartialFillStrategy,
    outcome: RecoveryOutcome,
)
    requires
        spec_finish_partial_fill(original, filled, price, strategy, outcome) is Some,
    ensures
        ({
            let res = spec_finish_partial_fill(original, filled, price, strategy, outcome).unwrap();
            let plan = spec_recovery(original, filled, price, strategy);
            &&& res.recovery_attempts <= 1
            &&& plan is Some
            &&& (res.recovery_attempts == 1 <==> plan.unwrap() is Some)
            &&& strategy == PartialFillStrategy::AcceptAndMove ==> res.recovery_attempts == 0
            &&& value_of(decimal_checked_sub(original, filled).unwrap()) <= 0 ==> (res.fully_filled
                && res.recovery_attempts == 0)
        }),
{
}

} // verus!
