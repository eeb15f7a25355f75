//! Verified core of an order-execution toolkit.
pub mod decimal;
pub mod orderbook;
pub mod depth;
pub mod text;
pub mod execution_errors;
pub mod fills;
pub mod twap;
pub mod risk_guards;
pub mod registry;
pub mod mcp;
pub mod idempotency;
pub mod async_dispatcher;
pub mod saga;
pub mod ofi;
pub mod smart_market;
pub mod flash_limit;
pub mod execution_algo;
pub mod smart_execution;
pub mod slicer;
pub mod vwap;
pub mod slice_gate;
