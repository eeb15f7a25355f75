# bonbo_executor

An order-execution toolkit for crypto futures whose decision logic is verified with
Verus: order-book arithmetic, exchange error policy, risk limits, a trade saga with
compensation, request routing and rate limiting for a tool server, and the bookkeeping
of sliced executions.

## Layout

- `src/` — the verified library. Decimal amounts are `rust_decimal` values, called
  through small trusted wrappers whose contracts are stated in `src/decimal.rs`;
  everything above them is proved against those contracts.
  - `decimal`, `text`: trusted wrappers over `rust_decimal` and `str`.
  - `orderbook`, `depth`: book snapshots, best prices, slippage walks, depth parsing
    with a verified stable sort of price levels.
  - `execution_errors`: exchange error codes, retry/skip/abort policy, partial-fill
    recovery.
  - `risk_guards`, `idempotency`, `mcp`, `registry`: risk limits and the kill switch,
    duplicate-order guard, JSON-RPC routing and per-tool rate limiting, the plugin
    registry.
  - `saga`: entry / stop-loss / take-profit as a state machine that compensates every
    placed order on failure.
  - `fills`, `twap`, `slice_gate`, `slicer`, `vwap`, `ofi`, `flash_limit`,
    `smart_market`, `execution_algo`, `smart_execution`, `async_dispatcher`: the
    integer and decimal parts of the execution algorithms (fill totals, slice clamps,
    pre-slice gate decisions, slice and signal histories, tick rounding, batch
    accounting).
- `app/` — the binary around the library: the MCP server (stdio and HTTP), the
  asynchronous execution loops, and the floating-point market models (basis points,
  impact estimates, volume profiles, trajectories), none of which Verus checks.
- `tests/` — tests of the library's public functions.
