# penny_scalper

Decision core of a penny-stock scalping engine, written in Verus: every
decision the engine takes about orders, risk, the watchlist and market data is
a function with a contract, and Verus proves the code against it.

## Layout

- `src/` — the verified library.
  - `types`, `events`: the domain records. Prices travel as `OrdKey`, the
    order-preserving key of an IEEE-754 double, so that comparisons are exact
    and provable; arithmetic on the doubles stays with the caller.
  - `oms`: order lifecycle, idempotent placement, fills, the cancel state
    machine with its timeouts, and reconciliation with the broker.
  - `watchlist`, `context`, `mtf`, `regime`: the slow loop's tiers, daily
    context, multi-timeframe confirmation and market regime.
  - `entry`, `guards`, `risk`, `exposure`, `pdt`, `session`, `blocklist`,
    `calendar`: the fast loop's locked gate sequence and the risk rules behind
    it.
  - `control`, `latency`, `metrics`, `alerts`, `time_buffer`, `replay`,
    `auth`, `locale`: supervision, bookkeeping and the dashboard's token check.
  - Public proof functions named `law_*` state the properties that hold across
    calls (idempotency, latches, bounds, conservation of shares).
- `tests/` — tests of the library on concrete values.
- `app/` — the executable around the library: the Unix-socket bridge reader,
  the tokio task graph, the dashboard server, file loading, the replay tool,
  and the floating-point tape scoring, sizing and P&L that feed the library's
  decisions.
