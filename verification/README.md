# usage-meter

A local monitor of an AI assistant's token usage. A daemon reads the
assistant's JSONL conversation logs incrementally, stores each usage event
once in SQLite, and answers JSON-RPC requests over a Unix socket; a
terminal dashboard shows tokens, costs, per-model figures and live
sessions.

Layout:

- `src/` is the verified library (Verus): log-entry validation and the
  deterministic identity of records, the JSON-RPC vocabulary and the
  mapping of outcomes to responses, the error taxonomy and its messages,
  path resolution, the SQL the storage layer runs, token and duration
  formatting, the chart's per-day totals, and the dashboard's navigation
  state machine. Each public function carries a contract; the `law_*`
  proof functions state the properties that span functions.
- `app/` is the program around it: `usage-meter daemon` (file watching,
  SQLite, the socket server) and `usage-meter tui` (terminal drawing and
  the daemon client). Prices and costs are floating point and live there.
- `tests/` runs the library on concrete values.

Environment:

- `USAGE_METER_ASSISTANT` names the assistant whose logs are read: the
  daemon scans `~/.<name>/projects`, `~/.<name>/logs` and
  `~/.config/<name>/logs`. Unset, no log directory is scanned.
- `USAGE_METER_SOCKET` overrides the socket path; otherwise it is
  `$XDG_RUNTIME_DIR/usage-meter.sock`, or `/tmp/usage-meter-<uid>.sock`.
- The database is `usage-meter/usage.db` under `$XDG_DATA_HOME` or
  `~/.local/share`; the configuration is `~/.config/usage-meter/config.toml`.
