//! The statements the storage layer runs besides its filtered reads: the
//! schema, the writes, and the single-row reads.

use vstd::prelude::*;

verus! {

/// Switches the database to write-ahead logging.
pub const JOURNAL_MODE_SQL: &'static str = "PRAGMA journal_mode=WAL;";

/// Creates the table that records the schema version.
pub const SCHEMA_VERSION_TABLE_SQL: &'static str = "CREATE TABLE IF NOT EXISTS schema_version (version INTEGER PRIMARY KEY);";

/// The schema version in place, 0 for a new database.
pub const SCHEMA_VERSION_SQL: &'static str = "SELECT COALESCE(MAX(version), 0) FROM schema_version";

/// The first schema: usage records (one per UUID), daily aggregates (one per day and model), sessions, the budget row, and the version mark.
pub const SCHEMA_V1_SQL: &'static str = "
            CREATE TABLE IF NOT EXISTS usage_records (
                id              INTEGER PRIMARY KEY AUTOINCREMENT,
                uuid            TEXT NOT NULL UNIQUE,
                timestamp       TEXT NOT NULL,
                model           TEXT NOT NULL,
                input_tokens    INTEGER NOT NULL DEFAULT 0,
                output_tokens   INTEGER NOT NULL DEFAULT 0,
                cache_read_tokens  INTEGER NOT NULL DEFAULT 0,
                cache_write_tokens INTEGER NOT NULL DEFAULT 0,
                cost_usd        REAL NOT NULL DEFAULT 0.0,
                session_id      TEXT,
                project         TEXT,
                source          TEXT NOT NULL DEFAULT 'api'
            );
            CREATE INDEX IF NOT EXISTS idx_usage_timestamp ON usage_records(timestamp);
            CREATE INDEX IF NOT EXISTS idx_usage_model_timestamp ON usage_records(model, timestamp);
            CREATE INDEX IF NOT EXISTS idx_usage_session ON usage_records(session_id) WHERE session_id IS NOT NULL;
            CREATE INDEX IF NOT EXISTS idx_usage_project ON usage_records(project) WHERE project IS NOT NULL;
            CREATE TABLE IF NOT EXISTS daily_aggregates (
                id              INTEGER PRIMARY KEY AUTOINCREMENT,
                date            TEXT NOT NULL,
                model           TEXT NOT NULL,
                total_input_tokens    INTEGER NOT NULL DEFAULT 0,
                total_output_tokens   INTEGER NOT NULL DEFAULT 0,
                total_cache_read_tokens  INTEGER NOT NULL DEFAULT 0,
                total_cache_write_tokens INTEGER NOT NULL DEFAULT 0,
                total_cost_usd        REAL NOT NULL DEFAULT 0.0,
                request_count         INTEGER NOT NULL DEFAULT 0,
                session_count         INTEGER NOT NULL DEFAULT 0,
                UNIQUE(date, model)
            );
            CREATE INDEX IF NOT EXISTS idx_daily_date ON daily_aggregates(date);
            CREATE INDEX IF NOT EXISTS idx_daily_model_date ON daily_aggregates(model, date);
            CREATE TABLE IF NOT EXISTS sessions (
                session_id      TEXT PRIMARY KEY,
                model           TEXT NOT NULL,
                started_at      TEXT NOT NULL,
                last_activity   TEXT NOT NULL,
                total_input_tokens    INTEGER NOT NULL DEFAULT 0,
                total_output_tokens   INTEGER NOT NULL DEFAULT 0,
                total_cache_read_tokens  INTEGER NOT NULL DEFAULT 0,
                total_cache_write_tokens INTEGER NOT NULL DEFAULT 0,
                cost_usd        REAL NOT NULL DEFAULT 0.0,
                request_count   INTEGER NOT NULL DEFAULT 0,
                status          TEXT NOT NULL DEFAULT 'idle',
                project         TEXT
            );
            CREATE INDEX IF NOT EXISTS idx_sessions_status ON sessions(status);
            CREATE INDEX IF NOT EXISTS idx_sessions_started ON sessions(started_at);
            CREATE TABLE IF NOT EXISTS budget_config (
                id                  INTEGER PRIMARY KEY CHECK (id = 1),
                daily_limit_usd     REAL,
                weekly_limit_usd    REAL,
                monthly_limit_usd   REAL,
                alert_threshold_pct REAL NOT NULL DEFAULT 0.80
            );
            INSERT OR IGNORE INTO budget_config (id, alert_threshold_pct) VALUES (1, 0.80);
            INSERT OR IGNORE INTO schema_version (version) VALUES (1);
        ";

/// Stores a usage record; a record whose UUID is already stored is skipped, so each usage event is counted once.
pub const INSERT_USAGE_SQL: &'static str = "INSERT OR IGNORE INTO usage_records (uuid, timestamp, model, input_tokens, output_tokens, cache_read_tokens, cache_write_tokens, cost_usd, session_id, project, source) VALUES (?1, ?2, ?3, ?4, ?5, ?6, ?7, ?8, ?9, ?10, ?11)";

/// Drops the aggregates of one day.
pub const DELETE_DAILY_AGGREGATE_SQL: &'static str = "DELETE FROM daily_aggregates WHERE date = ?1";

/// Rebuilds the aggregates of one day, per model, from the usage records of that day.
pub const RECOMPUTE_DAILY_AGGREGATE_SQL: &'static str = "INSERT INTO daily_aggregates (date, model, total_input_tokens, total_output_tokens, total_cache_read_tokens, total_cache_write_tokens, total_cost_usd, request_count, session_count)
                 SELECT DATE(timestamp) as d, model,
                        SUM(input_tokens), SUM(output_tokens), SUM(cache_read_tokens), SUM(cache_write_tokens),
                        SUM(cost_usd), COUNT(*), COUNT(DISTINCT session_id)
                 FROM usage_records
                 WHERE timestamp >= ?1 AND timestamp < ?2
                 GROUP BY d, model";

/// Stores a session, or updates its totals, last activity and status when it is already stored.
pub const UPSERT_SESSION_SQL: &'static str = "INSERT INTO sessions (session_id, model, started_at, last_activity, total_input_tokens, total_output_tokens, total_cache_read_tokens, total_cache_write_tokens, cost_usd, request_count, status, project)
                 VALUES (?1, ?2, ?3, ?4, ?5, ?6, ?7, ?8, ?9, ?10, ?11, ?12)
                 ON CONFLICT(session_id) DO UPDATE SET
                     last_activity = excluded.last_activity,
                     total_input_tokens = excluded.total_input_tokens,
                     total_output_tokens = excluded.total_output_tokens,
                     total_cache_read_tokens = excluded.total_cache_read_tokens,
                     total_cache_write_tokens = excluded.total_cache_write_tokens,
                     cost_usd = excluded.cost_usd,
                     request_count = excluded.request_count,
                     status = excluded.status";

/// Reads one session by id.
pub const GET_SESSION_SQL: &'static str = "SELECT session_id, model, started_at, last_activity, total_input_tokens, total_output_tokens, total_cache_read_tokens, total_cache_write_tokens, cost_usd, request_count, status, project FROM sessions WHERE session_id = ?1";

/// Empties the sessions table.
pub const CLEAR_SESSIONS_SQL: &'static str = "DELETE FROM sessions;";

/// Rebuilds the sessions from the usage records, one per session id: first and last timestamps, summed tokens and cost, request count, and streaming when the last activity is not before the cutoff bound first, idle otherwise.
pub const REBUILD_SESSIONS_SQL: &'static str = "INSERT INTO sessions (session_id, model, started_at, last_activity,
                     total_input_tokens, total_output_tokens,
                     total_cache_read_tokens, total_cache_write_tokens,
                     cost_usd, request_count, status, project)
                 SELECT session_id, model, MIN(timestamp), MAX(timestamp),
                     SUM(input_tokens), SUM(output_tokens), SUM(cache_read_tokens), SUM(cache_write_tokens),
                     SUM(cost_usd), COUNT(*),
                     CASE WHEN MAX(timestamp) >= ?1 THEN 'streaming' ELSE 'idle' END,
                     project
                 FROM usage_records
                 WHERE session_id IS NOT NULL
                 GROUP BY session_id";

/// Reads the budget row.
pub const GET_BUDGET_SQL: &'static str = "SELECT daily_limit_usd, weekly_limit_usd, monthly_limit_usd, alert_threshold_pct FROM budget_config WHERE id = 1";

/// Writes the budget row.
pub const SET_BUDGET_SQL: &'static str = "UPDATE budget_config SET daily_limit_usd = ?1, weekly_limit_usd = ?2, monthly_limit_usd = ?3, alert_threshold_pct = ?4 WHERE id = 1";

/// The cost of the usage records in a half-open span of time, 0 when there are none.
pub const COST_BETWEEN_SQL: &'static str = "SELECT COALESCE(SUM(cost_usd), 0.0) FROM usage_records WHERE timestamp >= ?1 AND timestamp < ?2";

} // verus!
