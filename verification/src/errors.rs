//! The error taxonomy: collector, storage and IPC failures, and the
//! application-level error that wraps them.

use vstd::prelude::*;
use vstd::string::*;
use crate::text::{decimal, push_decimal, has_substring};
use crate::protocol::{RpcError, PARSE_ERROR, INVALID_REQUEST, INTERNAL_ERROR};

verus! {

/// Errors from the data collector subsystem.
#[derive(Debug, Clone)]
pub enum CollectorError {
    LogParse(String),
    LogWatch(String),
    LogNotFound { path: String },
}

/// Errors from the SQLite storage layer.
#[derive(Debug, Clone)]
pub enum StorageError {
    Sqlite(String),
    Migration { version: u32, reason: String },
    NotFound { path: String },
    Query(String),
}

/// Errors from the IPC layer.
#[derive(Debug, Clone)]
pub enum IpcError {
    Connection(String),
    SocketBind { path: String, reason: String },
    Serialization(String),
    Deserialization(String),
    Protocol(String),
    Timeout { timeout_ms: u64 },
    DaemonNotRunning { path: String },
}

/// Top-level application error.
#[derive(Debug, Clone)]
pub enum AppError {
    Collector(CollectorError),
    Storage(StorageError),
    Ipc(IpcError),
    Config(String),
}

impl CollectorError {
    /// The rendered message.
    pub open spec fn message(&self) -> Seq<char> {
        match self {
            CollectorError::LogParse(s) => "failed to parse log line: "@ + s@,
            CollectorError::LogWatch(s) => "log file watch error: "@ + s@,
            CollectorError::LogNotFound { path } => "log file not found: "@ + path@,
        }
    }

    /// Renders the error as its `Display` form.
    pub fn to_string(&self) -> (r: String)
        ensures
            r@ == self.message(),
    {
        match self {
            CollectorError::LogParse(s) => {
                let mut out = String::from_str("failed to parse log line: ");
                out.append(s.as_str());
                out
            },
            CollectorError::LogWatch(s) => {
                let mut out = String::from_str("log file watch error: ");
                out.append(s.as_str());
                out
            },
            CollectorError::LogNotFound { path } => {
                let mut out = String::from_str("log file not found: ");
                out.append(path.as_str());
                out
            },
        }
    }
}

impl StorageError {
    /// The rendered message.
    pub open spec fn message(&self) -> Seq<char> {
        match self {
            StorageError::Sqlite(s) => "sqlite error: "@ + s@,
            StorageError::Migration { version, reason } => "migration failed at version "@ + decimal(
                *version as nat,
            ) + ": "@ + reason@,
            StorageError::NotFound { path } => "database not found at "@ + path@,
            StorageError::Query(s) => "query error: "@ + s@,
        }
    }

    /// Renders the error as its `Display` form.
    pub fn to_string(&self) -> (r: String)
        ensures
            r@ == self.message(),
    {
        match self {
            StorageError::Sqlite(s) => {
                let mut out = String::from_str("sqlite error: ");
                out.append(s.as_str());
                out
            },
            StorageError::Migration { version, reason } => {
                let mut out = String::from_str("migration failed at version ");
                push_decimal(&mut out, *version as u64);
                out.append(": ");
                out.append(reason.as_str());
                out
            },
            StorageError::NotFound { path } => {
                let mut out = String::from_str("database not found at ");
                out.append(path.as_str());
                out
            },
            StorageError::Query(s) => {
                let mut out = String::from_str("query error: ");
                out.append(s.as_str());
                out
            },
        }
    }
}

impl IpcError {
    /// The rendered message.
    pub open spec fn message(&self) -> Seq<char> {
        match self {
            IpcError::Connection(s) => "connection failed: "@ + s@,
            IpcError::SocketBind { path, reason } => "socket bind failed at "@ + path@ + ": "@
                + reason@,
            IpcError::Serialization(s) => "serialization error: "@ + s@,
            IpcError::Deserialization(s) => "deserialization error: "@ + s@,
            IpcError::Protocol(s) => "protocol error: "@ + s@,
            IpcError::Timeout { timeout_ms } => "request timeout after "@ + decimal(
                *timeout_ms as nat,
            ) + "ms"@,
            IpcError::DaemonNotRunning { path } => "daemon not running (socket not found at "@
                + path@ + ")"@,
        }
    }

    /// The JSON-RPC error code an IPC failure is reported under: parse
    /// errors for (de)serialization, invalid request for protocol errors,
    /// internal error otherwise.
    pub open spec fn rpc_code(&self) -> i32 {
        match self {
            IpcError::Serialization(_) | IpcError::Deserialization(_) => PARSE_ERROR,
            IpcError::Protocol(_) => INVALID_REQUEST,
            _ => INTERNAL_ERROR,
        }
    }

    /// Renders the error as its `Display` form.
    pub fn to_string(&self) -> (r: String)
        ensures
            r@ == self.message(),
    {
        match self {
            IpcError::Connection(s) => {
                let mut out = String::from_str("connection failed: ");
                out.append(s.as_str());
                out
            },
            IpcError::SocketBind { path, reason } => {
                let mut out = String::from_str("socket bind failed at ");
                out.append(path.as_str());
                out.append(": ");
                out.append(reason.as_str());
                out
            },
            IpcError::Serialization(s) => {
                let mut out = String::from_str("serialization error: ");
                out.append(s.as_str());
                out
            },
            IpcError::Deserialization(s) => {
                let mut out = String::from_str("deserialization error: ");
                out.append(s.as_str());
                out
            },
            IpcError::Protocol(s) => {
                let mut out = String::from_str("protocol error: ");
                out.append(s.as_str());
                out
            },
            IpcError::Timeout { timeout_ms } => {
                let mut out = String::from_str("request timeout after ");
                push_decimal(&mut out, *timeout_ms);
                out.append("ms");
                out
            },
            IpcError::DaemonNotRunning { path } => {
                let mut out = String::from_str("daemon not running (socket not found at ");
                out.append(path.as_str());
                out.append(")");
                out
            },
        }
    }

    /// The JSON-RPC error reporting this failure: its code, its rendered
    /// message and no data.
    pub fn to_rpc_error(&self) -> (r: RpcError)
        ensures
            r.code == self.rpc_code(),
            r.message@ == self.message(),
            r.data is None,
    {
        let code = match self {
            IpcError::Serialization(_) | IpcError::Deserialization(_) => PARSE_ERROR,
            IpcError::Protocol(_) => INVALID_REQUEST,
            _ => INTERNAL_ERROR,
        };
        RpcError { code, message: self.to_string(), data: None }
    }
}

impl AppError {
    /// The rendered message; wrapped errors are rendered after a prefix
    /// naming the subsystem.
    pub open spec fn message(&self) -> Seq<char> {
        match self {
            AppError::Collector(e) => "collector error: "@ + e.message(),
            AppError::Storage(e) => "storage error: "@ + e.message(),
            AppError::Ipc(e) => "ipc error: "@ + e.message(),
            AppError::Config(s) => "config error: "@ + s@,
        }
    }

    /// Renders the error as its `Display` form.
    pub fn to_string(&self) -> (r: String)
        ensures
            r@ == self.message(),
    {
        match self {
            AppError::Collector(e) => {
                let mut out = String::from_str("collector error: ");
                let inner = e.to_string();
                out.append(inner.as_str());
                out
            },
            AppError::Storage(e) => {
                let mut out = String::from_str("storage error: ");
                let inner = e.to_string();
                out.append(inner.as_str());
                out
            },
            AppError::Ipc(e) => {
                let mut out = String::from_str("ipc error: ");
                let inner = e.to_string();
                out.append(inner.as_str());
                out
            },
            AppError::Config(s) => {
                let mut out = String::from_str("config error: ");
                out.append(s.as_str());
                out
            },
        }
    }
}

impl From<CollectorError> for AppError {
    fn from(e: CollectorError) -> (r: Self) {
        AppError::Collector(e)
    }
}

impl vstd::std_specs::convert::FromSpecImpl<CollectorError> for AppError {
    open spec fn obeys_from_spec() -> bool {
        true
    }

    open spec fn from_spec(e: CollectorError) -> Self {
        AppError::Collector(e)
    }
}

impl From<StorageError> for AppError {
    fn from(e: StorageError) -> (r: Self) {
        AppError::Storage(e)
    }
}

impl vstd::std_specs::convert::FromSpecImpl<StorageError> for AppError {
    open spec fn obeys_from_spec() -> bool {
        true
    }

    open spec fn from_spec(e: StorageError) -> Self {
        AppError::Storage(e)
    }
}

impl From<IpcError> for AppError {
    fn from(e: IpcError) -> (r: Self) {
        AppError::Ipc(e)
    }
}

impl vstd::std_specs::convert::FromSpecImpl<IpcError> for AppError {
    open spec fn obeys_from_spec() -> bool {
        true
    }

    open spec fn from_spec(e: IpcError) -> Self {
        AppError::Ipc(e)
    }
}

/// Whether `t` ends `s`.
pub open spec fn is_suffix(t: Seq<char>, s: Seq<char>) -> bool {
    t.len() <= s.len() && s.subrange(s.len() - t.len(), s.len() as int) == t
}

/// The application error renders a wrapped subsystem error's message in
/// full: the wrapped message ends the rendered one.
pub proof fn law_wrapped_message_kept(c: CollectorError, s: StorageError, i: IpcError)
    ensures
        is_suffix(c.message(), AppError::Collector(c).message()),
        is_suffix(s.message(), AppError::Storage(s).message()),
        is_suffix(i.message(), AppError::Ipc(i).message()),
{
    let a = AppError::Collector(c).message();
    assert(a.subrange(a.len() - c.message().len(), a.len() as int) =~= c.message());
    let b = AppError::Storage(s).message();
    assert(b.subrange(b.len() - s.message().len(), b.len() as int) =~= s.message());
    let d = AppError::Ipc(i).message();
    assert(d.subrange(d.len() - i.message().len(), d.len() as int) =~= i.message());
}

/// A daemon-not-running error names the socket path it looked for.
pub proof fn law_missing_daemon_names_socket(path: String)
    ensures
        has_substring(IpcError::DaemonNotRunning { path }.message(), path@),
{
    let m = IpcError::DaemonNotRunning { path }.message();
    let k = "daemon not running (socket not found at "@.len() as int;
    assert(m.subrange(k, k + path@.len()) =~= path@);
}

} // verus!
