use usage_meter::errors::{AppError, CollectorError, IpcError, StorageError};
use usage_meter::protocol::{INTERNAL_ERROR, INVALID_REQUEST, PARSE_ERROR};

#[test]
fn test_ipc_error_to_rpc_error_serialization() {
    let err = IpcError::Serialization("bad json".to_string());
    let rpc = err.to_rpc_error();
    assert_eq!(rpc.code, -32700);
}

#[test]
fn test_ipc_error_to_rpc_error_deserialization() {
    let err = IpcError::Deserialization("parse failed".to_string());
    let rpc = err.to_rpc_error();
    assert_eq!(rpc.code, -32700);
}

#[test]
fn test_ipc_error_to_rpc_error_protocol() {
    let err = IpcError::Protocol("bad frame".to_string());
    let rpc = err.to_rpc_error();
    assert_eq!(rpc.code, -32600);
}

#[test]
fn test_ipc_error_to_rpc_error_connection() {
    let err = IpcError::Connection("refused".to_string());
    let rpc = err.to_rpc_error();
    assert_eq!(rpc.code, -32603);
}

#[test]
fn test_ipc_error_to_rpc_error_timeout() {
    let err = IpcError::Timeout { timeout_ms: 5000 };
    let rpc = err.to_rpc_error();
    assert_eq!(rpc.code, -32603);
}

#[test]
fn test_ipc_error_to_rpc_error_daemon_not_running() {
    let err = IpcError::DaemonNotRunning {
        path: "/tmp/test.sock".to_string(),
    };
    let rpc = err.to_rpc_error();
    assert_eq!(rpc.code, -32603);
    assert!(rpc.message.contains("/tmp/test.sock"));
}

#[test]
fn test_app_error_from_collector() {
    let collector_err = CollectorError::LogParse("bad line".to_string());
    let app_err: AppError = collector_err.into();
    assert!(matches!(app_err, AppError::Collector(_)));
    assert!(app_err.to_string().contains("bad line"));
}

#[test]
fn test_app_error_from_storage() {
    let storage_err = StorageError::Query("bad SQL".to_string());
    let app_err: AppError = storage_err.into();
    assert!(matches!(app_err, AppError::Storage(_)));
}

#[test]
fn test_app_error_from_ipc() {
    let ipc_err = IpcError::Connection("refused".to_string());
    let app_err: AppError = ipc_err.into();
    assert!(matches!(app_err, AppError::Ipc(_)));
}

#[test]
fn test_collector_error_display() {
    let err = CollectorError::LogWatch("inotify failed".to_string());
    assert_eq!(err.to_string(), "log file watch error: inotify failed");
}

#[test]
fn test_storage_error_display() {
    let err = StorageError::Migration {
        version: 2,
        reason: "column missing".to_string(),
    };
    assert_eq!(
        err.to_string(),
        "migration failed at version 2: column missing"
    );
}

#[test]
fn every_error_message_renders_exactly() {
    assert_eq!(
        CollectorError::LogParse("x".to_string()).to_string(),
        "failed to parse log line: x"
    );
    assert_eq!(
        CollectorError::LogNotFound { path: "/a".to_string() }.to_string(),
        "log file not found: /a"
    );
    assert_eq!(StorageError::Sqlite("busy".to_string()).to_string(), "sqlite error: busy");
    assert_eq!(
        StorageError::NotFound { path: "/db".to_string() }.to_string(),
        "database not found at /db"
    );
    assert_eq!(StorageError::Query("q".to_string()).to_string(), "query error: q");
    assert_eq!(
        StorageError::Migration { version: 4294967295, reason: "r".to_string() }.to_string(),
        "migration failed at version 4294967295: r"
    );
    assert_eq!(IpcError::Connection("c".to_string()).to_string(), "connection failed: c");
    assert_eq!(
        IpcError::SocketBind { path: "/s".to_string(), reason: "in use".to_string() }.to_string(),
        "socket bind failed at /s: in use"
    );
    assert_eq!(IpcError::Serialization("s".to_string()).to_string(), "serialization error: s");
    assert_eq!(IpcError::Deserialization("d".to_string()).to_string(), "deserialization error: d");
    assert_eq!(IpcError::Protocol("p".to_string()).to_string(), "protocol error: p");
    assert_eq!(IpcError::Timeout { timeout_ms: 0 }.to_string(), "request timeout after 0ms");
    assert_eq!(
        IpcError::Timeout { timeout_ms: 10000 }.to_string(),
        "request timeout after 10000ms"
    );
    assert_eq!(
        IpcError::DaemonNotRunning { path: "/p.sock".to_string() }.to_string(),
        "daemon not running (socket not found at /p.sock)"
    );
    assert_eq!(AppError::Config("bad".to_string()).to_string(), "config error: bad");
}

#[test]
fn app_error_prefixes_the_wrapped_message() {
    let e: AppError = StorageError::Query("bad SQL".to_string()).into();
    assert_eq!(e.to_string(), "storage error: query error: bad SQL");
    let e: AppError = IpcError::Timeout { timeout_ms: 7 }.into();
    assert_eq!(e.to_string(), "ipc error: request timeout after 7ms");
    let e: AppError = CollectorError::LogWatch("w".to_string()).into();
    assert_eq!(e.to_string(), "collector error: log file watch error: w");
}

#[test]
fn rpc_error_carries_code_message_and_no_data() {
    let rpc = IpcError::Deserialization("eof".to_string()).to_rpc_error();
    assert_eq!(rpc.code, PARSE_ERROR);
    assert_eq!(rpc.message, "deserialization error: eof");
    assert!(rpc.data.is_none());
    let rpc = IpcError::Protocol("frame".to_string()).to_rpc_error();
    assert_eq!(rpc.code, INVALID_REQUEST);
    let rpc = IpcError::SocketBind { path: "p".to_string(), reason: "r".to_string() }.to_rpc_error();
    assert_eq!(rpc.code, INTERNAL_ERROR);
}
