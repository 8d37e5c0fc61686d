use usage_meter::errors::{IpcError, StorageError};
use usage_meter::ipc::{
    accepts_line, active_session_count, current_model, dispatch, respond, status_session_query,
    unparsable_request, HandlerOutcome, MAX_REQUEST_LINE_LEN,
};
use usage_meter::models::{ModelType, SessionStatus};
use usage_meter::protocol::{
    classify_request, default_limit, interpret_response, MethodKind, RpcError, RpcRequest,
    RpcResponse, INTERNAL_ERROR, METHOD_NOT_FOUND, NOT_FOUND, PARSE_ERROR,
};

#[test]
fn test_rpc_method_from_request_status() {
    let req = RpcRequest {
        jsonrpc: "2.0".to_string(),
        id: 1,
        method: "status".to_string(),
        params: serde_json::Value::Null,
    };
    let method = classify_request(&req).unwrap();
    assert!(matches!(method, MethodKind::Status));
}

#[test]
fn test_rpc_method_from_request_unknown() {
    let req = RpcRequest {
        jsonrpc: "2.0".to_string(),
        id: 1,
        method: "foo.bar".to_string(),
        params: serde_json::Value::Null,
    };
    let err = classify_request(&req).unwrap_err();
    assert_eq!(err.code, METHOD_NOT_FOUND);
}

#[test]
fn every_method_name_is_recognised() {
    for (name, kind) in [
        ("status", MethodKind::Status),
        ("usage.query", MethodKind::UsageQuery),
        ("usage.summary", MethodKind::UsageSummary),
        ("sessions.list", MethodKind::SessionsList),
        ("sessions.get", MethodKind::SessionsGet),
        ("budget.get", MethodKind::BudgetGet),
        ("budget.set", MethodKind::BudgetSet),
        ("models.compare", MethodKind::ModelsCompare),
    ] {
        assert_eq!(MethodKind::from_name(name), Some(kind));
        assert_eq!(kind.as_str(), name);
    }
    assert_eq!(MethodKind::from_name("Status"), None);
    assert!(!MethodKind::Status.takes_params());
    assert!(!MethodKind::BudgetGet.takes_params());
    assert!(MethodKind::BudgetSet.takes_params());
    assert_eq!(default_limit(), 100);
}

#[test]
fn success_and_error_envelopes() {
    let ok = RpcResponse::success(7, serde_json::Value::Bool(true));
    assert_eq!(ok.jsonrpc, "2.0");
    assert_eq!(ok.id, 7);
    assert_eq!(ok.result, Some(serde_json::Value::Bool(true)));
    assert!(ok.error.is_none());
    let err = RpcResponse::error(8, RpcError::method_not_found("x"));
    assert!(err.result.is_none());
    let e = err.error.unwrap();
    assert_eq!(e.code, METHOD_NOT_FOUND);
    assert_eq!(e.message, "unknown method: x");
    let req = RpcRequest::new(3, "budget.get", serde_json::Value::Null);
    assert_eq!(req.jsonrpc, "2.0");
    assert_eq!(req.method, "budget.get");
}

#[test]
fn client_reads_errors_and_results() {
    let resp = RpcResponse::error(1, RpcError::new(-32601, "not found".to_string()));
    match interpret_response(resp) {
        Err(IpcError::Protocol(m)) => assert_eq!(m, "RPC error -32601: not found"),
        other => panic!("unexpected {other:?}"),
    }
    let resp = RpcResponse { jsonrpc: "2.0".to_string(), id: 1, result: None, error: None };
    match interpret_response(resp) {
        Err(IpcError::Protocol(m)) => assert_eq!(m, "empty result"),
        other => panic!("unexpected {other:?}"),
    }
    let resp = RpcResponse::success(1, serde_json::Value::from(5));
    assert_eq!(interpret_response(resp).unwrap(), serde_json::Value::from(5));
}

#[test]
fn unknown_method_is_answered_under_the_request_id() {
    let req = RpcRequest::new(42, "nonexistent", serde_json::Value::Null);
    let resp = dispatch(&req).unwrap_err();
    assert_eq!(resp.id, 42);
    assert!(resp.result.is_none());
    let e = resp.error.unwrap();
    assert_eq!(e.code, METHOD_NOT_FOUND);
    assert_eq!(e.message, "unknown method: nonexistent");
    assert_eq!(dispatch(&RpcRequest::new(1, "budget.get", serde_json::Value::Null)).unwrap(), MethodKind::BudgetGet);
}

#[test]
fn outcomes_map_to_responses() {
    let r = respond(5, HandlerOutcome::SessionMissing("nonexistent".to_string()));
    let e = r.error.unwrap();
    assert_eq!(e.code, NOT_FOUND);
    assert_eq!(e.message, "session not found: nonexistent");
    let r = respond(6, HandlerOutcome::Failed(StorageError::Query("boom".to_string())));
    let e = r.error.unwrap();
    assert_eq!(e.code, INTERNAL_ERROR);
    assert_eq!(e.message, "query error: boom");
    let r = respond(9, HandlerOutcome::Answered(serde_json::Value::Null));
    assert_eq!(r.id, 9);
    assert_eq!(r.result, Some(serde_json::Value::Null));
    assert!(r.error.is_none());
    let r = unparsable_request("expected value".to_string());
    assert_eq!(r.id, 0);
    assert_eq!(r.error.unwrap().code, PARSE_ERROR);
}

#[test]
fn status_helpers() {
    let q = status_session_query();
    assert_eq!(q.status, Some(SessionStatus::Streaming));
    assert_eq!(q.limit, 100);
    assert_eq!(q.offset, 0);
    assert_eq!(active_session_count(3), 3);
    assert_eq!(active_session_count(0x1_0000_0002), 2);
    assert_eq!(current_model(&[ModelType::Haiku, ModelType::Opus]), Some(ModelType::Haiku));
    assert_eq!(current_model(&[]), None);
    assert!(accepts_line(MAX_REQUEST_LINE_LEN));
    assert!(!accepts_line(MAX_REQUEST_LINE_LEN + 1));
}
