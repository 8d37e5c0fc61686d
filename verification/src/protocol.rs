//! The JSON-RPC 2.0 vocabulary spoken between the daemon and its clients.

use vstd::prelude::*;
use vstd::string::*;
use crate::text::{signed_decimal, push_signed_decimal, str_eq};
use crate::models::{ModelType, SessionStatus, TimeWindow, Timestamp};
use crate::errors::IpcError;

verus! {

/// A JSON document of `serde_json`, carried through unread.
#[verifier::external_type_specification]
#[verifier::external_body]
pub struct ExJsonValue(serde_json::Value);

/// `Clone` of `serde_json::Value`, which is derived there: the copy is the
/// same document.
pub assume_specification[ <serde_json::Value as Clone>::clone ](v: &serde_json::Value) -> (r:
    serde_json::Value)
    ensures
        r == *v,
;

/// Invalid JSON was received.
pub const PARSE_ERROR: i32 = -32700;
/// The JSON sent is not a valid request object.
pub const INVALID_REQUEST: i32 = -32600;
/// The method does not exist.
pub const METHOD_NOT_FOUND: i32 = -32601;
/// Invalid method parameters.
pub const INVALID_PARAMS: i32 = -32602;
/// Internal JSON-RPC error.
pub const INTERNAL_ERROR: i32 = -32603;
/// The collector is not running.
pub const COLLECTOR_UNAVAILABLE: i32 = -1;
/// The storage layer failed.
pub const STORAGE_ERROR: i32 = -2;
/// The requested item does not exist.
pub const NOT_FOUND: i32 = -3;

#[derive(Debug, Clone)]
pub struct RpcRequest {
    pub jsonrpc: String,
    pub id: u64,
    pub method: String,
    pub params: serde_json::Value,
}

#[derive(Debug, Clone)]
pub struct RpcResponse {
    pub jsonrpc: String,
    pub id: u64,
    pub result: Option<serde_json::Value>,
    pub error: Option<RpcError>,
}

#[derive(Debug, Clone)]
pub struct RpcError {
    pub code: i32,
    pub message: String,
    pub data: Option<serde_json::Value>,
}

impl RpcRequest {
    /// A version-2.0 request for `method` under `id`.
    pub fn new(id: u64, method: &str, params: serde_json::Value) -> (r: RpcRequest)
        ensures
            r.jsonrpc@ == "2.0"@,
            r.id == id,
            r.method@ == method@,
            r.params == params,
    {
        RpcRequest {
            jsonrpc: String::from_str("2.0"),
            id,
            method: String::from_str(method),
            params,
        }
    }
}

impl RpcResponse {
    /// A version-2.0 answer carrying `result` and no error.
    pub fn success(id: u64, result: serde_json::Value) -> (r: RpcResponse)
        ensures
            r.jsonrpc@ == "2.0"@,
            r.id == id,
            r.result == Some(result),
            r.error is None,
    {
        RpcResponse { jsonrpc: String::from_str("2.0"), id, result: Some(result), error: None }
    }

    /// A version-2.0 answer carrying `error` and no result.
    pub fn error(id: u64, error: RpcError) -> (r: RpcResponse)
        ensures
            r.jsonrpc@ == "2.0"@,
            r.id == id,
            r.result is None,
            r.error == Some(error),
    {
        RpcResponse { jsonrpc: String::from_str("2.0"), id, result: None, error: Some(error) }
    }
}

impl RpcError {
    /// An error with `code` and `message` and no data.
    pub fn new(code: i32, message: String) -> (r: RpcError)
        ensures
            r.code == code,
            r.message == message,
            r.data is None,
    {
        RpcError { code, message, data: None }
    }

    /// The answer to a method that the daemon does not offer.
    pub fn method_not_found(method: &str) -> (r: RpcError)
        ensures
            r.code == METHOD_NOT_FOUND,
            r.message@ == "unknown method: "@ + method@,
            r.data is None,
    {
        let mut message = String::from_str("unknown method: ");
        message.append(method);
        RpcError { code: METHOD_NOT_FOUND, message, data: None }
    }

    /// The answer to parameters that do not decode for their method.
    pub fn invalid_params(message: String) -> (r: RpcError)
        ensures
            r.code == INVALID_PARAMS,
            r.message == message,
            r.data is None,
    {
        RpcError { code: INVALID_PARAMS, message, data: None }
    }
}

/// How the daemon's log collector is running.
#[derive(Debug, Clone, Copy, PartialEq, Eq, Structural)]
pub enum CollectorStatus {
    Log,
    Offline,
}

/// The page size used when a request names none.
pub fn default_limit() -> (r: u32)
    ensures
        r == 100,
{
    100
}

/// A span of time, both ends included.
#[derive(Debug, Clone, Copy, PartialEq, Eq, Structural)]
pub struct TimeRange {
    pub start: Timestamp,
    pub end: Timestamp,
}

/// Parameters of `usage.query`.
#[derive(Debug, Clone)]
pub struct UsageQueryParams {
    pub time_range: Option<TimeRange>,
    pub model: Option<ModelType>,
    pub project: Option<String>,
    pub limit: u32,
    pub offset: u32,
}

/// Parameters of `usage.summary`.
#[derive(Debug, Clone)]
pub struct UsageSummaryParams {
    pub window: TimeWindow,
    pub time_range: Option<TimeRange>,
    pub model: Option<ModelType>,
}

/// Parameters of `sessions.list`.
#[derive(Debug, Clone)]
pub struct SessionsListParams {
    pub status: Option<SessionStatus>,
    pub limit: u32,
    pub offset: u32,
}

/// Parameters of `sessions.get`.
#[derive(Debug, Clone)]
pub struct SessionsGetParams {
    pub session_id: String,
}

/// Answer of `budget.set`.
#[derive(Debug, Clone)]
pub struct BudgetSetResponse {
    pub success: bool,
}

/// Parameters of `models.compare`.
#[derive(Debug, Clone)]
pub struct ModelsCompareParams {
    pub time_range: Option<TimeRange>,
}

/// The methods the daemon answers.
#[derive(Debug, Clone, Copy, PartialEq, Eq, Structural)]
pub enum MethodKind {
    Status,
    UsageQuery,
    UsageSummary,
    SessionsList,
    SessionsGet,
    BudgetGet,
    BudgetSet,
    ModelsCompare,
}

/// The method a wire name denotes.
pub open spec fn method_named(name: Seq<char>) -> Option<MethodKind> {
    if name == "status"@ {
        Some(MethodKind::Status)
    } else if name == "usage.query"@ {
        Some(MethodKind::UsageQuery)
    } else if name == "usage.summary"@ {
        Some(MethodKind::UsageSummary)
    } else if name == "sessions.list"@ {
        Some(MethodKind::SessionsList)
    } else if name == "sessions.get"@ {
        Some(MethodKind::SessionsGet)
    } else if name == "budget.get"@ {
        Some(MethodKind::BudgetGet)
    } else if name == "budget.set"@ {
        Some(MethodKind::BudgetSet)
    } else if name == "models.compare"@ {
        Some(MethodKind::ModelsCompare)
    } else {
        None
    }
}

impl MethodKind {
    /// The wire name of the method.
    pub open spec fn name(self) -> Seq<char> {
        match self {
            MethodKind::Status => "status"@,
            MethodKind::UsageQuery => "usage.query"@,
            MethodKind::UsageSummary => "usage.summary"@,
            MethodKind::SessionsList => "sessions.list"@,
            MethodKind::SessionsGet => "sessions.get"@,
            MethodKind::BudgetGet => "budget.get"@,
            MethodKind::BudgetSet => "budget.set"@,
            MethodKind::ModelsCompare => "models.compare"@,
        }
    }

    /// Whether the method's parameters are decoded from the request.
    pub open spec fn spec_takes_params(&self) -> bool {
        !(self is Status || self is BudgetGet)
    }

    pub fn as_str(&self) -> (r: &'static str)
        ensures
            r@ == self.name(),
    {
        match self {
            MethodKind::Status => "status",
            MethodKind::UsageQuery => "usage.query",
            MethodKind::UsageSummary => "usage.summary",
            MethodKind::SessionsList => "sessions.list",
            MethodKind::SessionsGet => "sessions.get",
            MethodKind::BudgetGet => "budget.get",
            MethodKind::BudgetSet => "budget.set",
            MethodKind::ModelsCompare => "models.compare",
        }
    }

    #[verifier::when_used_as_spec(spec_takes_params)]
    pub fn takes_params(&self) -> (r: bool)
        ensures
            r == self.spec_takes_params(),
    {
        !matches!(self, MethodKind::Status | MethodKind::BudgetGet)
    }

    /// The method a wire name denotes, if any.
    pub fn from_name(name: &str) -> (r: Option<MethodKind>)
        ensures
            r == method_named(name@),
    {
        if str_eq(name, "status") {
            Some(MethodKind::Status)
        } else if str_eq(name, "usage.query") {
            Some(MethodKind::UsageQuery)
        } else if str_eq(name, "usage.summary") {
            Some(MethodKind::UsageSummary)
        } else if str_eq(name, "sessions.list") {
            Some(MethodKind::SessionsList)
        } else if str_eq(name, "sessions.get") {
            Some(MethodKind::SessionsGet)
        } else if str_eq(name, "budget.get") {
            Some(MethodKind::BudgetGet)
        } else if str_eq(name, "budget.set") {
            Some(MethodKind::BudgetSet)
        } else if str_eq(name, "models.compare") {
            Some(MethodKind::ModelsCompare)
        } else {
            None
        }
    }
}

/// Typed dispatch of a request: the method it calls, or the
/// method-not-found error naming the unknown method.
pub fn classify_request(req: &RpcRequest) -> (r: Result<MethodKind, RpcError>)
    ensures
        match r {
            Ok(k) => method_named(req.method@) == Some(k),
            Err(e) => method_named(req.method@) is None && e.code == METHOD_NOT_FOUND
                && e.message@ == "unknown method: "@ + req.method@ && e.data is None,
        },
{
    match MethodKind::from_name(req.method.as_str()) {
        Some(k) => Ok(k),
        None => Err(RpcError::method_not_found(req.method.as_str())),
    }
}

/// How a client reads a response: an RPC error becomes a protocol error
/// quoting its code and message, a missing result is a protocol error too,
/// and otherwise the result is handed back.
pub fn interpret_response(resp: RpcResponse) -> (r: Result<serde_json::Value, IpcError>)
    ensures
        match resp.error {
            Some(err) => r matches Err(IpcError::Protocol(m)) && m@ == "RPC error "@
                + signed_decimal(err.code as int) + ": "@ + err.message@,
            None => match resp.result {
                Some(v) => r == Ok::<serde_json::Value, IpcError>(v),
                None => r matches Err(IpcError::Protocol(m)) && m@ == "empty result"@,
            },
        },
{
    match resp.error {
        Some(err) => {
            let mut m = String::from_str("RPC error ");
            push_signed_decimal(&mut m, err.code as i64);
            m.append(": ");
            m.append(err.message.as_str());
            Err(IpcError::Protocol(m))
        },
        None => match resp.result {
            Some(v) => Ok(v),
            None => Err(IpcError::Protocol(String::from_str("empty result"))),
        },
    }
}

} // verus!
