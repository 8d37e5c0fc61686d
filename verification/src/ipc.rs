//! How the daemon answers a request once its method is known and storage
//! has been consulted: the mapping from outcomes to JSON-RPC responses.

use vstd::prelude::*;
use vstd::string::*;
use crate::errors::StorageError;
use crate::models::{ModelType, SessionStatus};
use crate::protocol::{
    RpcError, RpcRequest, RpcResponse, SessionsListParams, MethodKind, method_named,
    classify_request, PARSE_ERROR, INTERNAL_ERROR, NOT_FOUND, METHOD_NOT_FOUND,
};

verus! {

/// Maximum allowed line length for IPC requests (1 MB).
pub const MAX_REQUEST_LINE_LEN: usize = 1_048_576;

/// Whether a request line is short enough to be served; longer lines end
/// the connection.
pub fn accepts_line(len: usize) -> (r: bool)
    ensures
        r == (len <= MAX_REQUEST_LINE_LEN),
{
    len <= MAX_REQUEST_LINE_LEN
}

/// What became of a request on its way through the daemon.
#[derive(Debug)]
pub enum HandlerOutcome {
    /// The method is unknown or its parameters did not decode.
    Rejected(RpcError),
    /// Storage answered; the answer, encoded as JSON.
    Answered(serde_json::Value),
    /// Storage failed.
    Failed(StorageError),
    /// `sessions.get` found no session under this id.
    SessionMissing(String),
}

/// The response to request `id` for an outcome.
pub open spec fn response_for(id: u64, outcome: HandlerOutcome, r: RpcResponse) -> bool {
    &&& r.jsonrpc@ == "2.0"@
    &&& r.id == id
    &&& match outcome {
        HandlerOutcome::Rejected(e) => r.result is None && r.error == Some(e),
        HandlerOutcome::Answered(v) => r.result == Some(v) && r.error is None,
        HandlerOutcome::Failed(e) => r.result is None && (r.error matches Some(err) && err.code
            == INTERNAL_ERROR && err.message@ == e.message() && err.data is None),
        HandlerOutcome::SessionMissing(sid) => r.result is None && (r.error matches Some(err)
            && err.code == NOT_FOUND && err.message@ == "session not found: "@ + sid@ && err.data is None),
    }
}

/// Answers request `id`: results are returned as they are, storage
/// failures as internal errors quoting the failure, a missing session as
/// not-found naming the id, and refused requests with their own error.
pub fn respond(id: u64, outcome: HandlerOutcome) -> (r: RpcResponse)
    ensures
        response_for(id, outcome, r),
{
    match outcome {
        HandlerOutcome::Rejected(e) => RpcResponse::error(id, e),
        HandlerOutcome::Answered(v) => RpcResponse::success(id, v),
        HandlerOutcome::Failed(e) => RpcResponse::error(id, RpcError::new(INTERNAL_ERROR, e.to_string())),
        HandlerOutcome::SessionMissing(sid) => {
            let mut m = String::from_str("session not found: ");
            m.append(sid.as_str());
            RpcResponse::error(id, RpcError::new(NOT_FOUND, m))
        },
    }
}

/// The answer to a line that is not a JSON-RPC request: a parse error
/// under id 0.
pub fn unparsable_request(message: String) -> (r: RpcResponse)
    ensures
        r.jsonrpc@ == "2.0"@,
        r.id == 0,
        r.result is None,
        r.error matches Some(e) && e.code == PARSE_ERROR && e.message == message && e.data is None,
{
    RpcResponse::error(0, RpcError::new(PARSE_ERROR, message))
}

/// What the status method asks storage for: the streaming sessions, first
/// hundred.
pub fn status_session_query() -> (r: SessionsListParams)
    ensures
        r.status == Some(SessionStatus::Streaming),
        r.limit == 100,
        r.offset == 0,
{
    SessionsListParams { status: Some(SessionStatus::Streaming), limit: 100, offset: 0 }
}

/// The number of active sessions the status reports: the streaming total,
/// kept to its low 32 bits as the status field holds 32 bits.
pub fn active_session_count(total_count: u64) -> (r: u32)
    ensures
        r == total_count % 0x1_0000_0000,
{
    (total_count % 0x1_0000_0000) as u32
}

/// The model the status reports as current: that of the most recently
/// active streaming session, if any.
pub fn current_model(streaming_models: &[ModelType]) -> (r: Option<ModelType>)
    ensures
        r == (if streaming_models@.len() > 0 { Some(streaming_models@[0]) } else { None }),
{
    if streaming_models.len() > 0 {
        Some(streaming_models[0])
    } else {
        None
    }
}

/// Every response carries exactly one of a result and an error, under the
/// id of the request it answers.
pub proof fn law_response_shape(id: u64, outcome: HandlerOutcome, r: RpcResponse)
    requires
        response_for(id, outcome, r),
    ensures
        r.id == id,
        r.result is Some <==> r.error is None,
{
}

/// A request for a method the daemon does not offer is answered with a
/// method-not-found error that names the method, under the request's id.
pub proof fn law_unknown_method_answer(req: RpcRequest, e: RpcError, r: RpcResponse)
    requires
        method_named(req.method@) is None,
        e.code == METHOD_NOT_FOUND && e.message@ == "unknown method: "@ + req.method@,
        response_for(req.id, HandlerOutcome::Rejected(e), r),
    ensures
        r.id == req.id,
        r.result is None,
        r.error matches Some(err) && err.code == METHOD_NOT_FOUND && err.message@ == "unknown method: "@
            + req.method@,
{
}

/// Dispatches a request whose method is unknown straight to its answer;
/// known methods are handed back for storage to serve.
pub fn dispatch(req: &RpcRequest) -> (r: Result<MethodKind, RpcResponse>)
    ensures
        match r {
            Ok(k) => method_named(req.method@) == Some(k),
            Err(resp) => method_named(req.method@) is None && response_for(
                req.id,
                HandlerOutcome::Rejected(
                    RpcError { code: METHOD_NOT_FOUND, message: resp.error->0.message, data: None },
                ),
                resp,
            ) && resp.error->0.message@ == "unknown method: "@ + req.method@,
        },
{
    match classify_request(req) {
        Ok(k) => Ok(k),
        Err(e) => Err(respond(req.id, HandlerOutcome::Rejected(e))),
    }
}

} // verus!
