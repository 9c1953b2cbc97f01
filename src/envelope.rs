//! The JSON-RPC request and response envelopes, and the responses that the
//! bridge synthesizes itself.
use vstd::prelude::*;
use vstd::string::StringExecFns;

verus! {

#[verifier::external_type_specification]
#[verifier::external_body]
pub struct ExValue(serde_json::Value);

/// Reserved code: the caller's payload could not be decoded.
pub const PARSE_ERROR: i32 = -32700;

/// Reserved code: the bridge could not complete the call.
pub const INTERNAL_ERROR: i32 = -32603;

/// A request as the caller sent it.
pub struct JsonRpcRequest {
    pub jsonrpc: String,
    pub method: String,
    pub params: Option<serde_json::Value>,
    pub id: u64,
}

/// A response, or an unsolicited event when `id` is absent.
pub struct JsonRpcResponse {
    pub jsonrpc: String,
    pub result: Option<serde_json::Value>,
    pub error: Option<JsonRpcError>,
    pub id: Option<u64>,
}

pub struct JsonRpcError {
    pub code: i32,
    pub message: String,
    pub data: Option<serde_json::Value>,
}

/// What the host reports about its environment and the backend at start-up.
pub struct DebugInfo {
    pub is_dev: bool,
    pub is_packaged: bool,
    pub resources_path: String,
    pub app_path: String,
    pub user_data_path: String,
    pub backend_error: Option<String>,
    pub backend_running: bool,
}

/// `r` is an error response with this code, message and identifier, and no
/// result.
pub open spec fn is_failure(r: JsonRpcResponse, code: i32, message: Seq<char>, id: Option<u64>) -> bool {
    &&& r.jsonrpc@ == "2.0"@
    &&& r.result is None
    &&& r.id == id
    &&& r.error matches Some(e) && e.code == code && e.message@ == message && e.data is None
}

impl JsonRpcResponse {
    /// An error response with no data attached.
    pub fn failure(code: i32, message: String, id: Option<u64>) -> (r: JsonRpcResponse)
        ensures
            is_failure(r, code, message@, id),
    {
        JsonRpcResponse {
            jsonrpc: String::from_str("2.0"),
            result: None,
            error: Some(JsonRpcError { code, message, data: None }),
            id,
        }
    }
}

impl DebugInfo {
    /// The report for a host build (`is_dev` for a development build) with
    /// the given paths and backend status.
    pub fn new(
        is_dev: bool,
        resources_path: String,
        app_path: String,
        user_data_path: String,
        backend_error: Option<String>,
        backend_running: bool,
    ) -> (r: DebugInfo)
        ensures
            r.is_dev == is_dev,
            r.is_packaged == !is_dev,
            r.resources_path == resources_path,
            r.app_path == app_path,
            r.user_data_path == user_data_path,
            r.backend_error == backend_error,
            r.backend_running == backend_running,
    {
        DebugInfo {
            is_dev,
            is_packaged: !is_dev,
            resources_path,
            app_path,
            user_data_path,
            backend_error,
            backend_running,
        }
    }
}

/// `prefix` followed by `detail`.
pub fn prefixed(prefix: &str, detail: &str) -> (r: String)
    ensures
        r@ == prefix@ + detail@,
{
    let mut r = String::from_str(prefix);
    r.append(detail);
    r
}

} // verus!
