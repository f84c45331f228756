//! The JSON-RPC side of the MCP server: which methods it answers, and how.

use vstd::prelude::*;
use crate::args::{str_of, ToolArgs};
use crate::text::text_eq;

verus! {

/// What the server does with a request, by its method.
#[derive(PartialEq, Eq, Structural, Clone, Copy, Debug)]
pub enum RpcRoute {
    /// `initialize`: answer with the protocol version, capabilities and
    /// server information.
    Initialize,
    /// `notifications/initialized`: a notification, not answered.
    Initialized,
    /// `tools/list`: answer with the tool catalogue.
    ListTools,
    /// `tools/call`: run a tool and answer with its result.
    CallTool,
    /// Any other method: answer with a method-not-found error.
    Unknown,
}

/// The route of a method name.
pub open spec fn route_spec(method: Seq<char>) -> RpcRoute {
    if method == "initialize"@ {
        RpcRoute::Initialize
    } else if method == "notifications/initialized"@ {
        RpcRoute::Initialized
    } else if method == "tools/list"@ {
        RpcRoute::ListTools
    } else if method == "tools/call"@ {
        RpcRoute::CallTool
    } else {
        RpcRoute::Unknown
    }
}

/// Whether a request on this route gets an answer.
pub open spec fn answered(route: RpcRoute) -> bool {
    route != RpcRoute::Initialized
}

/// The route of the method `method`.
pub fn route(method: &str) -> (r: RpcRoute)
    ensures
        r == route_spec(method@),
{
    if text_eq(method, "initialize") {
        RpcRoute::Initialize
    } else if text_eq(method, "notifications/initialized") {
        RpcRoute::Initialized
    } else if text_eq(method, "tools/list") {
        RpcRoute::ListTools
    } else if text_eq(method, "tools/call") {
        RpcRoute::CallTool
    } else {
        RpcRoute::Unknown
    }
}

/// Whether a request on `route` gets an answer.
pub fn is_answered(route: RpcRoute) -> (r: bool)
    ensures
        r == answered(route),
{
    route != RpcRoute::Initialized
}

/// A JSON-RPC error: its code and message.
#[derive(Debug, PartialEq, Eq)]
pub struct RpcError {
    pub code: i64,
    pub message: String,
}

/// The JSON-RPC code of an unknown method.
pub open spec fn method_not_found_code() -> i64 {
    -32601i64
}

/// The message of an unknown method.
pub open spec fn method_not_found_message(method: Seq<char>) -> Seq<char> {
    "method not found: "@ + method
}

/// The error that answers a request for an unknown method.
pub fn method_not_found(method: &str) -> (r: RpcError)
    ensures
        r.code == method_not_found_code(),
        r.message@ == method_not_found_message(method@),
{
    let mut message = String::from_str("method not found: ");
    message.append(method);
    RpcError { code: -32601, message }
}

/// The tool a `tools/call` request names: its `name` parameter where that
/// is a string, the empty name otherwise.
pub fn requested_tool(params: &ToolArgs) -> (r: &str)
    ensures
        r@ == (match str_of(params.lookup("name"@)) {
            Some(n) => n,
            None => ""@,
        }),
{
    match params.str_arg("name") {
        Some(n) => n,
        None => "",
    }
}

/// The version of the JSON-RPC protocol.
pub fn jsonrpc_version() -> (r: &'static str)
    ensures
        r@ == "2.0"@,
{
    "2.0"
}

/// The MCP protocol version the server speaks.
pub fn protocol_version() -> (r: &'static str)
    ensures
        r@ == "2024-11-05"@,
{
    "2024-11-05"
}

/// The name under which the server introduces itself.
pub fn server_name() -> (r: &'static str)
    ensures
        r@ == "oracle-cloud-mcp"@,
{
    "oracle-cloud-mcp"
}

} // verus!
