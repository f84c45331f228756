use oracle_cloud_mcp::args::{ArgValue, ToolArgs};
use oracle_cloud_mcp::request::HttpMethod;
use oracle_cloud_mcp::response::{after_send, api_error, http_error, json_error, tool_reply, NextStep, SendOutcome};
use oracle_cloud_mcp::rpc::{
    is_answered, jsonrpc_version, method_not_found, protocol_version, requested_tool, route, server_name, RpcRoute,
};

fn ok(status: &str) -> SendOutcome {
    SendOutcome::Responded { success: true, status: status.to_string() }
}

#[test]
fn transport_error_fails_the_call() {
    let step = after_send(HttpMethod::Get, SendOutcome::Failed("connection refused".to_string()));
    assert_eq!(step, NextStep::Fail("HTTP error: connection refused".to_string()));
    assert_eq!(http_error("x"), "HTTP error: x");
}

#[test]
fn failing_status_reads_error_body() {
    for m in [HttpMethod::Get, HttpMethod::Post, HttpMethod::Delete] {
        let step = after_send(m, SendOutcome::Responded { success: false, status: "404 Not Found".to_string() });
        assert_eq!(step, NextStep::ReadErrorBody("404 Not Found".to_string()));
    }
    assert_eq!(
        api_error("404 Not Found", Some("{\"code\":\"NotAuthorizedOrNotFound\"}".to_string())),
        "OCI API error (404 Not Found): {\"code\":\"NotAuthorizedOrNotFound\"}"
    );
    assert_eq!(api_error("500 Internal Server Error", None), "OCI API error (500 Internal Server Error): ");
}

#[test]
fn success_reads_json_or_reports_deletion() {
    assert_eq!(after_send(HttpMethod::Get, ok("200 OK")), NextStep::ReadJson);
    assert_eq!(after_send(HttpMethod::Post, ok("200 OK")), NextStep::ReadJson);
    assert_eq!(after_send(HttpMethod::Delete, ok("204 No Content")), NextStep::Deleted);
    assert_eq!(json_error("EOF while parsing"), "JSON error: EOF while parsing");
}

#[test]
fn tool_replies() {
    let r = tool_reply(Ok("{\n  \"a\": 1\n}".to_string()));
    assert_eq!(r.text, "{\n  \"a\": 1\n}");
    assert!(!r.is_error);
    let r = tool_reply(Err("Unknown tool: x".to_string()));
    assert_eq!(r.text, "Error: Unknown tool: x");
    assert!(r.is_error);
}

#[test]
fn routes_of_methods() {
    assert_eq!(route("initialize"), RpcRoute::Initialize);
    assert_eq!(route("notifications/initialized"), RpcRoute::Initialized);
    assert_eq!(route("tools/list"), RpcRoute::ListTools);
    assert_eq!(route("tools/call"), RpcRoute::CallTool);
    assert_eq!(route("resources/list"), RpcRoute::Unknown);
    assert_eq!(route("Initialize"), RpcRoute::Unknown);
}

#[test]
fn only_the_notification_is_unanswered() {
    for m in ["initialize", "tools/list", "tools/call", "ping", ""] {
        assert!(is_answered(route(m)), "{m}");
    }
    assert!(!is_answered(route("notifications/initialized")));
}

#[test]
fn unknown_method_error() {
    let e = method_not_found("prompts/list");
    assert_eq!(e.code, -32601);
    assert_eq!(e.message, "method not found: prompts/list");
}

#[test]
fn requested_tool_name() {
    let mut p = ToolArgs::new();
    assert_eq!(requested_tool(&p), "");
    p.insert("name".to_string(), ArgValue::UInt(3));
    assert_eq!(requested_tool(&p), "");
    p.insert("name".to_string(), ArgValue::Str("oci_vcn_list".to_string()));
    assert_eq!(requested_tool(&p), "oci_vcn_list");
}

#[test]
fn protocol_constants() {
    assert_eq!(jsonrpc_version(), "2.0");
    assert_eq!(protocol_version(), "2024-11-05");
    assert_eq!(server_name(), "oracle-cloud-mcp");
}

#[test]
fn post_and_delete_read_replies_like_get() {
    let outcomes = || {
        vec![
            SendOutcome::Failed("timeout".to_string()),
            SendOutcome::Responded { success: false, status: "403 Forbidden".to_string() },
            ok("200 OK"),
        ]
    };
    for (g, p) in outcomes().into_iter().zip(outcomes()) {
        assert_eq!(after_send(HttpMethod::Get, g), after_send(HttpMethod::Post, p));
    }
    for (i, (g, d)) in outcomes().into_iter().zip(outcomes()).enumerate() {
        let (g, d) = (after_send(HttpMethod::Get, g), after_send(HttpMethod::Delete, d));
        if i == 2 {
            assert_eq!((g, d), (NextStep::ReadJson, NextStep::Deleted));
        } else {
            assert_eq!(g, d);
        }
    }
}
