use mcp_sdk::protocol::{
    CallToolResult, Content, JsonRpcResponse, ProtocolVersion, PromptsCapability, RequestId,
    ResourcesCapability, ServerCapabilities, ToolsCapability,
};

fn json(text: &str) -> serde_json::Value {
    serde_json::from_str(text).unwrap()
}

#[test]
fn test_request_id_null() {
    let id = RequestId::null();
    match id {
        RequestId::Number(0) => {}
        _ => panic!("Expected Number(0)"),
    }
}

#[test]
fn test_request_id_from_i64() {
    let id: RequestId = 99i64.into();
    match id {
        RequestId::Number(n) => assert_eq!(n, 99),
        _ => panic!("Expected Number"),
    }
}

#[test]
fn test_request_id_from_str() {
    let id: RequestId = "req-1".into();
    match id {
        RequestId::String(s) => assert_eq!(s, "req-1"),
        _ => panic!("Expected String"),
    }
}

#[test]
fn test_request_id_partial_eq() {
    assert_eq!(RequestId::Number(1), RequestId::Number(1));
    assert_ne!(RequestId::Number(1), RequestId::Number(2));
    assert_eq!(RequestId::String("a".into()), RequestId::String("a".into()));
    assert_ne!(RequestId::String("a".into()), RequestId::String("b".into()));
    assert_ne!(RequestId::Number(1), RequestId::String("1".into()));
}

#[test]
fn test_request_id_clone_keeps_value() {
    let id = RequestId::String("req-xyz".into());
    assert_eq!(id.clone(), id);
}

#[test]
fn test_jsonrpc_response_success_fields() {
    let response = JsonRpcResponse::success(RequestId::Number(1), json(r#"{"ok": true}"#));
    assert_eq!(response.jsonrpc, "2.0");
    assert_eq!(response.id, RequestId::Number(1));
    assert_eq!(response.result, Some(json(r#"{"ok": true}"#)));
    assert!(response.error.is_none());
}

#[test]
fn test_jsonrpc_response_error_fields() {
    let response = JsonRpcResponse::error(
        RequestId::Number(3),
        -32602,
        "Invalid params".into(),
        Some(json(r#"{"field": "name"}"#)),
    );
    assert_eq!(response.jsonrpc, "2.0");
    assert_eq!(response.id, RequestId::Number(3));
    assert!(response.result.is_none());
    let error = response.error.unwrap();
    assert_eq!(error.code, -32602);
    assert_eq!(error.message, "Invalid params");
    assert_eq!(error.data, Some(json(r#"{"field": "name"}"#)));
}

#[test]
fn test_server_capabilities_default_is_empty() {
    let caps = ServerCapabilities::default();
    assert!(caps.tools.is_none());
    assert!(caps.resources.is_none());
    assert!(caps.prompts.is_none());
    assert!(caps.logging.is_none());
}

#[test]
fn test_tools_capability_default() {
    let cap = ToolsCapability::default();
    assert!(!cap.list_changed);
}

#[test]
fn test_resources_capability_default() {
    let cap = ResourcesCapability::default();
    assert!(!cap.subscribe);
    assert!(!cap.list_changed);
}

#[test]
fn test_prompts_capability_default() {
    let cap = PromptsCapability::default();
    assert!(!cap.list_changed);
}

#[test]
fn test_call_tool_result_text() {
    let result = CallToolResult::text("hello");
    assert!(!result.is_error);
    assert_eq!(result.content.len(), 1);
    match &result.content[0] {
        Content::Text { text } => assert_eq!(text, "hello"),
        _ => panic!("Expected text"),
    }
}

#[test]
fn test_call_tool_result_error() {
    let result = CallToolResult::error("failed");
    assert!(result.is_error);
    match &result.content[0] {
        Content::Text { text } => assert_eq!(text, "failed"),
        _ => panic!("Expected error text"),
    }
}

#[test]
fn test_call_tool_result_text_from_string() {
    let msg: String = "from string".into();
    let result = CallToolResult::text(&msg);
    match &result.content[0] {
        Content::Text { text } => assert_eq!(text, "from string"),
        _ => panic!("Expected text"),
    }
}

#[test]
fn test_content_text_constructor_from_str() {
    let content = Content::text("from &str");
    match content {
        Content::Text { text } => assert_eq!(text, "from &str"),
        _ => panic!("Expected Text"),
    }
}

#[test]
fn test_content_text_constructor_from_string() {
    let s: String = "from String".into();
    let content = Content::text(&s);
    match content {
        Content::Text { text } => assert_eq!(text, "from String"),
        _ => panic!("Expected Text"),
    }
}

#[test]
fn test_protocol_version_v20241105() {
    assert_eq!(ProtocolVersion::V20241105.as_str(), "2024-11-05");
}

#[test]
fn test_protocol_version_latest() {
    assert_eq!(ProtocolVersion::Latest.as_str(), "2024-11-05");
}

#[test]
fn test_protocol_version_default() {
    let version = ProtocolVersion::default();
    match version {
        ProtocolVersion::Latest => {}
        _ => panic!("Expected Latest as default"),
    }
}

#[test]
fn test_protocol_version_copy() {
    let v1 = ProtocolVersion::V20241105;
    let v2 = v1;
    assert_eq!(v1.as_str(), v2.as_str());
}
