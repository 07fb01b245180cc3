use mcp_atlassian::json::Json;
use mcp_atlassian::parse::parse_json;
use mcp_atlassian::protocol::{
    extract_request, CallToolResult, JsonRpcError, JsonRpcResponse, ToolContent, INTERNAL_ERROR,
    INVALID_PARAMS, INVALID_REQUEST, METHOD_NOT_FOUND, PARSE_ERROR, PROTOCOL_VERSION,
    PROTOCOL_VERSION_2025,
};
use mcp_atlassian::unparse::to_json_string;

#[test]
fn test_protocol_version_constants() {
    assert_eq!(PROTOCOL_VERSION, "2024-11-05");
    assert_eq!(PROTOCOL_VERSION_2025, "2025-06-18");
}

#[test]
fn test_error_codes_constants() {
    assert_eq!(PARSE_ERROR, -32700);
    assert_eq!(INVALID_REQUEST, -32600);
    assert_eq!(METHOD_NOT_FOUND, -32601);
    assert_eq!(INVALID_PARAMS, -32602);
    assert_eq!(INTERNAL_ERROR, -32603);
}

#[test]
fn test_jsonrpc_error_parse_error() {
    let error = JsonRpcError::parse_error();
    assert_eq!(error.code, PARSE_ERROR);
    assert_eq!(error.message, "Parse error");
    assert!(error.data.is_none());
}

#[test]
fn test_jsonrpc_error_invalid_request() {
    let error = JsonRpcError::invalid_request();
    assert_eq!(error.code, INVALID_REQUEST);
    assert_eq!(error.message, "Invalid request");
}

#[test]
fn test_jsonrpc_error_method_not_found() {
    let error = JsonRpcError::method_not_found("unknown/method");
    assert_eq!(error.code, METHOD_NOT_FOUND);
    assert_eq!(error.message, "Method not found: unknown/method");
}

#[test]
fn test_jsonrpc_error_invalid_params() {
    let error = JsonRpcError::invalid_params("Missing required parameter".to_string());
    assert_eq!(error.code, INVALID_PARAMS);
    assert_eq!(error.message, "Missing required parameter");
}

#[test]
fn test_jsonrpc_error_internal_error() {
    let error = JsonRpcError::internal_error("Database connection failed".to_string());
    assert_eq!(error.code, INTERNAL_ERROR);
    assert_eq!(error.message, "Database connection failed");
}

#[test]
fn test_jsonrpc_response_success() {
    let result = parse_json(r#"{"status": "ok"}"#).unwrap();
    let response = JsonRpcResponse::success(Some(Json::Num("1".to_string())), result);
    assert_eq!(response.jsonrpc, "2.0");
    assert!(response.result.is_some());
    assert!(response.error.is_none());
    assert!(response.id.is_some());
}

#[test]
fn test_jsonrpc_response_error() {
    let error = JsonRpcError::parse_error();
    let response = JsonRpcResponse::error(Some(Json::Num("2".to_string())), error);
    assert_eq!(response.jsonrpc, "2.0");
    assert!(response.result.is_none());
    assert!(response.error.is_some());
    let line = to_json_string(&response.to_json());
    assert!(line.ends_with("\"id\":2}"));
}

#[test]
fn test_jsonrpc_request_deserialization() {
    let json_str = r#"{"jsonrpc":"2.0","method":"tools/call","params":{"name":"test"},"id":1}"#;
    let parsed = parse_json(json_str).unwrap();
    let request = extract_request(&parsed).unwrap();
    assert_eq!(request.jsonrpc, "2.0");
    assert_eq!(request.method, "tools/call");
    assert!(request.params.is_some());
    assert!(request.id.is_some());
}

#[test]
fn test_jsonrpc_request_null_id_is_notification() {
    let json_str = r#"{"jsonrpc":"2.0","method":"initialized","id":null}"#;
    let parsed = parse_json(json_str).unwrap();
    let request = extract_request(&parsed).unwrap();
    assert!(request.id.is_none());
}

#[test]
fn test_tool_content_text() {
    let content = ToolContent::Text { text: "Test result".to_string() };
    match content {
        ToolContent::Text { text } => assert_eq!(text, "Test result"),
        _ => panic!("Expected Text variant"),
    }
}

#[test]
fn test_tool_content_image() {
    let content =
        ToolContent::Image { data: "base64data".to_string(), mime_type: "image/png".to_string() };
    match content {
        ToolContent::Image { data, mime_type } => {
            assert_eq!(data, "base64data");
            assert_eq!(mime_type, "image/png");
        },
        _ => panic!("Expected Image variant"),
    }
}

#[test]
fn test_call_tool_result_structure() {
    let result = CallToolResult {
        content: vec![
            ToolContent::Text { text: "Result 1".to_string() },
            ToolContent::Text { text: "Result 2".to_string() },
        ],
    };
    assert_eq!(result.content.len(), 2);
}

#[test]
fn test_call_tool_result_serialization() {
    let result = CallToolResult {
        content: vec![ToolContent::Text { text: "hi".to_string() }],
    };
    let line = to_json_string(&result.to_json());
    assert_eq!(line, r#"{"content":[{"type":"text","text":"hi"}]}"#);
}

#[test]
fn test_extract_request_rejects_missing_method() {
    let parsed = parse_json(r#"{"jsonrpc":"2.0","id":1}"#).unwrap();
    assert!(extract_request(&parsed).is_none());
}
