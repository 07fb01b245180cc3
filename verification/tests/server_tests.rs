use mcp_atlassian::config::Config;
use mcp_atlassian::json::Json;
use mcp_atlassian::parse::parse_json;
use mcp_atlassian::registry::{is_read_tool, list_tools, tool_to_mcp_tool};
use mcp_atlassian::server::{response_line, McpServer, PendingCall, RouteOutcome};
use mcp_atlassian::unparse::{to_json_string, to_pretty_string};

fn test_config() -> Config {
    Config {
        atlassian_domain: "test.atlassian.net".to_string(),
        atlassian_email: "test@example.com".to_string(),
        atlassian_api_token: "token123".to_string(),
        max_connections: 100,
        request_timeout_ms: 30000,
        jira_projects_filter: vec![],
        confluence_spaces_filter: vec![],
        jira_search_default_fields: None,
        jira_search_custom_fields: vec![],
        response_exclude_fields: None,
    }
}

fn reply_line(outcome: RouteOutcome) -> String {
    match outcome {
        RouteOutcome::Reply(resp) => response_line(resp),
        _ => panic!("expected a reply"),
    }
}

fn initialize_server() -> McpServer {
    let mut server = McpServer::new(test_config());
    let outcome =
        server.process_request(r#"{"jsonrpc":"2.0","method":"notifications/initialized"}"#);
    assert!(matches!(outcome, RouteOutcome::NoReply));
    server
}

#[test]
fn test_unknown_method_end_to_end() {
    let mut server = McpServer::new(test_config());
    let line = reply_line(
        server.process_request(r#"{"jsonrpc":"2.0","method":"unknown/thing","id":1}"#),
    );
    assert_eq!(
        line,
        r#"{"jsonrpc":"2.0","error":{"code":-32601,"message":"Method not found: unknown/thing"},"id":1}"#
    );
}

#[test]
fn test_parse_error_end_to_end() {
    let mut server = McpServer::new(test_config());
    let line = reply_line(server.process_request("this is not json"));
    assert_eq!(
        line,
        r#"{"jsonrpc":"2.0","error":{"code":-32700,"message":"Parse error"},"id":null}"#
    );
}

#[test]
fn test_wrong_version_literal_rejected() {
    let mut server = McpServer::new(test_config());
    let line = reply_line(
        server.process_request(r#"{"jsonrpc":"1.0","method":"tools/list","id":7}"#),
    );
    assert!(line.contains("\"code\":-32600"));
    assert!(line.contains("Invalid request"));
    assert!(line.ends_with("\"id\":7}"));
}

#[test]
fn test_tools_list_before_initialized_fails() {
    let mut server = McpServer::new(test_config());
    let line = reply_line(
        server.process_request(r#"{"jsonrpc":"2.0","method":"tools/list","id":3}"#),
    );
    assert!(line.contains("\"code\":-32603"));
    assert!(line.contains("Server not initialized"));
}

#[test]
fn test_tools_call_before_initialized_fails() {
    let mut server = McpServer::new(test_config());
    let line = reply_line(server.process_request(
        r#"{"jsonrpc":"2.0","method":"tools/call","params":{"name":"jira_search","arguments":{}},"id":4}"#,
    ));
    assert!(line.contains("\"code\":-32603"));
    assert!(line.contains("Server not initialized"));
}

#[test]
fn test_tools_list_after_initialized_succeeds() {
    let mut server = initialize_server();
    let line = reply_line(
        server.process_request(r#"{"jsonrpc":"2.0","method":"tools/list","id":5}"#),
    );
    let v: serde_json::Value = serde_json::from_str(&line).unwrap();
    assert!(v.get("error").is_none());
    assert_eq!(v["result"]["tools"].as_array().unwrap().len(), 14);
}

#[test]
fn test_tools_call_after_initialized_reaches_backend() {
    let mut server = initialize_server();
    let outcome = server.process_request(
        r#"{"jsonrpc":"2.0","method":"tools/call","params":{"name":"jira_get_issue","arguments":{"issue_key":"K-1"}},"id":6}"#,
    );
    match outcome {
        RouteOutcome::Backend(call) => {
            assert_eq!(call.name, "jira_get_issue");
            assert_eq!(to_json_string(&call.arguments), r#"{"issue_key":"K-1"}"#);
        },
        _ => panic!("expected a backend call"),
    }
}

#[test]
fn test_missing_tool_end_to_end() {
    let mut server = initialize_server();
    let line = reply_line(server.process_request(
        r#"{"jsonrpc":"2.0","method":"tools/call","params":{"name":"missing_tool","arguments":{}},"id":2}"#,
    ));
    let v: serde_json::Value = serde_json::from_str(&line).unwrap();
    assert_eq!(v["error"]["code"], -32603);
    assert!(v["error"]["message"].as_str().unwrap().contains("missing_tool"));
    assert_eq!(v["id"], 2);
}

#[test]
fn test_tools_call_missing_params() {
    let mut server = initialize_server();
    let line = reply_line(
        server.process_request(r#"{"jsonrpc":"2.0","method":"tools/call","id":9}"#),
    );
    assert!(line.contains("\"code\":-32602"));
    assert!(line.contains("Missing params"));
}

#[test]
fn test_tools_call_malformed_params_keeps_id() {
    // params present but not an object with a name and arguments:
    // invalid params, and the caller's id comes back with the error
    let mut server = initialize_server();
    let line = reply_line(server.process_request(
        r#"{"jsonrpc":"2.0","method":"tools/call","params":[1,2],"id":21}"#,
    ));
    let v: serde_json::Value = serde_json::from_str(&line).unwrap();
    assert_eq!(v["error"]["code"], -32602);
    assert_eq!(v["error"]["message"], "Invalid tool call parameters");
    assert_eq!(v["id"], 21);

    let line = reply_line(server.process_request(
        r#"{"jsonrpc":"2.0","method":"tools/call","params":{"name":"jira_search"},"id":22}"#,
    ));
    let v: serde_json::Value = serde_json::from_str(&line).unwrap();
    assert_eq!(v["error"]["code"], -32602);
    assert_eq!(v["id"], 22);
}

#[test]
fn test_initialized_request_with_id_gets_empty_success() {
    let mut server = McpServer::new(test_config());
    let line = reply_line(
        server.process_request(r#"{"jsonrpc":"2.0","method":"initialized","id":11}"#),
    );
    assert_eq!(line, r#"{"jsonrpc":"2.0","result":null,"id":11}"#);
}

#[test]
fn test_initialize_negotiates_newer_version() {
    let mut server = McpServer::new(test_config());
    let line = reply_line(server.process_request(
        r#"{"jsonrpc":"2.0","method":"initialize","params":{"protocolVersion":"2025-06-18","capabilities":{},"clientInfo":{"name":"c","version":"1"}},"id":1}"#,
    ));
    let v: serde_json::Value = serde_json::from_str(&line).unwrap();
    assert_eq!(v["result"]["protocolVersion"], "2025-06-18");
    assert_eq!(v["result"]["serverInfo"]["name"], "mcp-atlassian");
}

#[test]
fn test_initialize_negotiates_older_version() {
    let mut server = McpServer::new(test_config());
    let line = reply_line(server.process_request(
        r#"{"jsonrpc":"2.0","method":"initialize","params":{"protocolVersion":"2024-11-05","capabilities":{},"clientInfo":{"name":"c","version":"1"}},"id":1}"#,
    ));
    let v: serde_json::Value = serde_json::from_str(&line).unwrap();
    assert_eq!(v["result"]["protocolVersion"], "2024-11-05");
}

#[test]
fn test_initialize_without_params_uses_newer_version() {
    let mut server = McpServer::new(test_config());
    let line = reply_line(
        server.process_request(r#"{"jsonrpc":"2.0","method":"initialize","id":1}"#),
    );
    let v: serde_json::Value = serde_json::from_str(&line).unwrap();
    assert_eq!(v["result"]["protocolVersion"], "2025-06-18");
}

#[test]
fn test_prompts_and_resources_lists_are_empty() {
    let mut server = initialize_server();
    let line = reply_line(
        server.process_request(r#"{"jsonrpc":"2.0","method":"prompts/list","id":1}"#),
    );
    assert_eq!(line, r#"{"jsonrpc":"2.0","result":{"prompts":[]},"id":1}"#);
    let line = reply_line(
        server.process_request(r#"{"jsonrpc":"2.0","method":"resources/list","id":2}"#),
    );
    assert_eq!(line, r#"{"jsonrpc":"2.0","result":{"resources":[]},"id":2}"#);
}

#[test]
fn test_finish_call_optimizes_read_tool() {
    let server = initialize_server();
    let call = PendingCall {
        name: "jira_get_issue".to_string(),
        arguments: parse_json("{}").unwrap(),
        id: Some(Json::Num("8".to_string())),
    };
    let data = parse_json(r#"{"a":"","b":null,"self":"url","c":{"iconUrl":"x","d":1}}"#).unwrap();
    let resp = server.finish_call(call, Ok(data)).unwrap();
    let line = response_line(resp);
    let v: serde_json::Value = serde_json::from_str(&line).unwrap();
    let text = v["result"]["content"][0]["text"].as_str().unwrap();
    let optimized: serde_json::Value = serde_json::from_str(text).unwrap();
    assert!(optimized.get("a").is_none());
    assert!(optimized.get("self").is_none());
    assert!(optimized["b"].is_null());
    assert!(optimized["c"].get("iconUrl").is_none());
    assert_eq!(optimized["c"]["d"], 1);
    let expected = parse_json(r#"{"b":null,"c":{"d":1}}"#).unwrap();
    assert_eq!(text, to_pretty_string(&expected));
}

#[test]
fn test_finish_call_leaves_mutating_tool_untouched() {
    let server = initialize_server();
    let call = PendingCall {
        name: "jira_create_issue".to_string(),
        arguments: parse_json("{}").unwrap(),
        id: Some(Json::Num("12".to_string())),
    };
    let data = parse_json(r#"{"self":"url","a":""}"#).unwrap();
    let resp = server.finish_call(call, Ok(data)).unwrap();
    let line = response_line(resp);
    let v: serde_json::Value = serde_json::from_str(&line).unwrap();
    let text = v["result"]["content"][0]["text"].as_str().unwrap();
    let kept: serde_json::Value = serde_json::from_str(text).unwrap();
    assert_eq!(kept["self"], "url");
    assert_eq!(kept["a"], "");
}

#[test]
fn test_finish_call_string_result_rides_as_plain_text() {
    let server = initialize_server();
    let call = PendingCall {
        name: "jira_create_issue".to_string(),
        arguments: parse_json("{}").unwrap(),
        id: Some(Json::Num("13".to_string())),
    };
    let resp = server.finish_call(call, Ok(Json::Str("done".to_string()))).unwrap();
    let line = response_line(resp);
    let v: serde_json::Value = serde_json::from_str(&line).unwrap();
    assert_eq!(v["result"]["content"][0]["text"], "done");
}

#[test]
fn test_finish_call_backend_error_surfaces_as_internal() {
    let server = initialize_server();
    let call = PendingCall {
        name: "jira_get_issue".to_string(),
        arguments: parse_json("{}").unwrap(),
        id: Some(Json::Num("3".to_string())),
    };
    let resp = server
        .finish_call(call, Err("Failed to get issue: 404 Not Found".to_string()))
        .unwrap();
    let line = response_line(resp);
    let v: serde_json::Value = serde_json::from_str(&line).unwrap();
    assert_eq!(v["error"]["code"], -32603);
    assert_eq!(v["error"]["message"], "Failed to get issue: 404 Not Found");
}

#[test]
fn test_finish_call_notification_gets_no_reply() {
    // an id-less call is a notification: the operation runs, but no
    // response is owed, whatever its outcome
    let server = initialize_server();
    let call = PendingCall {
        name: "jira_create_issue".to_string(),
        arguments: parse_json("{}").unwrap(),
        id: None,
    };
    let resp = server.finish_call(call, Ok(Json::Str("done".to_string())));
    assert!(resp.is_none());
    let call = PendingCall {
        name: "jira_create_issue".to_string(),
        arguments: parse_json("{}").unwrap(),
        id: None,
    };
    let resp = server.finish_call(call, Err("backend failure".to_string()));
    assert!(resp.is_none());
}

#[test]
fn test_request_handler_creation() {
    let server = McpServer::new(test_config());
    assert!(!server.initialized);
}

#[test]
fn test_list_tools_returns_14_tools() {
    let tools = list_tools(&test_config());
    assert_eq!(tools.len(), 14);
}

#[test]
fn test_list_tools_has_jira_tools() {
    let tools = list_tools(&test_config());
    let jira_tools: Vec<_> = tools.iter().filter(|t| t.name.starts_with("jira_")).collect();
    assert_eq!(jira_tools.len(), 8);
    assert!(tools.iter().any(|t| t.name == "jira_get_issue"));
    assert!(tools.iter().any(|t| t.name == "jira_search"));
    assert!(tools.iter().any(|t| t.name == "jira_create_issue"));
    assert!(tools.iter().any(|t| t.name == "jira_update_comment"));
}

#[test]
fn test_list_tools_has_confluence_tools() {
    let tools = list_tools(&test_config());
    let confluence_tools: Vec<_> =
        tools.iter().filter(|t| t.name.starts_with("confluence_")).collect();
    assert_eq!(confluence_tools.len(), 6);
    assert!(tools.iter().any(|t| t.name == "confluence_search"));
    assert!(tools.iter().any(|t| t.name == "confluence_get_page"));
    assert!(tools.iter().any(|t| t.name == "confluence_create_page"));
}

#[test]
fn test_tool_schema_structure() {
    let tools = list_tools(&test_config());
    for tool in tools {
        assert!(!tool.name.is_empty());
        assert!(!tool.description.is_empty());
        assert_eq!(tool.input_schema.schema_type, "object");
        assert!(!tool.input_schema.properties.is_empty());
        for required_field in &tool.input_schema.required {
            assert!(
                tool.input_schema
                    .properties
                    .iter()
                    .any(|(name, _)| name == required_field),
                "Tool missing required property: {}",
                required_field
            );
        }
    }
}

#[test]
fn test_jira_search_schema_includes_fields_description() {
    let tools = list_tools(&test_config());
    let jira_search = tools.iter().find(|t| t.name == "jira_search").unwrap();
    assert!(jira_search.input_schema.required.contains(&"jql".to_string()));
    let fields_prop = &jira_search
        .input_schema
        .properties
        .iter()
        .find(|(name, _)| name == "fields")
        .unwrap()
        .1;
    let desc = fields_prop.description.as_ref().unwrap();
    assert!(desc.contains("17 default fields"));
}

#[test]
fn test_jira_get_issue_schema() {
    let config = test_config();
    let tool = tool_to_mcp_tool("jira_get_issue", &config);
    assert_eq!(tool.description, "Get Jira issue by key");
    assert!(tool.input_schema.required.contains(&"issue_key".to_string()));
    assert!(tool
        .input_schema
        .properties
        .iter()
        .any(|(name, _)| name == "issue_key"));
}

#[test]
fn test_confluence_create_page_schema() {
    let config = test_config();
    let tool = tool_to_mcp_tool("confluence_create_page", &config);
    assert_eq!(tool.description, "Create Confluence page");
    assert!(tool.input_schema.required.contains(&"space_key".to_string()));
    assert!(tool.input_schema.required.contains(&"title".to_string()));
    assert!(tool.input_schema.required.contains(&"content".to_string()));
    assert!(!tool.input_schema.required.contains(&"parent_id".to_string()));
}

#[test]
fn test_read_tool_classification() {
    assert!(is_read_tool("jira_get_issue"));
    assert!(is_read_tool("jira_search"));
    assert!(is_read_tool("jira_get_transitions"));
    assert!(is_read_tool("confluence_search"));
    assert!(is_read_tool("confluence_get_page"));
    assert!(is_read_tool("confluence_get_page_children"));
    assert!(is_read_tool("confluence_get_comments"));
    assert!(!is_read_tool("jira_create_issue"));
    assert!(!is_read_tool("jira_update_issue"));
    assert!(!is_read_tool("confluence_create_page"));
    assert!(!is_read_tool("confluence_update_page"));
}

#[test]
fn test_log_startup_format() {
    let config = test_config();
    let line = mcp_atlassian::logging::log_startup(&config);
    assert!(line.contains("test.atlassian.net"));
}

#[test]
fn test_log_shutdown_format() {
    let line = mcp_atlassian::logging::log_shutdown();
    assert!(!line.is_empty());
}
