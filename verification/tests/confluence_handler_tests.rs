use mcp_atlassian::config::Config;
use mcp_atlassian::confluence::{
    CreatePageHandler, GetCommentsHandler, GetPageChildrenHandler, GetPageHandler, SearchHandler,
    UpdatePageHandler,
};
use mcp_atlassian::http::HttpOutcome;
use mcp_atlassian::json::Json;
use mcp_atlassian::parse::parse_json;
use mcp_atlassian::unparse::to_json_string;

fn create_test_config(confluence_spaces_filter: Vec<String>) -> Config {
    Config {
        atlassian_domain: "test.atlassian.net".to_string(),
        atlassian_email: "test@example.com".to_string(),
        atlassian_api_token: "token123".to_string(),
        max_connections: 10,
        request_timeout_ms: 30000,
        jira_projects_filter: vec![],
        confluence_spaces_filter,
        jira_search_default_fields: None,
        jira_search_custom_fields: vec![],
        response_exclude_fields: None,
    }
}

fn args(text: &str) -> Json {
    parse_json(text).unwrap()
}

fn to_serde(v: &Json) -> serde_json::Value {
    serde_json::from_str(&to_json_string(v)).unwrap()
}

fn ok_outcome(body: &str) -> HttpOutcome {
    HttpOutcome { success: true, status: "200 OK".to_string(), body: body.to_string() }
}

#[test]
fn test_search_handler_missing_query() {
    let config = create_test_config(vec![]);
    let result = SearchHandler::prepare(&args("{}"), &config);
    assert!(result.is_err());
    assert!(result.unwrap_err().contains("Missing query"));
}

#[test]
fn mod_test_search_handler_default_limit() {
    let config = create_test_config(vec![]);
    let plan = SearchHandler::prepare(&args(r#"{"query": "type=page"}"#), &config).unwrap();
    assert!(plan.query.contains(&("limit".to_string(), "10".to_string())));
}

#[test]
fn mod_test_search_handler_custom_limit() {
    let config = create_test_config(vec![]);
    let plan =
        SearchHandler::prepare(&args(r#"{"query": "type=page", "limit": 25}"#), &config).unwrap();
    assert!(plan.query.contains(&("limit".to_string(), "25".to_string())));
}

#[test]
fn test_search_handler_space_filter_injection() {
    let config = create_test_config(vec!["SPACE1".to_string(), "SPACE2".to_string()]);
    let cql = "type = page";
    let final_cql = if !config.confluence_spaces_filter.is_empty() {
        let cql_lower = cql.to_lowercase();
        if cql_lower.contains("space ")
            || cql_lower.contains("space=")
            || cql_lower.contains("space in")
        {
            cql.to_string()
        } else {
            let spaces = config
                .confluence_spaces_filter
                .iter()
                .map(|s| format!("\"{}\"", s))
                .collect::<Vec<_>>()
                .join(",");
            format!("space IN ({}) AND ({})", spaces, cql)
        }
    } else {
        cql.to_string()
    };
    assert_eq!(final_cql, "space IN (\"SPACE1\",\"SPACE2\") AND (type = page)");

    let plan = SearchHandler::prepare(&args(r#"{"query": "type = page"}"#), &config).unwrap();
    assert!(plan.query.contains(&("cql".to_string(), final_cql)));
}

#[test]
fn test_search_handler_space_filter_not_injected_when_present() {
    let config = create_test_config(vec!["SPACE1".to_string()]);
    let cql = "space = MYSPACE AND type = page";
    let plan = SearchHandler::prepare(
        &args(r#"{"query": "space = MYSPACE AND type = page"}"#),
        &config,
    )
    .unwrap();
    assert!(plan.query.contains(&("cql".to_string(), cql.to_string())));
}

#[test]
fn test_get_page_handler_missing_page_id() {
    let config = create_test_config(vec![]);
    let result = GetPageHandler::prepare(&args("{}"), &config, vec![]);
    assert!(result.is_err());
    assert!(result.unwrap_err().contains("Missing page_id"));
}

#[test]
fn test_get_page_handler_valid_page_id() {
    let config = create_test_config(vec![]);
    let plan = GetPageHandler::prepare(&args(r#"{"page_id": "12345"}"#), &config, vec![]).unwrap();
    assert_eq!(plan.url, "https://test.atlassian.net/wiki/api/v2/pages/12345");
}

#[test]
fn test_get_page_handler_url_construction() {
    let config = create_test_config(vec![]);
    let page_id = "12345";
    let url = format!(
        "{}/wiki/api/v2/pages/{}",
        config.get_atlassian_base_url(),
        page_id
    );
    assert_eq!(url, "https://test.atlassian.net/wiki/api/v2/pages/12345");
}

#[test]
fn test_get_page_children_handler_missing_page_id() {
    let config = create_test_config(vec![]);
    let result = GetPageChildrenHandler::prepare(&args("{}"), &config, vec![]);
    assert!(result.is_err());
    assert!(result.unwrap_err().contains("Missing page_id"));
}

#[test]
fn test_get_page_children_handler_url_construction() {
    let config = create_test_config(vec![]);
    let page_id = "12345";
    let url = format!(
        "{}/wiki/api/v2/pages/{}/children",
        config.get_atlassian_base_url(),
        page_id
    );
    assert_eq!(url, "https://test.atlassian.net/wiki/api/v2/pages/12345/children");
    let plan =
        GetPageChildrenHandler::prepare(&args(r#"{"page_id": "12345"}"#), &config, vec![]).unwrap();
    assert_eq!(plan.url, url);
}

#[test]
fn test_get_comments_handler_missing_page_id() {
    let config = create_test_config(vec![]);
    let result = GetCommentsHandler::prepare(&args("{}"), &config, vec![]);
    assert!(result.is_err());
    assert!(result.unwrap_err().contains("Missing page_id"));
}

#[test]
fn test_get_comments_handler_url_construction() {
    let config = create_test_config(vec![]);
    let page_id = "12345";
    let url = format!(
        "{}/wiki/api/v2/pages/{}/footer-comments",
        config.get_atlassian_base_url(),
        page_id
    );
    assert_eq!(url, "https://test.atlassian.net/wiki/api/v2/pages/12345/footer-comments");
    let plan =
        GetCommentsHandler::prepare(&args(r#"{"page_id": "12345"}"#), &config, vec![]).unwrap();
    assert_eq!(plan.url, url);
}

#[test]
fn test_create_page_handler_missing_space_key() {
    let config = create_test_config(vec![]);
    let result = CreatePageHandler::prepare_space_lookup(
        &args(r#"{"title": "Test Page", "content": "<p>Test content</p>"}"#),
        &config,
    );
    assert!(result.is_err());
    assert!(result.unwrap_err().contains("Missing space_key"));
}

#[test]
fn test_create_page_handler_missing_title() {
    let config = create_test_config(vec![]);
    let result = CreatePageHandler::prepare_space_lookup(
        &args(r#"{"space_key": "TEST", "content": "<p>Test content</p>"}"#),
        &config,
    );
    assert!(result.is_err());
    assert!(result.unwrap_err().contains("Missing title"));
}

#[test]
fn test_create_page_handler_missing_content() {
    let config = create_test_config(vec![]);
    let result = CreatePageHandler::prepare_space_lookup(
        &args(r#"{"space_key": "TEST", "title": "Test Page"}"#),
        &config,
    );
    assert!(result.is_err());
    assert!(result.unwrap_err().contains("Missing content"));
}

#[test]
fn test_create_page_handler_body_format() {
    let config = create_test_config(vec![]);
    let a = args(
        r#"{"space_key": "TEST", "title": "Test Page", "content": "<p>Test content</p>"}"#,
    );
    let lookup = CreatePageHandler::prepare_space_lookup(&a, &config).unwrap();
    assert_eq!(lookup.url, "https://test.atlassian.net/wiki/api/v2/spaces");
    assert!(lookup.query.contains(&("keys".to_string(), "TEST".to_string())));

    let space_response = ok_outcome(r#"{"results": [{"id": "space123", "key": "TEST"}]}"#);
    let plan = CreatePageHandler::prepare_create(&a, &config, vec![], space_response).unwrap();
    let body = to_serde(&plan.body.unwrap());
    assert_eq!(body["spaceId"], "space123");
    assert_eq!(body["title"], "Test Page");
    assert_eq!(body["body"]["representation"], "storage");
    assert_eq!(body["body"]["value"], "<p>Test content</p>");
}

#[test]
fn test_create_page_handler_space_not_found() {
    let config = create_test_config(vec![]);
    let a = args(r#"{"space_key": "NOPE", "title": "T", "content": "C"}"#);
    let space_response = ok_outcome(r#"{"results": []}"#);
    let result = CreatePageHandler::prepare_create(&a, &config, vec![], space_response);
    assert_eq!(result.unwrap_err(), "Space 'NOPE' not found");
}

#[test]
fn test_update_page_handler_missing_page_id() {
    let config = create_test_config(vec![]);
    let result = UpdatePageHandler::prepare_get(
        &args(r#"{"title": "Updated Title", "content": "<p>Updated content</p>"}"#),
        &config,
    );
    assert!(result.is_err());
    assert!(result.unwrap_err().contains("Missing page_id"));
}

#[test]
fn test_update_page_handler_missing_title() {
    let config = create_test_config(vec![]);
    let result = UpdatePageHandler::prepare_get(
        &args(r#"{"page_id": "12345", "content": "<p>Updated content</p>"}"#),
        &config,
    );
    assert!(result.is_err());
    assert!(result.unwrap_err().contains("Missing title"));
}

#[test]
fn test_update_page_handler_missing_content() {
    let config = create_test_config(vec![]);
    let result = UpdatePageHandler::prepare_get(
        &args(r#"{"page_id": "12345", "title": "Updated Title"}"#),
        &config,
    );
    assert!(result.is_err());
    assert!(result.unwrap_err().contains("Missing content"));
}

#[test]
fn test_update_page_handler_body_format() {
    let config = create_test_config(vec![]);
    let a = args(
        r#"{"page_id": "12345", "title": "Updated Title", "content": "<p>Updated content</p>"}"#,
    );
    let current = ok_outcome(r#"{"id": "12345", "version": {"number": 5}}"#);
    let plan = UpdatePageHandler::prepare_update(&a, &config, vec![], current).unwrap();
    let body = to_serde(&plan.body.unwrap());
    assert_eq!(body["id"], "12345");
    assert_eq!(body["title"], "Updated Title");
    assert_eq!(body["body"]["representation"], "storage");
    assert_eq!(body["body"]["value"], "<p>Updated content</p>");
    assert_eq!(body["version"]["number"], 6);
}

#[test]
fn test_update_page_handler_missing_version_fails() {
    let config = create_test_config(vec![]);
    let a = args(r#"{"page_id": "12345", "title": "T", "content": "C"}"#);
    let current = ok_outcome(r#"{"id": "12345"}"#);
    let result = UpdatePageHandler::prepare_update(&a, &config, vec![], current);
    assert_eq!(result.unwrap_err(), "Failed to get current version");
}
