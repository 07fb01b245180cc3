use mcp_atlassian::config::Config;
use mcp_atlassian::jira::{
    build_adf, AddCommentHandler, CreateIssueHandler, GetIssueHandler, GetTransitionsHandler,
    SearchHandler, TransitionIssueHandler, UpdateCommentHandler, UpdateIssueHandler,
};
use mcp_atlassian::json::Json;
use mcp_atlassian::parse::parse_json;
use mcp_atlassian::unparse::to_json_string;

fn create_test_config(
    jira_projects_filter: Vec<String>,
    jira_search_default_fields: Option<Vec<String>>,
) -> Config {
    Config {
        atlassian_domain: "test.atlassian.net".to_string(),
        atlassian_email: "test@example.com".to_string(),
        atlassian_api_token: "token123".to_string(),
        max_connections: 10,
        request_timeout_ms: 30000,
        jira_projects_filter,
        confluence_spaces_filter: vec![],
        jira_search_default_fields,
        jira_search_custom_fields: vec![],
        response_exclude_fields: None,
    }
}

fn args(text: &str) -> Json {
    parse_json(text).unwrap()
}

fn to_serde(v: &Json) -> serde_json::Value {
    serde_json::from_str(&to_json_string(v)).unwrap()
}

#[test]
fn test_search_handler_missing_jql() {
    let config = create_test_config(vec![], None);
    let result = SearchHandler::prepare(&args("{}"), &config);
    assert!(result.is_err());
    assert!(result.unwrap_err().contains("Missing jql"));
}

#[test]
fn test_search_handler_default_limit() {
    let config = create_test_config(vec![], None);
    let plan = SearchHandler::prepare(&args(r#"{"jql": "status = Open"}"#), &config).unwrap();
    assert!(plan
        .query
        .contains(&("maxResults".to_string(), "20".to_string())));
}

#[test]
fn test_search_handler_custom_limit() {
    let config = create_test_config(vec![], None);
    let plan =
        SearchHandler::prepare(&args(r#"{"jql": "status = Open", "limit": 50}"#), &config).unwrap();
    assert!(plan
        .query
        .contains(&("maxResults".to_string(), "50".to_string())));
}

#[test]
fn test_search_handler_project_filter_injection() {
    let config = create_test_config(vec!["PROJ1".to_string(), "PROJ2".to_string()], None);
    let jql = "status = Open";
    let final_jql = if !config.jira_projects_filter.is_empty() {
        let jql_lower = jql.to_lowercase();
        if jql_lower.contains("project ")
            || jql_lower.contains("project=")
            || jql_lower.contains("project in")
        {
            jql.to_string()
        } else {
            let projects = config
                .jira_projects_filter
                .iter()
                .map(|p| format!("\"{}\"", p))
                .collect::<Vec<_>>()
                .join(",");
            format!("project IN ({}) AND ({})", projects, jql)
        }
    } else {
        jql.to_string()
    };
    assert_eq!(final_jql, "project IN (\"PROJ1\",\"PROJ2\") AND (status = Open)");

    let plan = SearchHandler::prepare(&args(r#"{"jql": "status = Open"}"#), &config).unwrap();
    assert!(plan.query.contains(&("jql".to_string(), final_jql)));
}

#[test]
fn test_search_handler_project_filter_not_injected_when_present() {
    let config = create_test_config(vec!["PROJ1".to_string()], None);
    let jql = "project = MYPROJ AND status = Open";
    let plan = SearchHandler::prepare(
        &args(r#"{"jql": "project = MYPROJ AND status = Open"}"#),
        &config,
    )
    .unwrap();
    assert!(plan.query.contains(&("jql".to_string(), jql.to_string())));
}

#[test]
fn test_search_handler_uppercase_project_clause_detected() {
    // the scope check lowercases the query first, so an upper-case
    // clause must also suppress the injected filter
    let config = create_test_config(vec!["PROJ1".to_string()], None);
    let plan = SearchHandler::prepare(
        &args(r#"{"jql": "PROJECT = MYPROJ AND status = Open"}"#),
        &config,
    )
    .unwrap();
    assert!(plan
        .query
        .contains(&("jql".to_string(), "PROJECT = MYPROJ AND status = Open".to_string())));
}

#[test]
fn test_search_handler_empty_project_filter() {
    let config = create_test_config(vec![], None);
    let plan = SearchHandler::prepare(&args(r#"{"jql": "status = Open"}"#), &config).unwrap();
    assert!(plan
        .query
        .contains(&("jql".to_string(), "status = Open".to_string())));
}

#[test]
fn test_search_handler_fields_extraction_from_api() {
    let config = create_test_config(vec![], None);
    let plan = SearchHandler::prepare(
        &args(r#"{"jql": "status = Open", "fields": ["key", "summary", "status"]}"#),
        &config,
    )
    .unwrap();
    assert!(plan
        .query
        .contains(&("fields".to_string(), "key,summary,status".to_string())));
}

#[test]
fn test_search_handler_no_fields_uses_default() {
    let config = create_test_config(vec![], None);
    let plan = SearchHandler::prepare(&args(r#"{"jql": "status = Open"}"#), &config).unwrap();
    let fields = plan
        .query
        .iter()
        .find(|(k, _)| k == "fields")
        .map(|(_, v)| v.clone())
        .unwrap();
    assert_eq!(fields.split(',').count(), 17);
}

#[test]
fn test_get_issue_handler_missing_issue_key() {
    let config = create_test_config(vec![], None);
    let result = GetIssueHandler::prepare(&args("{}"), &config);
    assert!(result.is_err());
    assert!(result.unwrap_err().contains("Missing issue_key"));
}

#[test]
fn test_get_issue_handler_valid_issue_key() {
    let config = create_test_config(vec![], None);
    let plan = GetIssueHandler::prepare(&args(r#"{"issue_key": "PROJ-123"}"#), &config).unwrap();
    assert!(plan
        .url
        .contains("/rest/api/3/issue/PROJ-123"));
}

#[test]
fn test_get_issue_handler_url_construction() {
    let config = create_test_config(vec![], None);
    let issue_key = "PROJ-123";
    let base_url = format!(
        "{}/rest/api/3/issue/{}",
        config.get_atlassian_base_url(),
        issue_key
    );
    assert_eq!(base_url, "https://test.atlassian.net/rest/api/3/issue/PROJ-123");
}

#[test]
fn test_create_issue_handler_required_fields() {
    let a = args(
        r#"{"project_key": "PROJ", "summary": "Test Issue", "issue_type": "Task", "description": "Test description"}"#,
    );
    let config = create_test_config(vec![], None);
    let plan = CreateIssueHandler::prepare(&a, &config).unwrap();
    let body = to_serde(&plan.body.unwrap());
    assert_eq!(body["fields"]["project"]["key"], "PROJ");
    assert_eq!(body["fields"]["summary"], "Test Issue");
    assert_eq!(body["fields"]["issuetype"]["name"], "Task");
}

#[test]
fn test_create_issue_handler_adf_conversion() {
    let adf_body = to_serde(&build_adf("Test description".to_string()));
    assert_eq!(adf_body["type"], "doc");
    assert_eq!(adf_body["version"], 1);
    assert_eq!(adf_body["content"][0]["type"], "paragraph");
    assert_eq!(adf_body["content"][0]["content"][0]["text"], "Test description");
}

#[test]
fn test_create_issue_handler_missing_description_fallback() {
    let a = args(r#"{"project_key": "PROJ", "summary": "Test Issue", "issue_type": "Task"}"#);
    let config = create_test_config(vec![], None);
    let plan = CreateIssueHandler::prepare(&a, &config).unwrap();
    let body = to_serde(&plan.body.unwrap());
    assert_eq!(body["fields"]["description"]["content"][0]["content"][0]["text"], "");
}

#[test]
fn test_update_issue_handler_missing_issue_key() {
    let config = create_test_config(vec![], None);
    let result =
        UpdateIssueHandler::prepare(&args(r#"{"fields": {"summary": "Updated summary"}}"#), &config);
    assert!(result.is_err());
    assert!(result.unwrap_err().contains("Missing issue_key"));
}

#[test]
fn test_update_issue_handler_valid_fields() {
    let a = args(
        r#"{"issue_key": "PROJ-123", "fields": {"summary": "Updated summary", "priority": {"name": "High"}}}"#,
    );
    let config = create_test_config(vec![], None);
    let plan = UpdateIssueHandler::prepare(&a, &config).unwrap();
    let body = to_serde(&plan.body.unwrap());
    assert_eq!(body["fields"]["summary"], "Updated summary");
    assert_eq!(body["fields"]["priority"]["name"], "High");
}

#[test]
fn test_update_issue_handler_url_construction() {
    let config = create_test_config(vec![], None);
    let issue_key = "PROJ-123";
    let url = format!(
        "{}/rest/api/3/issue/{}",
        config.get_atlassian_base_url(),
        issue_key
    );
    assert_eq!(url, "https://test.atlassian.net/rest/api/3/issue/PROJ-123");
    let plan = UpdateIssueHandler::prepare(
        &args(r#"{"issue_key": "PROJ-123", "fields": {}}"#),
        &config,
    )
    .unwrap();
    assert_eq!(plan.url, url);
}

#[test]
fn test_add_comment_handler_missing_issue_key() {
    let config = create_test_config(vec![], None);
    let result = AddCommentHandler::prepare(&args(r#"{"comment": "Test comment"}"#), &config);
    assert!(result.is_err());
    assert!(result.unwrap_err().contains("Missing issue_key"));
}

#[test]
fn test_add_comment_handler_missing_comment() {
    let config = create_test_config(vec![], None);
    let result = AddCommentHandler::prepare(&args(r#"{"issue_key": "PROJ-123"}"#), &config);
    assert!(result.is_err());
    assert!(result.unwrap_err().contains("Missing comment"));
}

#[test]
fn test_add_comment_handler_adf_conversion() {
    let a = args(r#"{"issue_key": "PROJ-123", "comment": "This is a test comment"}"#);
    let config = create_test_config(vec![], None);
    let plan = AddCommentHandler::prepare(&a, &config).unwrap();
    let adf_body = to_serde(&plan.body.unwrap());
    assert_eq!(adf_body["body"]["type"], "doc");
    assert_eq!(adf_body["body"]["version"], 1);
    assert_eq!(adf_body["body"]["content"][0]["type"], "paragraph");
    assert_eq!(
        adf_body["body"]["content"][0]["content"][0]["text"],
        "This is a test comment"
    );
}

#[test]
fn test_add_comment_handler_url_construction() {
    let config = create_test_config(vec![], None);
    let issue_key = "PROJ-123";
    let base_url = format!(
        "{}/rest/api/3/issue/{}/comment",
        config.get_atlassian_base_url(),
        issue_key
    );
    assert_eq!(base_url, "https://test.atlassian.net/rest/api/3/issue/PROJ-123/comment");
}

#[test]
fn test_update_comment_handler_missing_body() {
    let config = create_test_config(vec![], None);
    let result = UpdateCommentHandler::prepare(
        &args(r#"{"issue_key": "PROJ-123", "comment_id": "10001"}"#),
        &config,
    );
    assert!(result.is_err());
    assert!(result.unwrap_err().contains("Missing body"));
}

#[test]
fn test_transition_issue_handler_missing_issue_key() {
    let config = create_test_config(vec![], None);
    let result = TransitionIssueHandler::prepare(&args(r#"{"transition_id": "11"}"#), &config);
    assert!(result.is_err());
    assert!(result.unwrap_err().contains("Missing issue_key"));
}

#[test]
fn test_transition_issue_handler_missing_transition_id() {
    let config = create_test_config(vec![], None);
    let result = TransitionIssueHandler::prepare(&args(r#"{"issue_key": "PROJ-123"}"#), &config);
    assert!(result.is_err());
    assert!(result.unwrap_err().contains("Missing transition_id"));
}

#[test]
fn test_transition_issue_handler_valid_params() {
    let config = create_test_config(vec![], None);
    let plan = TransitionIssueHandler::prepare(
        &args(r#"{"issue_key": "PROJ-123", "transition_id": "21"}"#),
        &config,
    )
    .unwrap();
    assert!(plan.url.ends_with("/rest/api/3/issue/PROJ-123/transitions"));
    let body = to_serde(&plan.body.unwrap());
    assert_eq!(body["transition"]["id"], "21");
}

#[test]
fn test_transition_issue_handler_body_format() {
    let config = create_test_config(vec![], None);
    let plan = TransitionIssueHandler::prepare(
        &args(r#"{"issue_key": "PROJ-123", "transition_id": "31"}"#),
        &config,
    )
    .unwrap();
    let body = to_serde(&plan.body.unwrap());
    assert_eq!(body["transition"]["id"], "31");
}

#[test]
fn test_get_transitions_handler_missing_issue_key() {
    let config = create_test_config(vec![], None);
    let result = GetTransitionsHandler::prepare(&args("{}"), &config);
    assert!(result.is_err());
    assert!(result.unwrap_err().contains("Missing issue_key"));
}

#[test]
fn test_get_transitions_handler_valid_issue_key() {
    let config = create_test_config(vec![], None);
    let plan =
        GetTransitionsHandler::prepare(&args(r#"{"issue_key": "PROJ-123"}"#), &config).unwrap();
    assert!(plan.url.contains("/rest/api/3/issue/PROJ-123/transitions"));
}

#[test]
fn test_get_transitions_handler_url_construction() {
    let config = create_test_config(vec![], None);
    let issue_key = "PROJ-123";
    let base_url = format!(
        "{}/rest/api/3/issue/{}/transitions",
        config.get_atlassian_base_url(),
        issue_key
    );
    assert_eq!(
        base_url,
        "https://test.atlassian.net/rest/api/3/issue/PROJ-123/transitions"
    );
}
