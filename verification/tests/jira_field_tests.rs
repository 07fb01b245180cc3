use mcp_atlassian::config::Config;
use mcp_atlassian::jira::field_filtering::{
    apply_field_filtering_to_url, default_search_fields, essential_fields, resolve_search_fields,
};

fn create_test_config(default_fields: Option<Vec<String>>, custom_fields: Vec<String>) -> Config {
    Config {
        atlassian_domain: "test.atlassian.net".to_string(),
        atlassian_email: "test@example.com".to_string(),
        atlassian_api_token: "token123".to_string(),
        max_connections: 100,
        request_timeout_ms: 30000,
        jira_projects_filter: vec![],
        confluence_spaces_filter: vec![],
        jira_search_default_fields: default_fields,
        jira_search_custom_fields: custom_fields,
        response_exclude_fields: None,
    }
}

#[test]
fn test_default_search_fields_count() {
    assert_eq!(default_search_fields().len(), 17);
}

#[test]
fn test_default_fields_no_description() {
    assert!(!default_search_fields().contains(&"description".to_string()));
}

#[test]
fn test_default_fields_no_id() {
    assert!(!default_search_fields().contains(&"id".to_string()));
}

#[test]
fn test_resolve_priority_1_api_fields() {
    let config = create_test_config(
        Some(vec!["key".to_string()]),
        vec!["customfield_10015".to_string()],
    );
    let api_fields = Some(vec!["key".to_string(), "summary".to_string()]);
    let result = resolve_search_fields(api_fields, &config);
    assert_eq!(result, vec!["key", "summary"]);
}

#[test]
fn test_resolve_priority_2_env_override() {
    let config = create_test_config(
        Some(vec!["key".to_string(), "summary".to_string(), "status".to_string()]),
        vec!["customfield_10015".to_string()],
    );
    let result = resolve_search_fields(None, &config);
    assert_eq!(result, vec!["key", "summary", "status"]);
    assert_eq!(result.len(), 3);
}

#[test]
fn test_resolve_priority_3_defaults_with_custom() {
    let config = create_test_config(
        None,
        vec!["customfield_10015".to_string(), "customfield_10016".to_string()],
    );
    let result = resolve_search_fields(None, &config);
    assert_eq!(result.len(), 19);
    assert!(result.contains(&"key".to_string()));
    assert!(result.contains(&"summary".to_string()));
    assert!(result.contains(&"customfield_10015".to_string()));
    assert!(result.contains(&"customfield_10016".to_string()));
}

#[test]
fn test_resolve_priority_4_defaults_only() {
    let config = create_test_config(None, vec![]);
    let result = resolve_search_fields(None, &config);
    assert_eq!(result.len(), 17);
    assert!(result.contains(&"key".to_string()));
    assert!(result.contains(&"duedate".to_string()));
    assert!(result.contains(&"labels".to_string()));
    assert!(result.contains(&"parent".to_string()));
}

#[test]
fn test_resolve_empty_api_fields_fallback() {
    let config = create_test_config(Some(vec!["key".to_string()]), vec![]);
    let result = resolve_search_fields(Some(vec![]), &config);
    assert_eq!(result, vec!["key"]);
}

#[test]
fn test_new_fields_included() {
    let config = create_test_config(None, vec![]);
    let result = resolve_search_fields(None, &config);
    assert!(result.contains(&"duedate".to_string()));
    assert!(result.contains(&"resolutiondate".to_string()));
    assert!(result.contains(&"labels".to_string()));
    assert!(result.contains(&"components".to_string()));
    assert!(result.contains(&"parent".to_string()));
    assert!(result.contains(&"subtasks".to_string()));
}

#[test]
fn test_resolve_custom_field_appended_once() {
    let config = create_test_config(None, vec!["customfield_1".to_string()]);
    let result = resolve_search_fields(None, &config);
    let mut expected = default_search_fields();
    expected.push("customfield_1".to_string());
    assert_eq!(result, expected);
    assert_eq!(
        result.iter().filter(|f| f.as_str() == "customfield_1").count(),
        1
    );
}

#[test]
fn test_resolve_custom_field_already_default_not_duplicated() {
    let config = create_test_config(None, vec!["key".to_string()]);
    let result = resolve_search_fields(None, &config);
    assert_eq!(result, default_search_fields());
}

#[test]
fn test_apply_field_filtering_appends_fields_and_expand() {
    let url = apply_field_filtering_to_url("https://test.atlassian.net/rest/api/3/issue/K-1");
    let expected = format!(
        "https://test.atlassian.net/rest/api/3/issue/K-1?fields={}&expand=-renderedFields",
        essential_fields().join(",")
    );
    assert_eq!(url, expected);
}

#[test]
fn test_apply_field_filtering_uses_ampersand_when_query_present() {
    let url = apply_field_filtering_to_url("https://x.atlassian.net/a?b=1");
    assert!(url.starts_with("https://x.atlassian.net/a?b=1&fields="));
    assert!(url.ends_with("&expand=-renderedFields"));
}
