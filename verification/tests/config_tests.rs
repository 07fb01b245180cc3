use mcp_atlassian::config::Config;

fn base_config() -> Config {
    Config {
        atlassian_domain: "test.atlassian.net".to_string(),
        atlassian_email: "test@example.com".to_string(),
        atlassian_api_token: "token123".to_string(),
        max_connections: 100,
        request_timeout_ms: 30000,
        jira_projects_filter: vec![],
        confluence_spaces_filter: vec![],
        jira_search_default_fields: None,
        jira_search_custom_fields: vec![],
        response_exclude_fields: None,
    }
}

#[test]
fn test_config_validation() {
    let config = base_config();
    assert!(config.validate().is_ok());
}

#[test]
fn test_domain_normalization_adds_https() {
    let mut config = base_config();
    config.atlassian_api_token = "token".to_string();
    config.max_connections = 10;
    let url = config.get_atlassian_base_url();
    assert!(url.starts_with("https://"));
    assert_eq!(url, "https://test.atlassian.net");
}

#[test]
fn test_domain_normalization_converts_http_to_https() {
    let mut config = base_config();
    config.atlassian_domain = "http://test.atlassian.net".to_string();
    config.atlassian_api_token = "token".to_string();
    config.max_connections = 10;
    let url = config.get_atlassian_base_url();
    assert!(url.starts_with("https://"));
    assert!(!url.contains("http://"));
}

#[test]
fn test_invalid_domain() {
    let mut config = base_config();
    config.atlassian_domain = "invalid-domain".to_string();
    assert!(config.validate().is_err());
}

#[test]
fn test_invalid_email_missing_at_symbol() {
    let mut config = base_config();
    config.atlassian_email = "invalid-email".to_string();
    config.atlassian_api_token = "token".to_string();
    config.max_connections = 10;
    assert!(config.validate().is_err());
}

#[test]
fn test_empty_api_token_fails() {
    let mut config = base_config();
    config.atlassian_api_token = "".to_string();
    config.max_connections = 10;
    assert!(config.validate().is_err());
}

#[test]
fn test_invalid_max_connections_zero() {
    let mut config = base_config();
    config.atlassian_api_token = "token".to_string();
    config.max_connections = 0;
    assert!(config.validate().is_err());
}

#[test]
fn test_invalid_timeout_too_low() {
    let mut config = base_config();
    config.atlassian_api_token = "token".to_string();
    config.max_connections = 10;
    config.request_timeout_ms = 50;
    assert!(config.validate().is_err());
}

#[test]
fn test_url_normalization_preserves_https() {
    let mut config = base_config();
    config.atlassian_domain = "https://test.atlassian.net".to_string();
    config.atlassian_api_token = "token".to_string();
    config.max_connections = 10;
    let url = config.get_atlassian_base_url();
    assert_eq!(url, "https://test.atlassian.net");
    assert_eq!(url.matches("https://").count(), 1);
}

#[test]
fn test_max_connections_upper_bound() {
    let mut config = base_config();
    config.atlassian_api_token = "token".to_string();
    config.max_connections = 1001;
    assert!(config.validate().is_err());
}

#[test]
fn test_request_timeout_upper_bound() {
    let mut config = base_config();
    config.atlassian_api_token = "token".to_string();
    config.max_connections = 10;
    config.request_timeout_ms = 60001;
    assert!(config.validate().is_err());
}

#[test]
fn test_project_filter_with_values() {
    let mut config = base_config();
    config.atlassian_api_token = "token".to_string();
    config.max_connections = 10;
    config.jira_projects_filter = vec!["PROJ1".to_string(), "PROJ2".to_string()];
    assert!(config.validate().is_ok());
    assert_eq!(config.jira_projects_filter.len(), 2);
    assert_eq!(config.jira_projects_filter[0], "PROJ1");
}

#[test]
fn test_space_filter_with_values() {
    let mut config = base_config();
    config.atlassian_api_token = "token".to_string();
    config.max_connections = 10;
    config.confluence_spaces_filter = vec!["SPACE1".to_string(), "SPACE2".to_string()];
    assert!(config.validate().is_ok());
    assert_eq!(config.confluence_spaces_filter.len(), 2);
    assert_eq!(config.confluence_spaces_filter[0], "SPACE1");
}

#[test]
fn test_jira_search_custom_fields_configuration() {
    let mut config = base_config();
    config.atlassian_api_token = "token".to_string();
    config.max_connections = 10;
    config.jira_search_custom_fields =
        vec!["customfield_10015".to_string(), "customfield_10016".to_string()];
    assert!(config.validate().is_ok());
    assert_eq!(config.jira_search_custom_fields.len(), 2);
    assert!(config
        .jira_search_custom_fields
        .contains(&"customfield_10015".to_string()));
}

#[test]
fn test_jira_search_default_fields_override() {
    let mut config = base_config();
    config.atlassian_api_token = "token".to_string();
    config.max_connections = 10;
    config.jira_search_default_fields = Some(vec![
        "key".to_string(),
        "summary".to_string(),
        "status".to_string(),
    ]);
    assert!(config.validate().is_ok());
    assert!(config.jira_search_default_fields.is_some());
    assert_eq!(config.jira_search_default_fields.as_ref().unwrap().len(), 3);
}

#[test]
fn test_domain_with_https_validates() {
    let mut config = base_config();
    config.atlassian_domain = "https://test.atlassian.net".to_string();
    config.atlassian_api_token = "token".to_string();
    config.max_connections = 10;
    assert!(config.validate().is_ok());
}

#[test]
fn test_split_config_fields_trims_and_drops_blanks() {
    let fields = mcp_atlassian::config::split_config_fields(" key, summary , ,status,");
    assert_eq!(fields, vec!["key".to_string(), "summary".to_string(), "status".to_string()]);
}

#[test]
fn test_split_config_filter_keeps_pretrim_nonempty() {
    let entries = mcp_atlassian::config::split_config_filter("PROJ1, PROJ2,,  ");
    assert_eq!(entries, vec!["PROJ1".to_string(), "PROJ2".to_string(), "".to_string()]);
}
