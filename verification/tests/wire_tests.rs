use mcp_atlassian::json::Json;
use mcp_atlassian::parse::parse_json;
use mcp_atlassian::text::{
    i64_to_string, join_strings, parse_u64, replace_all, split_commas, trim_str, u64_to_string,
};
use mcp_atlassian::unparse::{to_json_string, to_pretty_string};
use mcp_atlassian::http::HttpOutcome;
use mcp_atlassian::jira::{GetIssueHandler, SearchHandler};
use base64::engine::general_purpose::STANDARD;
use base64::Engine;

fn roundtrip(text: &str) -> String {
    to_json_string(&parse_json(text).unwrap())
}

#[test]
fn test_parse_simple_values() {
    assert_eq!(roundtrip("null"), "null");
    assert_eq!(roundtrip("true"), "true");
    assert_eq!(roundtrip("false"), "false");
    assert_eq!(roundtrip("0"), "0");
    assert_eq!(roundtrip("-12.5e3"), "-12.5e3");
    assert_eq!(roundtrip(r#""hello""#), r#""hello""#);
}

#[test]
fn test_parse_nested_structure() {
    let text = r#"{"a":[1,2,{"b":null}],"c":{"d":[]},"e":""}"#;
    assert_eq!(roundtrip(text), text);
}

#[test]
fn test_parse_skips_whitespace() {
    assert_eq!(roundtrip("  { \"a\" : [ 1 , 2 ] }  "), r#"{"a":[1,2]}"#);
}

#[test]
fn test_parse_string_escapes() {
    assert_eq!(roundtrip(r#""a\"b\\c\/d\n\t\r\b\f""#), "\"a\\\"b\\\\c/d\\n\\t\\r\\b\\f\"");
}

#[test]
fn test_parse_unicode_escape() {
    let parsed = parse_json(r#""\u00e9\u0041""#).unwrap();
    match parsed {
        Json::Str(s) => assert_eq!(s, "\u{e9}A"),
        _ => panic!("expected a string"),
    }
}

#[test]
fn test_parse_surrogate_pair() {
    let parsed = parse_json(r#""\ud834\udd1e""#).unwrap();
    match parsed {
        Json::Str(s) => assert_eq!(s, "\u{1d11e}"),
        _ => panic!("expected a string"),
    }
}

#[test]
fn test_parse_rejects_lone_surrogate() {
    assert!(parse_json(r#""\ud834""#).is_none());
}

#[test]
fn test_parse_rejects_malformed_input() {
    assert!(parse_json("").is_none());
    assert!(parse_json("{").is_none());
    assert!(parse_json(r#"{"a":}"#).is_none());
    assert!(parse_json("[1,]").is_none());
    assert!(parse_json("01").is_none());
    assert!(parse_json("1.").is_none());
    assert!(parse_json("nul").is_none());
    assert!(parse_json(r#"{"a":1} trailing"#).is_none());
}

#[test]
fn test_parse_accepts_max_nesting() {
    let depth = mcp_atlassian::parse::MAX_NESTING_DEPTH;
    let text = format!("{}{}", "[".repeat(depth), "]".repeat(depth));
    assert!(parse_json(&text).is_some());
}

#[test]
fn test_parse_rejects_excessive_nesting() {
    let depth = mcp_atlassian::parse::MAX_NESTING_DEPTH + 1;
    let text = format!("{}{}", "[".repeat(depth), "]".repeat(depth));
    assert!(parse_json(&text).is_none());
}

#[test]
fn test_parse_long_flat_input_is_stack_safe() {
    // wide, not deep: a long string, a long array and a wide object
    // must parse without growing the call stack
    let long_string = format!("\"{}\"", "x".repeat(200_000));
    assert!(parse_json(&long_string).is_some());

    let mut wide_array = String::from("[");
    wide_array.push_str(&vec!["1"; 50_000].join(","));
    wide_array.push(']');
    assert!(parse_json(&wide_array).is_some());

    let members: Vec<String> = (0..2_000).map(|i| format!("\"k{}\":{}", i, i)).collect();
    let wide_object = format!("{{{}}}", members.join(","));
    assert!(parse_json(&wide_object).is_some());
}

#[test]
fn test_parse_duplicate_key_keeps_last() {
    assert_eq!(roundtrip(r#"{"a":1,"a":2}"#), r#"{"a":2}"#);
}

#[test]
fn test_serializer_agrees_with_reference_parser() {
    let text = r#"{"key":"PROJ-1","n":-3.5e2,"flags":[true,false,null],"nested":{"s":"x\ny"}}"#;
    let mine: serde_json::Value = serde_json::from_str(&roundtrip(text)).unwrap();
    let reference: serde_json::Value = serde_json::from_str(text).unwrap();
    assert_eq!(mine, reference);
}

#[test]
fn test_pretty_print_matches_reference_layout() {
    let v = parse_json(r#"{"b":null,"c":{"d":1},"list":[1,2]}"#).unwrap();
    let expected = "{\n  \"b\": null,\n  \"c\": {\n    \"d\": 1\n  },\n  \"list\": [\n    1,\n    2\n  ]\n}";
    assert_eq!(to_pretty_string(&v), expected);
    let reference: serde_json::Value =
        serde_json::from_str(r#"{"b":null,"c":{"d":1},"list":[1,2]}"#).unwrap();
    assert_eq!(serde_json::to_string_pretty(&reference).unwrap(), expected);
}

#[test]
fn test_pretty_print_empty_containers() {
    assert_eq!(to_pretty_string(&parse_json("{}").unwrap()), "{}");
    assert_eq!(to_pretty_string(&parse_json("[]").unwrap()), "[]");
}

#[test]
fn test_escaped_control_characters() {
    let v = Json::Str("\u{1}".to_string());
    assert_eq!(to_json_string(&v), "\"\\u0001\"");
}

#[test]
fn test_u64_to_string_renders_decimal() {
    assert_eq!(u64_to_string(0), "0");
    assert_eq!(u64_to_string(20), "20");
    assert_eq!(u64_to_string(u64::MAX), "18446744073709551615");
}

#[test]
fn test_i64_to_string_renders_sign() {
    assert_eq!(i64_to_string(-32601), "-32601");
    assert_eq!(i64_to_string(0), "0");
    assert_eq!(i64_to_string(i64::MIN), "-9223372036854775808");
}

#[test]
fn test_parse_u64_reads_digits() {
    assert_eq!(parse_u64("0"), Some(0));
    assert_eq!(parse_u64("18446744073709551615"), Some(u64::MAX));
    assert_eq!(parse_u64("18446744073709551616"), None);
    assert_eq!(parse_u64("12a"), None);
    assert_eq!(parse_u64(""), None);
    assert_eq!(parse_u64("-3"), None);
}

#[test]
fn test_trim_and_split_helpers() {
    assert_eq!(trim_str("  a b \t\n"), "a b");
    assert_eq!(trim_str("   "), "");
    assert_eq!(split_commas("a,b,,c"), vec!["a", "b", "", "c"]);
    assert_eq!(split_commas(""), vec![""]);
    assert_eq!(
        join_strings(&vec!["a".to_string(), "b".to_string()], ", "),
        "a, b"
    );
    assert_eq!(replace_all("http://x/http://y", "http://", "https://"), "https://x/https://y");
}

#[test]
fn test_create_auth_header_format() {
    let config = mcp_atlassian::config::Config {
        atlassian_domain: "test.atlassian.net".to_string(),
        atlassian_email: "user@example.com".to_string(),
        atlassian_api_token: "secret123".to_string(),
        max_connections: 100,
        request_timeout_ms: 30000,
        jira_projects_filter: vec![],
        confluence_spaces_filter: vec![],
        jira_search_default_fields: None,
        jira_search_custom_fields: vec![],
        response_exclude_fields: None,
    };
    let auth_header = mcp_atlassian::http::create_auth_header(&config);
    assert!(auth_header.starts_with("Basic "));
    let base64_part = &auth_header[6..];
    assert!(!base64_part.is_empty());
}

#[test]
fn test_create_auth_header_base64_encoding() {
    let config = mcp_atlassian::config::Config {
        atlassian_domain: "test.atlassian.net".to_string(),
        atlassian_email: "test@example.com".to_string(),
        atlassian_api_token: "mytoken".to_string(),
        max_connections: 100,
        request_timeout_ms: 30000,
        jira_projects_filter: vec![],
        confluence_spaces_filter: vec![],
        jira_search_default_fields: None,
        jira_search_custom_fields: vec![],
        response_exclude_fields: None,
    };
    let auth_header = mcp_atlassian::http::create_auth_header(&config);
    let base64_part = &auth_header[6..];
    let decoded = STANDARD.decode(base64_part).unwrap();
    let credentials = String::from_utf8(decoded).unwrap();
    assert_eq!(credentials, "test@example.com:mytoken");
}

#[test]
fn test_create_auth_header_with_special_characters() {
    let config = mcp_atlassian::config::Config {
        atlassian_domain: "test.atlassian.net".to_string(),
        atlassian_email: "user+test@example.com".to_string(),
        atlassian_api_token: "token!@#$%^&*()".to_string(),
        max_connections: 100,
        request_timeout_ms: 30000,
        jira_projects_filter: vec![],
        confluence_spaces_filter: vec![],
        jira_search_default_fields: None,
        jira_search_custom_fields: vec![],
        response_exclude_fields: None,
    };
    let auth_header = mcp_atlassian::http::create_auth_header(&config);
    assert!(auth_header.starts_with("Basic "));
    let base64_part = &auth_header[6..];
    let decoded = STANDARD.decode(base64_part).unwrap();
    let credentials = String::from_utf8(decoded).unwrap();
    assert_eq!(credentials, "user+test@example.com:token!@#$%^&*()");
}

#[test]
fn test_create_auth_header_deterministic() {
    let config = mcp_atlassian::config::Config {
        atlassian_domain: "test.atlassian.net".to_string(),
        atlassian_email: "test@example.com".to_string(),
        atlassian_api_token: "token123".to_string(),
        max_connections: 100,
        request_timeout_ms: 30000,
        jira_projects_filter: vec![],
        confluence_spaces_filter: vec![],
        jira_search_default_fields: None,
        jira_search_custom_fields: vec![],
        response_exclude_fields: None,
    };
    let header1 = mcp_atlassian::http::create_auth_header(&config);
    let header2 = mcp_atlassian::http::create_auth_header(&config);
    assert_eq!(header1, header2);
}

#[test]
fn test_create_auth_header_different_configs() {
    let mut config1 = mcp_atlassian::config::Config {
        atlassian_domain: "test.atlassian.net".to_string(),
        atlassian_email: "user1@example.com".to_string(),
        atlassian_api_token: "token1".to_string(),
        max_connections: 100,
        request_timeout_ms: 30000,
        jira_projects_filter: vec![],
        confluence_spaces_filter: vec![],
        jira_search_default_fields: None,
        jira_search_custom_fields: vec![],
        response_exclude_fields: None,
    };
    let header1 = mcp_atlassian::http::create_auth_header(&config1);
    config1.atlassian_email = "user2@example.com".to_string();
    config1.atlassian_api_token = "token2".to_string();
    let header2 = mcp_atlassian::http::create_auth_header(&config1);
    assert_ne!(header1, header2);
}

#[test]
fn test_interpret_wrapped_success_and_failure() {
    let ok = HttpOutcome {
        success: true,
        status: "200 OK".to_string(),
        body: r#"{"key":"K-1"}"#.to_string(),
    };
    let wrapped = GetIssueHandler::interpret(ok).unwrap();
    assert_eq!(to_json_string(&wrapped), r#"{"success":true,"issue":{"key":"K-1"}}"#);

    let bad = HttpOutcome {
        success: false,
        status: "404 Not Found".to_string(),
        body: "".to_string(),
    };
    assert_eq!(
        GetIssueHandler::interpret(bad).unwrap_err(),
        "Failed to get issue: 404 Not Found"
    );
}

#[test]
fn test_interpret_extracts_members() {
    let ok = HttpOutcome {
        success: true,
        status: "200 OK".to_string(),
        body: r#"{"issues":[{"key":"K-1"}],"total":1,"noise":true}"#.to_string(),
    };
    let wrapped = SearchHandler::interpret(ok).unwrap();
    assert_eq!(
        to_json_string(&wrapped),
        r#"{"success":true,"issues":[{"key":"K-1"}],"total":1}"#
    );
}
