use mcp_atlassian::json::Json;
use mcp_atlassian::optimizer::{default_exclude_fields, ResponseOptimizer};
use mcp_atlassian::parse::parse_json;
use mcp_atlassian::unparse::to_json_string;

fn value(text: &str) -> Json {
    parse_json(text).unwrap()
}

fn to_serde(v: &Json) -> serde_json::Value {
    serde_json::from_str(&to_json_string(v)).unwrap()
}

#[test]
fn test_default_exclude_fields_count() {
    let fields = default_exclude_fields();
    assert_eq!(fields.len(), 27);
    assert!(fields.contains(&"avatarUrls".to_string()));
    assert!(fields.contains(&"iconUrl".to_string()));
    assert!(fields.contains(&"profilePicture".to_string()));
    assert!(fields.contains(&"icon".to_string()));
    assert!(fields.contains(&"self".to_string()));
    assert!(fields.contains(&"expand".to_string()));
    assert!(fields.contains(&"avatarId".to_string()));
    assert!(fields.contains(&"accountType".to_string()));
    assert!(fields.contains(&"projectTypeKey".to_string()));
    assert!(fields.contains(&"simplified".to_string()));
    assert!(fields.contains(&"friendlyLastModified".to_string()));
    assert!(fields.contains(&"editui".to_string()));
    assert!(fields.contains(&"edituiv2".to_string()));
}

#[test]
fn test_remove_avatarurls() {
    let optimizer = ResponseOptimizer::new_with_rules(vec!["avatarUrls".to_string()]);
    let mut input = value(
        r#"{
            "name": "John",
            "avatarUrls": {
                "16x16": "https://example.com/16.png",
                "48x48": "https://example.com/48.png"
            }
        }"#,
    );
    optimizer.optimize(&mut input).unwrap();
    let out = to_serde(&input);
    assert!(out.get("avatarUrls").is_none());
    assert_eq!(out["name"], "John");
}

#[test]
fn test_remove_empty_strings() {
    let optimizer = ResponseOptimizer::new_with_rules(vec![]);
    let mut input = value(
        r#"{
            "name": "",
            "status": null,
            "count": 0,
            "valid": "data"
        }"#,
    );
    optimizer.optimize(&mut input).unwrap();
    let out = to_serde(&input);
    assert!(out.get("name").is_none());
    assert!(out.get("status").is_some());
    assert!(out["status"].is_null());
    assert_eq!(out["count"], 0);
    assert_eq!(out["valid"], "data");
}

#[test]
fn test_recursive_optimization() {
    let optimizer = ResponseOptimizer::new_with_rules(vec!["iconUrl".to_string()]);
    let mut input = value(
        r#"{
            "status": {
                "name": "Open",
                "iconUrl": "https://example.com/icon.png"
            },
            "assignee": {
                "displayName": "John",
                "email": ""
            }
        }"#,
    );
    optimizer.optimize(&mut input).unwrap();
    let out = to_serde(&input);
    assert!(out["status"].get("iconUrl").is_none());
    assert_eq!(out["status"]["name"], "Open");
    assert!(out["assignee"].get("email").is_none());
    assert_eq!(out["assignee"]["displayName"], "John");
}

#[test]
fn test_array_optimization() {
    let optimizer = ResponseOptimizer::new_with_rules(vec!["self".to_string()]);
    let mut input = value(
        r#"{
            "issues": [
                {"key": "PROJ-1", "self": "https://api/issue/1"},
                {"key": "PROJ-2", "self": "https://api/issue/2"}
            ]
        }"#,
    );
    optimizer.optimize(&mut input).unwrap();
    let out = to_serde(&input);
    let issues = out["issues"].as_array().unwrap();
    assert_eq!(issues.len(), 2);
    assert!(issues[0].get("self").is_none());
    assert!(issues[1].get("self").is_none());
    assert_eq!(issues[0]["key"], "PROJ-1");
    assert_eq!(issues[1]["key"], "PROJ-2");
}

#[test]
fn test_all_exclude_fields() {
    let optimizer = ResponseOptimizer::new_with_rules(default_exclude_fields());
    let mut input = value(
        r#"{
            "key": "PROJ-123",
            "self": "https://api/issue/123",
            "assignee": {
                "displayName": "John",
                "avatarUrls": {"48x48": "url"},
                "profilePicture": {"path": "url"}
            },
            "status": {
                "name": "Open",
                "iconUrl": "url",
                "icon": {"path": "url"}
            }
        }"#,
    );
    optimizer.optimize(&mut input).unwrap();
    let out = to_serde(&input);
    assert!(out.get("self").is_none());
    assert!(out["assignee"].get("avatarUrls").is_none());
    assert!(out["assignee"].get("profilePicture").is_none());
    assert!(out["status"].get("iconUrl").is_none());
    assert!(out["status"].get("icon").is_none());
}

#[test]
fn test_optimize_twice_same_result() {
    let optimizer = ResponseOptimizer::new_with_rules(default_exclude_fields());
    let mut once = value(
        r#"{"a":"","b":null,"self":"url","c":{"iconUrl":"x","d":1,"list":[{"self":"s","e":""}]}}"#,
    );
    optimizer.optimize(&mut once).unwrap();
    let mut twice = parse_json(&to_json_string(&once)).unwrap();
    optimizer.optimize(&mut twice).unwrap();
    assert_eq!(to_json_string(&once), to_json_string(&twice));
}

#[test]
fn test_exclude_order_irrelevant() {
    let forward = ResponseOptimizer::new_with_rules(vec!["a".to_string(), "b".to_string()]);
    let backward = ResponseOptimizer::new_with_rules(vec![
        "b".to_string(),
        "a".to_string(),
        "b".to_string(),
    ]);
    let text = r#"{"a":1,"b":2,"c":{"a":3,"d":4}}"#;
    let mut x = value(text);
    let mut y = value(text);
    forward.optimize(&mut x).unwrap();
    backward.optimize(&mut y).unwrap();
    assert_eq!(to_json_string(&x), to_json_string(&y));
    assert_eq!(to_json_string(&x), r#"{"c":{"d":4}}"#);
}

#[test]
fn test_nested_null_preserved() {
    let optimizer = ResponseOptimizer::new_with_rules(vec!["self".to_string()]);
    let mut input = value(r#"{"outer":{"inner":{"gone":null,"self":"x"},"also":null}}"#);
    optimizer.optimize(&mut input).unwrap();
    assert_eq!(
        to_json_string(&input),
        r#"{"outer":{"inner":{"gone":null},"also":null}}"#
    );
}

#[test]
fn test_default_scenario_tree() {
    let optimizer = ResponseOptimizer::new_with_rules(default_exclude_fields());
    let mut input = value(r#"{"a":"","b":null,"self":"url","c":{"iconUrl":"x","d":1}}"#);
    optimizer.optimize(&mut input).unwrap();
    assert_eq!(to_json_string(&input), r#"{"b":null,"c":{"d":1}}"#);
}
