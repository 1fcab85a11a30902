use health_dashboard::models::check_type_from_str;
use health_dashboard::models::Check;
use health_dashboard::models::CheckType;
use health_dashboard::models::Config;
use health_dashboard::models::Environment;

/// Builds a `Check` from one JSON object, as the application's loader does:
/// an unrecognized `check_type` is a hard failure.
fn check_from_value(v: &serde_json::Value) -> Option<Check> {
    let name = v.get("name")?.as_str()?.to_string();
    let url = v.get("url")?.as_str()?.to_string();
    let check_type = check_type_from_str(v.get("check_type")?.as_str()?)?;
    let keyword = match v.get("keyword") {
        Some(k) => Some(k.as_str()?.to_string()),
        None => None,
    };
    Some(Check { name, url, check_type, keyword })
}

fn config_from_str(json: &str) -> Option<Config> {
    let v: serde_json::Value = serde_json::from_str(json).ok()?;
    let project_name = v.get("project_name")?.as_str()?.to_string();
    let stale_timeout_seconds = v.get("stale_timeout_seconds")?.as_u64()?;
    let mut environments = Vec::new();
    for env in v.get("environments")?.as_array()? {
        let name = env.get("name")?.as_str()?.to_string();
        let mut checks = Vec::new();
        for check in env.get("checks")?.as_array()? {
            checks.push(check_from_value(check)?);
        }
        environments.push(Environment { name, checks });
    }
    Some(Config { project_name, stale_timeout_seconds, environments })
}

#[test]
fn test_valid_config_parsing() {
    let json = r#"{
            "project_name": "test-project",
            "stale_timeout_seconds": 30,
            "environments": [
                {
                    "name": "prod",
                    "checks": [
                        {
                            "name": "Backend",
                            "url": "https://example.com/health",
                            "check_type": "health"
                        }
                    ]
                }
            ]
        }"#;

    let config = config_from_str(json);
    assert!(config.is_some());
    let config = config.unwrap();
    assert_eq!(config.project_name, "test-project");
    assert_eq!(config.environments.len(), 1);
}

#[test]
fn test_config_with_keyword_check() {
    let json = r#"{
            "project_name": "test",
            "stale_timeout_seconds": 30,
            "environments": [{
                "name": "prod",
                "checks": [{
                    "name": "Frontend",
                    "url": "https://example.com",
                    "check_type": "keyword",
                    "keyword": "<title>Test</title>"
                }]
            }]
        }"#;

    let config = config_from_str(json);
    assert!(config.is_some());
}

#[test]
fn test_invalid_check_type() {
    let json = r#"{
            "project_name": "test",
            "stale_timeout_seconds": 30,
            "environments": [{
                "name": "prod",
                "checks": [{
                    "name": "Test",
                    "url": "https://example.com",
                    "check_type": "invalid_type"
                }]
            }]
        }"#;

    let config = config_from_str(json);
    assert!(config.is_none());
}

#[test]
fn test_missing_keyword_for_keyword_check() {
    let json = r#"{
            "project_name": "test",
            "stale_timeout_seconds": 30,
            "environments": [{
                "name": "prod",
                "checks": [{
                    "name": "Frontend",
                    "url": "https://example.com",
                    "check_type": "keyword"
                }]
            }]
        }"#;

    let config = config_from_str(json);
    assert!(config.is_some());
    let config = config.unwrap();
    assert!(config.environments[0].checks[0].keyword.is_none());
}

#[test]
fn test_empty_environments() {
    let json = r#"{
            "project_name": "test",
            "stale_timeout_seconds": 30,
            "environments": []
        }"#;

    let config = config_from_str(json);
    assert!(config.is_some());
}

#[test]
fn test_check_type_names_are_exact() {
    assert_eq!(check_type_from_str("health"), Some(CheckType::Health));
    assert_eq!(check_type_from_str("keyword"), Some(CheckType::Keyword));
    assert_eq!(check_type_from_str("Health"), None);
    assert_eq!(check_type_from_str("KEYWORD"), None);
    assert_eq!(check_type_from_str(""), None);
}
