use health_dashboard::cache::cache_key;
use health_dashboard::cache::create_cache;
use health_dashboard::cache::get_result;
use health_dashboard::cache::record_result;
use health_dashboard::checker::contains_keyword;
use health_dashboard::checker::health_check_result;
use health_dashboard::checker::keyword_check_result;
use health_dashboard::checker::run_check;
use health_dashboard::checker::ProbeData;
use health_dashboard::models::Check;
use health_dashboard::models::CheckType;
use health_dashboard::models::HealthCheck;
use health_dashboard::models::HealthResponse;
use health_dashboard::models::Status;

fn health_check(name: &str) -> Check {
    Check {
        name: name.to_string(),
        url: "https://example.com/health".to_string(),
        check_type: CheckType::Health,
        keyword: None,
    }
}

fn keyword_check(name: &str, keyword: Option<&str>) -> Check {
    Check {
        name: name.to_string(),
        url: "https://example.com".to_string(),
        check_type: CheckType::Keyword,
        keyword: keyword.map(|k| k.to_string()),
    }
}

/// Reads a health endpoint's JSON reply into plain values, as the
/// application does after a successful fetch.
fn health_response_from_json(json: &str) -> Option<HealthResponse> {
    let v: serde_json::Value = serde_json::from_str(json).ok()?;
    let status = v.get("status")?.as_str()?.to_string();
    let version = match v.get("version") {
        Some(x) => Some(x.as_str()?.to_string()),
        None => None,
    };
    let mut checks = Vec::new();
    if let Some(list) = v.get("checks") {
        for c in list.as_array()? {
            checks.push(HealthCheck {
                name: c.get("name")?.as_str()?.to_string(),
                status: c.get("status")?.as_str()?.to_string(),
                details: c.get("details").and_then(|d| d.as_str()).map(|d| d.to_string()),
                duration: c.get("duration").and_then(|d| d.as_u64()),
            });
        }
    }
    Some(HealthResponse { status, version, checks })
}

#[test]
fn healthy_json_reply_yields_healthy_entry() {
    // One HealthJSON check against an endpoint returning a healthy reply.
    let response =
        health_response_from_json(r#"{"status":"Healthy","version":"1.2.3","checks":[]}"#).unwrap();
    let check = health_check("Backend");
    let result = run_check(&check, ProbeData::Health(Some(response)), 42);

    let mut cache = create_cache();
    let key = cache_key("prod", "Backend");
    record_result(&mut cache, key.clone(), result);
    let entry = get_result(&cache, &key).unwrap();
    assert_eq!(entry.status, Status::Healthy);
    assert_eq!(entry.version.as_deref(), Some("1.2.3"));
    assert!(entry.sub_checks.is_empty());
    assert_eq!(entry.last_checked, 42);
}

#[test]
fn non_healthy_status_text_yields_unhealthy() {
    let response =
        health_response_from_json(r#"{"status":"Degraded","checks":[]}"#).unwrap();
    let result = health_check_result(&health_check("Backend"), Some(response), 1);
    assert_eq!(result.status, Status::Unhealthy);
    // The comparison is case-sensitive: "healthy" is not "Healthy".
    let lower = health_response_from_json(r#"{"status":"healthy","checks":[]}"#).unwrap();
    let result = health_check_result(&health_check("Backend"), Some(lower), 1);
    assert_eq!(result.status, Status::Unhealthy);
}

#[test]
fn sub_checks_propagate_verbatim() {
    let response = health_response_from_json(
        r#"{"status":"Healthy","checks":[
            {"name":"db","status":"Healthy","details":"pool ok","duration":12},
            {"name":"queue","status":"Unhealthy"}
        ]}"#,
    )
    .unwrap();
    let result = health_check_result(&health_check("Backend"), Some(response), 5);
    assert_eq!(result.status, Status::Healthy);
    assert!(result.version.is_none());
    assert_eq!(result.sub_checks.len(), 2);
    assert_eq!(result.sub_checks[0].name, "db");
    assert_eq!(result.sub_checks[0].details.as_deref(), Some("pool ok"));
    assert_eq!(result.sub_checks[0].duration, Some(12));
    assert_eq!(result.sub_checks[1].status, "Unhealthy");
}

#[test]
fn keyword_found_yields_healthy_entry() {
    // One KeywordMatch check against a page containing the exact keyword.
    let check = keyword_check("Frontend", Some("<title>Test</title>"));
    let body = "<html><head><title>Test</title></head><body></body></html>";
    let result = run_check(&check, ProbeData::Keyword(Some(body.to_string())), 9);
    assert_eq!(result.status, Status::Healthy);
    assert!(result.version.is_none());
    assert!(result.sub_checks.is_empty());
}

#[test]
fn keyword_not_found_yields_unhealthy() {
    let check = keyword_check("Frontend", Some("<title>Test</title>"));
    let body = "<html><head><title>Other</title></head></html>";
    let result = keyword_check_result(&check, Some(body.to_string()), 9);
    assert_eq!(result.status, Status::Unhealthy);
}

#[test]
fn missing_keyword_always_yields_error() {
    // A KeywordMatch check whose keyword was omitted in the configuration:
    // the outcome is an error, whatever the remote content.
    let check = keyword_check("Frontend", None);
    for body in [Some("anything at all".to_string()), Some(String::new()), None] {
        let result = keyword_check_result(&check, body, 3);
        assert_eq!(result.status, Status::Error);
        assert!(result.version.is_none());
        assert!(result.sub_checks.is_empty());
    }
}

#[test]
fn failed_probe_yields_error_and_leaves_others_alone() {
    // A timed-out or refused connection is handed in as `None`; it becomes
    // an error entry and does not disturb another check probed in the same
    // pass.
    let failing = health_check("Backend");
    let fine = keyword_check("Frontend", Some("ok"));

    let error_result = run_check(&failing, ProbeData::Health(None), 11);
    assert_eq!(error_result.status, Status::Error);
    assert!(error_result.version.is_none());
    assert!(error_result.sub_checks.is_empty());

    let good_result = run_check(&fine, ProbeData::Keyword(Some("all ok".to_string())), 12);

    let mut cache = create_cache();
    record_result(&mut cache, cache_key("prod", "Backend"), error_result);
    record_result(&mut cache, cache_key("prod", "Frontend"), good_result);
    let a = get_result(&cache, &cache_key("prod", "Backend")).unwrap();
    assert_eq!(a.status, Status::Error);
    let b = get_result(&cache, &cache_key("prod", "Frontend")).unwrap();
    assert_eq!(b.status, Status::Healthy);
}

#[test]
fn contains_keyword_is_literal_substring() {
    assert!(contains_keyword("hello world", "lo wo"));
    assert!(contains_keyword("hello", "hello"));
    assert!(contains_keyword("hello", ""));
    assert!(contains_keyword("", ""));
    assert!(!contains_keyword("", "x"));
    assert!(!contains_keyword("hello", "Hello"));
    assert!(!contains_keyword("abc", "abcd"));
    assert!(contains_keyword("aaab", "aab"));
}
