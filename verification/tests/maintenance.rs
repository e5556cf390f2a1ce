use ghidra_cli::json::{to_compact_string, JsonNumber, JsonValue};
use ghidra_cli::maintenance::{
    cancel_line, config_change, default_change, import_result, imported_name, info_project_name,
    install_base, jobs_headline, parse_unsigned, ConfigChange, DefaultChange,
};

fn obj(entries: Vec<(&str, JsonValue)>) -> JsonValue {
    JsonValue::Object(entries.into_iter().map(|(k, v)| (k.to_string(), v)).collect())
}

fn s(t: &str) -> JsonValue {
    JsonValue::String(t.to_string())
}

fn n(i: i128) -> JsonValue {
    JsonValue::Number(JsonNumber::Int(i))
}

#[test]
fn unsigned_numbers_read_like_from_str() {
    assert_eq!(parse_unsigned("120", u64::MAX), Some(120));
    assert_eq!(parse_unsigned("+7", u64::MAX), Some(7));
    assert_eq!(parse_unsigned("", u64::MAX), None);
    assert_eq!(parse_unsigned("+", u64::MAX), None);
    assert_eq!(parse_unsigned("-1", u64::MAX), None);
    assert_eq!(parse_unsigned(" 5", u64::MAX), None);
    assert_eq!(parse_unsigned("18446744073709551615", u64::MAX), Some(u64::MAX));
    assert_eq!(parse_unsigned("18446744073709551616", u64::MAX), None);
}

#[test]
fn config_set_keys() {
    assert!(matches!(config_change("default_limit", "50"), Ok(ConfigChange::DefaultLimit(50))));
    assert!(matches!(config_change("launch_timeout_secs", "90"), Ok(ConfigChange::LaunchTimeoutSecs(90))));
    assert!(matches!(config_change("default_program", "a.bin"), Ok(ConfigChange::DefaultProgram(p)) if p == "a.bin"));
    assert!(matches!(config_change("default_limit", "lots"), Err(m) if m == "Configuration error: Invalid limit value"));
    assert!(matches!(config_change("launch_timeout_secs", "-3"), Err(m) if m == "Configuration error: Invalid launch timeout value"));
    assert!(matches!(config_change("timeout", "30"), Err(m) if m.starts_with("'timeout' has been removed")));
    assert!(matches!(config_change("colour", "red"), Err(m) if m == "Unknown config key: colour"));
}

#[test]
fn set_default_kinds() {
    assert!(matches!(default_change("program", "a"), Ok(DefaultChange::Program(p)) if p == "a"));
    assert!(matches!(default_change("project", "p"), Ok(DefaultChange::Project(p)) if p == "p"));
    assert!(matches!(default_change("tool", "x"), Err(m) if m == "Unknown default kind: tool"));
}

#[test]
fn project_info_defaults_to_default() {
    assert_eq!(info_project_name(&None), "default");
    assert_eq!(info_project_name(&Some("fw".to_string())), "fw");
}

#[test]
fn setup_install_base() {
    assert_eq!(install_base(&Some("/opt/g".to_string()), &None), Ok("/opt/g".to_string()));
    assert_eq!(
        install_base(&None, &Some("/home/u/.local/share".to_string())),
        Ok("/home/u/.local/share/ghidra-cli/ghidra".to_string())
    );
    assert_eq!(install_base(&None, &None), Err("Could not determine data directory".to_string()));
}

#[test]
fn imports_are_named_and_reported() {
    let reply = obj(vec![("program", s("fw.bin"))]);
    assert_eq!(imported_name(&None, &reply), "fw.bin");
    assert_eq!(imported_name(&Some("mine".to_string()), &reply), "mine");
    assert_eq!(imported_name(&None, &obj(vec![])), "unknown");
    let r = import_result("fw.bin".to_string(), JsonValue::Null);
    assert_eq!(
        to_compact_string(&r),
        r#"{"command":"import","data":{"analyze":null},"program":"fw.bin","status":"success"}"#
    );
}

#[test]
fn job_summaries() {
    assert_eq!(
        cancel_line(&obj(vec![("job_id", n(12)), ("state", s("cancelling"))])),
        "Job 12: cancelling - Cancellation request handled"
    );
    assert_eq!(cancel_line(&obj(vec![])), "Job 0: unknown - Cancellation request handled");
    assert_eq!(
        jobs_headline(&obj(vec![("bridge_state", s("busy")), ("queue_depth", n(2))])),
        "Bridge: busy (2 queued)"
    );
}
