use ghidra_cli::cli::{Commands, FunctionCommands, FunctionListArgs, QueryOptions};
use ghidra_cli::format::OutputFormat;
use ghidra_cli::json::{to_compact_string, JsonNumber, JsonValue};
use ghidra_cli::query::planner::PostProc;
use ghidra_cli::session::{
    batch_commands, batch_report, diff_header, needs_restart, output_lines, program_to_open,
    raw_payload, start_mode, StartMode,
};

fn to_json(v: &serde_json::Value) -> JsonValue {
    match v {
        serde_json::Value::Null => JsonValue::Null,
        serde_json::Value::Bool(b) => JsonValue::Bool(*b),
        serde_json::Value::Number(n) => match (n.as_i64(), n.as_u64()) {
            (Some(i), _) => JsonValue::Number(JsonNumber::Int(i as i128)),
            (None, Some(u)) => JsonValue::Number(JsonNumber::Int(u as i128)),
            _ => JsonValue::Number(JsonNumber::Float(n.to_string())),
        },
        serde_json::Value::String(s) => JsonValue::String(s.clone()),
        serde_json::Value::Array(a) => JsonValue::Array(a.iter().map(to_json).collect()),
        serde_json::Value::Object(m) => JsonValue::Object(
            m.iter().map(|(k, v)| (k.clone(), to_json(v))).collect(),
        ),
    }
}

fn j(text: &str) -> JsonValue {
    to_json(&serde_json::from_str::<serde_json::Value>(text).unwrap())
}

#[test]
fn start_mode_prefers_the_requested_program() {
    let some = |s: &str| Some(s.to_string());
    assert!(matches!(start_mode(&some("a"), &some("b")), StartMode::Process(p) if p == "a"));
    assert!(matches!(start_mode(&None, &some("b")), StartMode::Process(p) if p == "b"));
    assert!(matches!(start_mode(&None, &None), StartMode::Project));
}

fn tagged_list() -> Commands {
    Commands::Function(FunctionCommands::List(FunctionListArgs {
        tags: vec!["crypto".to_string()],
        untagged: false,
        options: QueryOptions::default(),
    }))
}

#[test]
fn restart_on_unknown_command_or_stale_tags() {
    let cmd = tagged_list();
    assert!(needs_restart(&cmd, &Err("Unknown command: list_functions".to_string())));
    assert!(!needs_restart(&cmd, &Err("connection refused".to_string())));
    assert!(needs_restart(&cmd, &Ok(j(r#"{"functions":[{"name":"f"}]}"#))));
    assert!(!needs_restart(&cmd, &Ok(j(r#"{"functions":[{"name":"f","tags":[]}]}"#))));
    assert!(!needs_restart(&cmd, &Ok(j(r#"{"functions":[]}"#))));
}

#[test]
fn program_switch_only_when_another_is_open() {
    let want = Some("b.bin".to_string());
    assert_eq!(program_to_open(&want, &Some(j(r#"{"name":"b.bin"}"#))), None);
    assert_eq!(program_to_open(&want, &Some(j(r#"{"name":"a.bin"}"#))), want);
    assert_eq!(program_to_open(&want, &Some(j(r#"{}"#))), want);
    assert_eq!(program_to_open(&want, &None), want);
    assert_eq!(program_to_open(&None, &None), None);
}

#[test]
fn raw_payload_rejects_non_object() {
    match raw_payload(j("42")) {
        Err(m) => assert_eq!(m, "raw command args must be a JSON object, got 42"),
        Ok(_) => panic!("accepted a number"),
    }
    match raw_payload(j(r#"["a"]"#)) {
        Err(m) => assert!(m.contains("must be a JSON object, got [\"a\"]")),
        Ok(_) => panic!("accepted an array"),
    }
    assert!(raw_payload(j(r#"{"a":1}"#)).is_ok());
}

#[test]
fn batch_files_skip_blank_and_comment_lines() {
    let text = "# setup\n\n  function list --limit 5  \r\n\t# indented comment\nsummary\n";
    assert_eq!(batch_commands(text), vec!["function list --limit 5".to_string(), "summary".to_string()]);
    assert!(batch_commands("").is_empty());
    assert!(batch_commands("\n\n   \n").is_empty());
}

#[test]
fn batch_report_lists_each_outcome() {
    let cmds = vec!["summary".to_string(), "bogus".to_string()];
    let report = batch_report(&cmds, vec![Ok(j(r#"{"x":1}"#)), Err("unknown subcommand".to_string())]);
    assert_eq!(
        to_compact_string(&report),
        r#"{"commands_parsed":2,"results":[{"command":"summary","result":{"x":1}},{"command":"bogus","error":"unknown subcommand"}]}"#
    );
}

#[test]
fn diff_header_only_for_diff_programs() {
    let env = j(r#"{"status":"ok","program1":{"name":"a"},"program2":{"name":"b"},"summary":{"matched":3,"identical":1,"changed":2,"unmatched_primary":0,"unmatched_secondary":1},"truncated":false}"#);
    assert_eq!(
        diff_header(&Some("diff_programs".to_string()), &env, None),
        Some("binDiff a vs b: 3 matched (1 identical, 2 changed), 0 unmatched in a, 1 in b".to_string())
    );
    assert_eq!(diff_header(&Some("program_info".to_string()), &env, None), None);
    assert_eq!(diff_header(&None, &env, None), None);
}

fn plain_post(count_only: bool) -> PostProc {
    PostProc { filter: None, fields: None, sort: None, limit: None, offset: None, count_only }
}

#[test]
fn output_lines_put_the_header_above_human_formats() {
    let rows = || vec![j(r#"{"a":1}"#)];
    let lines = output_lines(&rows(), Some("HEAD".to_string()), &None, OutputFormat::Json).unwrap();
    assert_eq!(lines.len(), 1);
    let lines = output_lines(&rows(), Some("HEAD".to_string()), &None, OutputFormat::Table).unwrap();
    assert_eq!(lines.len(), 2);
    assert_eq!(lines[0], "HEAD");
    let lines = output_lines(&rows(), Some("HEAD".to_string()), &Some(plain_post(true)), OutputFormat::Table).unwrap();
    assert_eq!(lines, vec!["HEAD".to_string(), "1".to_string()]);
    let lines = output_lines(&[], Some("HEAD".to_string()), &None, OutputFormat::Csv).unwrap();
    assert!(lines.is_empty());
}
