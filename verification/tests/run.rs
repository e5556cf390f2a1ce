use ghidra_cli::cli::{
    CommandMeta, Commands, DecompileArgs, FunctionCommands, FunctionGetArgs, FunctionListArgs,
    ProjectArgs, ProjectCommands, QueryArgs, QueryOptions, RawArgs, TargetArgs,
};
use ghidra_cli::filter::Filter;
use ghidra_cli::format::{resolve_output_format, OutputFormat};
use ghidra_cli::json::{JsonNumber, JsonValue};
use ghidra_cli::run::{
    bridge_filter_field, check_dotnet_decompile_warning, config_output_format,
    describe_query_error, diff_summary_line, is_unknown_command_error, parse_ghidra_addr,
    resolve_program_arg, resolve_project_arg, resolve_project_name, resolve_project_path,
    stale_tags_response,
    text_default_format,
};

fn to_json(v: &serde_json::Value) -> JsonValue {
    match v {
        serde_json::Value::Null => JsonValue::Null,
        serde_json::Value::Bool(b) => JsonValue::Bool(*b),
        serde_json::Value::Number(n) => match (n.as_i64(), n.as_u64()) {
            (Some(i), _) => JsonValue::Number(JsonNumber::Int(i as i128)),
            (None, Some(u)) => JsonValue::Number(JsonNumber::Int(u as i128)),
            _ => JsonValue::Number(JsonNumber::Float(n.to_string())),
        },
        serde_json::Value::String(s) => JsonValue::String(s.clone()),
        serde_json::Value::Array(a) => JsonValue::Array(a.iter().map(to_json).collect()),
        serde_json::Value::Object(m) => JsonValue::Object(
            m.iter().map(|(k, v)| (k.clone(), to_json(v))).collect(),
        ),
    }
}

fn j(text: &str) -> JsonValue {
    to_json(&serde_json::from_str::<serde_json::Value>(text).unwrap())
}

#[test]
fn resolve_output_format_precedence() {
    assert_eq!(
        resolve_output_format(
            Some(OutputFormat::Csv),
            true,
            true,
            Some(OutputFormat::Table),
            Some(OutputFormat::C),
            true
        ),
        OutputFormat::Csv
    );
    assert_eq!(
        resolve_output_format(None, true, true, Some(OutputFormat::Table), None, true),
        OutputFormat::Json
    );
    assert_eq!(
        resolve_output_format(None, false, true, Some(OutputFormat::Table), None, true),
        OutputFormat::JsonCompact
    );
    assert_eq!(
        resolve_output_format(
            None,
            false,
            false,
            Some(OutputFormat::Table),
            Some(OutputFormat::C),
            true
        ),
        OutputFormat::Table
    );
    assert_eq!(
        resolve_output_format(None, false, false, Some(OutputFormat::Table), None, true),
        OutputFormat::Table
    );
    assert_eq!(
        resolve_output_format(None, false, false, None, None, true),
        OutputFormat::Compact
    );
    assert_eq!(
        resolve_output_format(None, false, false, None, None, false),
        OutputFormat::JsonCompact
    );
    assert_eq!(
        resolve_output_format(None, false, false, None, Some(OutputFormat::C), false),
        OutputFormat::C
    );
}

#[test]
fn config_output_format_handles_auto_and_invalid() {
    assert_eq!(
        config_output_format(&Some("auto".to_string())),
        None,
        "built-in \"auto\" means unset"
    );
    assert_eq!(
        config_output_format(&Some("table".into())),
        Some(OutputFormat::Table)
    );
    assert_eq!(
        config_output_format(&Some("  JSON ".into())),
        Some(OutputFormat::Json)
    );
    assert_eq!(config_output_format(&Some("AUTO".into())), None);
    assert_eq!(config_output_format(&Some("bogus".into())), None);
    assert_eq!(config_output_format(&None), None);
    assert_eq!(config_output_format(&Some("   ".into())), None);
}

#[test]
fn describe_query_error_mentions_filter_usage() {
    let Err(err) = Filter::parse("PK") else {
        panic!("bare word must not parse");
    };
    let msg = describe_query_error(err);
    assert!(msg.contains("invalid --filter expression"), "got: {msg}");
}

fn decompile_cmd() -> Commands {
    Commands::Decompile(DecompileArgs {
        target: TargetArgs::default(),
        with_vars: false,
        with_params: false,
        options: QueryOptions::default(),
    })
}

#[test]
fn command_meta_bridge_groups() {
    assert!(decompile_cmd().requires_bridge());
    assert!(!Commands::Doctor.requires_bridge());
    assert!(!Commands::Init.requires_bridge());
    assert!(!Commands::Project(ProjectArgs {
        command: ProjectCommands::List,
    })
    .requires_bridge());

    let cmd = Commands::Function(FunctionCommands::Get(FunctionGetArgs {
        target: TargetArgs::default(),
        options: QueryOptions {
            project: Some("proj".into()),
            program: Some("prog".into()),
            ..Default::default()
        },
    }));
    assert_eq!(cmd.project(), Some("proj"));
    assert_eq!(cmd.program(), Some("prog"));
    assert!(cmd.query_options().is_some());

    let q = Commands::Query(QueryArgs::default());
    assert!(q.project().is_none());
    assert!(q.query_options().is_some());

    let raw = Commands::Raw(RawArgs {
        command: "ping".into(),
        json_args: "{}".into(),
        options: QueryOptions::default(),
    });
    assert!(raw.query_options().is_none());
}

fn function_list(project: Option<&str>, program: Option<&str>) -> Commands {
    Commands::Function(FunctionCommands::List(FunctionListArgs {
        tags: vec![],
        untagged: false,
        options: QueryOptions {
            project: project.map(str::to_string),
            program: program.map(str::to_string),
            ..Default::default()
        },
    }))
}

#[test]
fn resolve_project_arg_command_flag_wins() {
    let cmd = function_list(Some("cmdproj"), None);
    assert_eq!(
        resolve_project_arg(&cmd, &None, &Some("envproj".into())),
        Some("cmdproj".into())
    );
}

#[test]
fn resolve_project_arg_env_fallback() {
    let cmd = function_list(None, None);
    assert_eq!(
        resolve_project_arg(&cmd, &None, &Some("envproj".into())),
        Some("envproj".into())
    );
}

#[test]
fn resolve_project_arg_absent() {
    let cmd = function_list(None, None);
    assert_eq!(resolve_project_arg(&cmd, &None, &None), None);
}

#[test]
fn resolve_program_arg_global_flag_beats_env() {
    let cmd = function_list(None, None);
    assert_eq!(
        resolve_program_arg(&cmd, &Some("globalprog".into()), &Some("envprog".into())),
        Some("globalprog".into())
    );
}

#[test]
fn resolve_program_arg_env_fallback() {
    let cmd = function_list(None, None);
    assert_eq!(
        resolve_program_arg(&cmd, &None, &Some("envprog".into())),
        Some("envprog".into())
    );
}

#[test]
fn text_defaults_for_decompile_and_disasm() {
    assert_eq!(text_default_format(&decompile_cmd()), Some(OutputFormat::C));
    assert_eq!(text_default_format(&Commands::Doctor), None);
}

#[test]
fn unknown_command_errors_are_recognised() {
    assert!(is_unknown_command_error("bridge error: Unknown command: tag_add"));
    assert!(!is_unknown_command_error("Unknown command"));
}

#[test]
fn stale_tag_responses() {
    let tagged = Commands::Function(FunctionCommands::List(FunctionListArgs {
        tags: vec!["crypto".into()],
        untagged: false,
        options: QueryOptions::default(),
    }));
    assert!(stale_tags_response(&tagged, &j(r#"{"functions": [{"name": "a"}]}"#)));
    assert!(!stale_tags_response(&tagged, &j(r#"{"functions": [{"name": "a", "tags": []}]}"#)));
    assert!(!stale_tags_response(&tagged, &j(r#"{"functions": []}"#)));
    let untagged_cmd = function_list(None, None);
    assert!(!stale_tags_response(&untagged_cmd, &j(r#"{"functions": [{"name": "a"}]}"#)));
}

#[test]
fn dotnet_warning_only_for_decompile() {
    let managed = j(r#"{"code": "void f(void) { halt_baddata(); }"}"#);
    assert!(check_dotnet_decompile_warning(&decompile_cmd(), &managed));
    assert!(!check_dotnet_decompile_warning(&Commands::Doctor, &managed));
    assert!(!check_dotnet_decompile_warning(&decompile_cmd(), &j(r#"{"code": "int x;"}"#)));
}

#[test]
fn diff_summary_line_reads_the_envelope() {
    let env = j(r#"{"status": "ok", "program1": {"name": "a.exe"}, "program2": {"name": "b.exe"},
        "summary": {"matched": 10, "identical": 7, "changed": 3, "unmatched_primary": 1, "unmatched_secondary": 2},
        "truncated": true}"#);
    assert_eq!(
        diff_summary_line(&env, Some("0.984")).unwrap(),
        "binDiff a.exe vs b.exe: 10 matched (7 identical, 3 changed), 1 unmatched in a.exe, 2 in b.exe; overall similarity 0.984 [truncated]"
    );
    assert!(diff_summary_line(&j(r#"{"status": "error"}"#), None).is_none());
}

#[test]
fn ghidra_addresses() {
    assert_eq!(parse_ghidra_addr("00101040"), Some(0x101040));
    assert_eq!(parse_ghidra_addr(" 0x1F "), Some(0x1f));
    assert_eq!(parse_ghidra_addr("0X+ff"), Some(0xff));
    assert_eq!(parse_ghidra_addr("ffffffffffffffff"), Some(u64::MAX));
    assert_eq!(parse_ghidra_addr("10000000000000000"), None);
    assert_eq!(parse_ghidra_addr("0x"), None);
    assert_eq!(parse_ghidra_addr("xyz"), None);
}

#[test]
fn filter_fields_and_project_names() {
    assert_eq!(bridge_filter_field(&function_list(None, None)), Some("name"));
    assert_eq!(bridge_filter_field(&Commands::Doctor), None);
    assert_eq!(
        resolve_project_name(&None, &Some("dflt".into())),
        Ok("dflt".to_string())
    );
    assert!(resolve_project_name(&None, &None).is_err());
}

#[test]
fn project_paths_join_relative_names() {
    assert_eq!(
        resolve_project_path(&Some("fw".into()), &None, "/data/projects"),
        Ok("/data/projects/fw".to_string())
    );
    assert_eq!(
        resolve_project_path(&None, &Some("/abs/fw".into()), "/data/projects"),
        Ok("/abs/fw".to_string())
    );
}
