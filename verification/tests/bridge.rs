use ghidra_cli::bridge::{dispatch, parse_expect_spec, BridgeArg, Dispatch};
use ghidra_cli::cli::{
    Commands, DecompileArgs, DiffCommands, DiffProgramsArgs, FindCommands, FindInstructionArgs,
    FunctionCommands, FunctionListArgs, GraphCommands, ProgramCommands, ProgramTargetArgs,
    QueryArgs, QueryOptions, ScriptCommands, ScriptRunArgs, TagAttachArgs, TagCommands,
    TargetArgs, TypeAddFieldArgs, TypeCommands,
};
use ghidra_cli::query::planner::FetchParams;

fn no_fetch() -> FetchParams {
    FetchParams { limit: None, filter: None, offset: None }
}

fn target(t: &str) -> TargetArgs {
    TargetArgs { positional_target: Some(t.to_string()), target: None }
}

fn sent(d: Result<Dispatch, String>) -> (String, Vec<(String, BridgeArg)>) {
    match d {
        Ok(Dispatch::Send(r)) => (r.command, r.args),
        other => panic!("expected a request, got {:?}", other),
    }
}

fn keys(args: &[(String, BridgeArg)]) -> Vec<String> {
    args.iter().map(|(k, _)| k.clone()).collect()
}

fn text(a: &BridgeArg) -> String {
    match a {
        BridgeArg::Text(s) => s.clone(),
        other => panic!("expected text, got {:?}", other),
    }
}

fn number(a: &BridgeArg) -> i128 {
    match a {
        BridgeArg::Int(i) => *i,
        other => panic!("expected a number, got {:?}", other),
    }
}

#[test]
fn decompile_sends_target_and_flags() {
    let cmd = Commands::Decompile(DecompileArgs {
        target: TargetArgs { positional_target: Some("main".to_string()), target: Some("FUN_1".to_string()) },
        with_vars: true,
        with_params: false,
        options: QueryOptions::default(),
    });
    let (c, a) = sent(dispatch(&cmd, &no_fetch(), None));
    assert_eq!(c, "decompile");
    assert_eq!(keys(&a), vec!["address", "with_params", "with_vars"]);
    assert_eq!(text(&a[0].1), "FUN_1");
    assert!(matches!(a[1].1, BridgeArg::Flag(false)));
    assert!(matches!(a[2].1, BridgeArg::Flag(true)));
}

#[test]
fn function_list_carries_the_fetch_plan() {
    let cmd = Commands::Function(FunctionCommands::List(FunctionListArgs {
        tags: vec!["crypto".to_string()],
        untagged: false,
        options: QueryOptions::default(),
    }));
    let fetch = FetchParams { limit: Some(20), filter: Some("evp".to_string()), offset: Some(40) };
    let (c, a) = sent(dispatch(&cmd, &fetch, Some(5)));
    assert_eq!(c, "list_functions");
    assert_eq!(keys(&a), vec!["filter", "limit", "offset", "tags", "untagged"]);
    assert_eq!(text(&a[0].1), "evp");
    assert_eq!(number(&a[1].1), 20);
    assert_eq!(number(&a[2].1), 40);
    match &a[3].1 {
        BridgeArg::Texts(t) => assert_eq!(t, &vec!["crypto".to_string()]),
        other => panic!("{:?}", other),
    }
}

fn query(data_type: &str) -> Commands {
    Commands::Query(QueryArgs { data_type: data_type.to_string(), ..QueryArgs::default() })
}

#[test]
fn query_types_map_to_list_commands() {
    assert_eq!(sent(dispatch(&query("imports"), &no_fetch(), None)).0, "list_imports");
    assert_eq!(sent(dispatch(&query("memory"), &no_fetch(), None)).0, "memory_map");
    let (c, a) = sent(dispatch(&query("strings"), &no_fetch(), None));
    assert_eq!(c, "list_strings");
    assert!(matches!(a[1].1, BridgeArg::Null));
    match dispatch(&query("widgets"), &no_fetch(), None) {
        Err(m) => assert_eq!(m, "Query type 'widgets' not supported"),
        other => panic!("{:?}", other),
    }
}

#[test]
fn graph_calls_falls_back_to_the_default_limit() {
    let cmd = Commands::Graph(GraphCommands::Calls(QueryOptions::default()));
    let (c, a) = sent(dispatch(&cmd, &no_fetch(), Some(7)));
    assert_eq!(c, "graph_calls");
    assert_eq!(number(&a[0].1), 7);
    let cmd = Commands::Graph(GraphCommands::Calls(QueryOptions { limit: Some(3), ..QueryOptions::default() }));
    assert_eq!(number(&sent(dispatch(&cmd, &no_fetch(), Some(7))).1[0].1), 3);
}

#[test]
fn find_instruction_keeps_its_own_default() {
    let cmd = Commands::Find(FindCommands::Instruction(FindInstructionArgs {
        pattern: "ldr r4".to_string(),
        start: Some("0x1000".to_string()),
        end: None,
        case_sensitive: false,
        options: QueryOptions::default(),
    }));
    let (c, a) = sent(dispatch(&cmd, &no_fetch(), Some(5)));
    assert_eq!(c, "find_instruction");
    assert_eq!(keys(&a), vec!["case_sensitive", "end", "limit", "pattern", "start"]);
    assert_eq!(number(&a[2].1), 100);
    assert!(matches!(a[1].1, BridgeArg::Null));
}

#[test]
fn type_add_field_renames_its_arguments() {
    let cmd = Commands::Type(TypeCommands::AddField(TypeAddFieldArgs {
        ty_name: "S".to_string(),
        name: "f".to_string(),
        field_type: "int".to_string(),
        offset: Some(4),
        size: None,
        program: None,
        project: None,
    }));
    let (c, a) = sent(dispatch(&cmd, &no_fetch(), None));
    assert_eq!(c, "type_add_field");
    assert_eq!(keys(&a), vec!["field_name", "field_type", "offset", "size", "type_name"]);
    assert_eq!(text(&a[0].1), "f");
    assert_eq!(number(&a[2].1), 4);
    assert_eq!(text(&a[4].1), "S");
}

#[test]
fn tag_add_names_the_function() {
    let cmd = Commands::Tag(TagCommands::Add(TagAttachArgs {
        target: "main".to_string(),
        tags: vec!["a".to_string(), "b".to_string()],
        no_create: true,
        program: None,
        project: None,
    }));
    let (c, a) = sent(dispatch(&cmd, &no_fetch(), None));
    assert_eq!(c, "tag_add");
    assert_eq!(keys(&a), vec!["function", "no_create", "tags"]);
    assert_eq!(text(&a[0].1), "main");
}

#[test]
fn program_open_needs_a_name() {
    let open = |p: Option<&str>| {
        Commands::Program(ProgramCommands::Open(ProgramTargetArgs { program: p.map(str::to_string), project: None }))
    };
    match dispatch(&open(None), &no_fetch(), None) {
        Err(m) => assert_eq!(m, "Program name required. Use --program <name>"),
        other => panic!("{:?}", other),
    }
    let (c, a) = sent(dispatch(&open(Some("libc.so")), &no_fetch(), None));
    assert_eq!(c, "open_program");
    assert_eq!(text(&a[0].1), "libc.so");
    let delete = Commands::Program(ProgramCommands::Delete(ProgramTargetArgs { program: None, project: None }));
    match dispatch(&delete, &no_fetch(), None) {
        Err(m) => assert_eq!(m, "Program name required"),
        other => panic!("{:?}", other),
    }
}

#[test]
fn multi_step_commands_are_named() {
    let diff = Commands::Diff(DiffCommands::Programs(DiffProgramsArgs {
        program1: None,
        program2: Some("b".to_string()),
        changed: false,
        unmatched: false,
        min_sim: None,
        name: None,
        limit: None,
        format: None,
        program: None,
        project: None,
    }));
    assert!(matches!(dispatch(&diff, &no_fetch(), None), Ok(Dispatch::DiffPrograms)));
    let run = Commands::Script(ScriptCommands::Run(ScriptRunArgs {
        script_path: "report.java".to_string(),
        program: None,
        project: None,
        expect: vec!["out.csv:10".to_string(), "C:\\x.csv".to_string()],
        allow_empty: true,
        args: vec!["one".to_string()],
    }));
    match dispatch(&run, &no_fetch(), None) {
        Ok(Dispatch::ScriptRun { script_path, args, expect, allow_empty }) => {
            assert_eq!(script_path, "report.java");
            assert_eq!(args, vec!["one".to_string()]);
            assert_eq!(expect, vec![("out.csv".to_string(), Some(10)), ("C:\\x.csv".to_string(), None)]);
            assert!(allow_empty);
        },
        other => panic!("{:?}", other),
    }
    assert!(matches!(dispatch(&Commands::Version, &no_fetch(), None), Err(m) if m == "Command not supported"));
}

#[test]
fn expect_specs_split_on_a_trailing_row_count() {
    assert_eq!(parse_expect_spec("out.csv"), ("out.csv".to_string(), None));
    assert_eq!(parse_expect_spec("out.csv:25"), ("out.csv".to_string(), Some(25)));
    assert_eq!(parse_expect_spec("a:b:7"), ("a:b".to_string(), Some(7)));
    assert_eq!(parse_expect_spec("C:\\data\\x.csv"), ("C:\\data\\x.csv".to_string(), None));
    assert_eq!(parse_expect_spec("x.csv:"), ("x.csv:".to_string(), None));
    assert_eq!(
        parse_expect_spec("x.csv:99999999999999999999999"),
        ("x.csv".to_string(), None)
    );
}
