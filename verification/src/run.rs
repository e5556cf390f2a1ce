//! The decisions around running one command: which project and program it
//! targets, which output format applies, how errors read, and what a
//! bridge's answer says about the bridge.
use vstd::prelude::*;
use vstd::string::*;
use crate::cli::{
    str_opt, CommandMeta, Commands, CommentCommands, DumpCommands, FunctionCommands,
    StringsCommands, SymbolCommands, TypeCommands,
};
use crate::error::{error_text, GhidraError};
use crate::format::rows::str_of;
use crate::format::{format_named, OutputFormat};
use crate::json::{member, nat_text, push_str, spec_as_u64, str_eq, write_nat, JsonValue};
use crate::query::planner::{opt_view, plan_model, planned, PlanError, QueryPlan};
use crate::text::{
    chars_of, contains_chars, contains_seq, eq_ascii_ci, eq_ignore_ascii_case, lowercase,
    string_from, trim, trim_chars,
};

verus! {

broadcast use vstd::string::group_string_axioms;

/// The first of the three that is present.
pub open spec fn first_some(a: Option<Seq<char>>, b: Option<Seq<char>>, c: Option<Seq<char>>) -> Option<
    Seq<char>,
> {
    if a is Some {
        a
    } else if b is Some {
        b
    } else {
        c
    }
}

fn first_of(a: Option<&str>, b: &Option<String>, c: &Option<String>) -> (r: Option<String>)
    ensures
        opt_view(r) == first_some(str_opt(a), opt_view(*b), opt_view(*c)),
{
    match a {
        Some(s) => Some(s.to_owned()),
        None => match b {
            Some(s) => Some(s.clone()),
            None => match c {
                Some(s) => Some(s.clone()),
                None => None,
            },
        },
    }
}

/// The project a command targets: its own `--project`, then the global
/// flag, then the `GD_PROJECT` value.
pub fn resolve_project_arg(command: &Commands, global: &Option<String>, env: &Option<String>) -> (r:
    Option<String>)
    ensures
        opt_view(r) == first_some(command.project_of(), opt_view(*global), opt_view(*env)),
{
    first_of(command.project(), global, env)
}

/// The program a command targets: its own `--program`, then the global
/// flag, then the `GD_PROGRAM` value.
pub fn resolve_program_arg(command: &Commands, global: &Option<String>, env: &Option<String>) -> (r:
    Option<String>)
    ensures
        opt_view(r) == first_some(command.program_of(), opt_view(*global), opt_view(*env)),
{
    first_of(command.program(), global, env)
}

/// The configured default format's text, trimmed, unless it is unset,
/// empty or `auto` (in any ASCII case).
pub open spec fn config_choice(value: Option<Seq<char>>) -> Option<Seq<char>> {
    match value {
        Some(v) => if trim(v).len() == 0 || eq_ascii_ci(trim(v), "auto"@) {
            None
        } else {
            Some(trim(v))
        },
        None => None,
    }
}

/// The configured default output format: `Ok(None)` when unset (or
/// `auto`), the format when the name is known, `InvalidFormat` otherwise.
pub fn configured_format(value: &Option<String>) -> (r: Result<Option<OutputFormat>, GhidraError>)
    ensures
        match config_choice(opt_view(*value)) {
            None => r == Ok::<Option<OutputFormat>, GhidraError>(None),
            Some(t) => match format_named(lowercase(t)) {
                Some(f) => r == Ok::<Option<OutputFormat>, GhidraError>(Some(f)),
                None => r matches Err(GhidraError::InvalidFormat(m)) && m@
                    == crate::format::unknown_format_message(t),
            },
        },
{
    match value {
        Some(v) => {
            let t = trim_chars(&chars_of(v.as_str()));
            let auto = chars_of("auto");
            if t.len() == 0 || eq_ignore_ascii_case(&t, &auto) {
                return Ok(None);
            }
            let ts = string_from(&t);
            match OutputFormat::from_str(ts.as_str()) {
                Ok(f) => Ok(Some(f)),
                Err(e) => Err(e),
            }
        },
        None => Ok(None),
    }
}

/// The configured default output format, an unknown name counting as
/// unset (the caller warns about it).
pub fn config_output_format(value: &Option<String>) -> (r: Option<OutputFormat>)
    ensures
        r == match config_choice(opt_view(*value)) {
            None => None,
            Some(t) => format_named(lowercase(t)),
        },
{
    match configured_format(value) {
        Ok(f) => f,
        Err(_) => None,
    }
}

/// The format a command prints in unless another is asked for: C for the
/// decompile commands, assembly for the disassembly commands.
pub open spec fn text_default_of(command: Commands) -> Option<OutputFormat> {
    match command {
        Commands::Decompile(_) | Commands::DecompileMulti(_) | Commands::Function(
            FunctionCommands::Decompile(_),
        ) => Some(OutputFormat::C),
        Commands::Disasm(_) | Commands::Function(FunctionCommands::Disasm(_)) => Some(
            OutputFormat::Asm,
        ),
        _ => None,
    }
}

/// The command's own text format (see [`text_default_of`]).
pub fn text_default_format(command: &Commands) -> (r: Option<OutputFormat>)
    ensures
        r == text_default_of(*command),
{
    match command {
        Commands::Decompile(_) | Commands::DecompileMulti(_) | Commands::Function(
            FunctionCommands::Decompile(_),
        ) => Some(OutputFormat::C),
        Commands::Disasm(_) | Commands::Function(FunctionCommands::Disasm(_)) => Some(
            OutputFormat::Asm,
        ),
        _ => None,
    }
}

/// Whether a bridge error says the running bridge lacks the command (an
/// older bridge script).
pub fn is_unknown_command_error(message: &str) -> (r: bool)
    ensures
        r == contains_seq(message@, "Unknown command:"@),
{
    contains_chars(&chars_of(message), &chars_of("Unknown command:"))
}

/// Whether the command asked the bridge to filter functions by tag.
pub open spec fn tag_filter_requested(command: Commands) -> bool {
    command matches Commands::Function(FunctionCommands::List(a)) && (a.tags@.len() > 0
        || a.untagged)
}

/// Whether a `functions` list holds an object row without `tags`, the mark
/// of a bridge that ignored the tag arguments.
pub open spec fn lacks_tags(value: JsonValue) -> bool {
    match member(value, "functions"@) {
        Some(JsonValue::Array(rows)) => exists|i: int|
            0 <= i < rows@.len() && rows@[i] is Object && (#[trigger] member(rows@[i], "tags"@))
                is None,
        _ => false,
    }
}

/// Whether a tag-filtered function list came from a bridge that ignored
/// the filter (its rows lack `tags`); an empty list passes.
#[verifier::loop_isolation(false)]
pub fn stale_tags_response(command: &Commands, value: &JsonValue) -> (r: bool)
    ensures
        r == (tag_filter_requested(*command) && lacks_tags(*value)),
{
    let requested = match command {
        Commands::Function(FunctionCommands::List(a)) => a.tags.len() > 0 || a.untagged,
        _ => false,
    };
    if !requested {
        return false;
    }
    match value.get("functions") {
        Some(JsonValue::Array(rows)) => {
            let mut i: usize = 0;
            while i < rows.len()
                invariant
                    0 <= i <= rows.len(),
                    forall|j: int|
                        0 <= j < i ==> !(rows@[j] is Object && (#[trigger] member(
                            rows@[j],
                            "tags"@,
                        )) is None),
                decreases rows.len() - i,
            {
                let is_obj = match &rows[i] {
                    JsonValue::Object(_) => true,
                    _ => false,
                };
                if is_obj && rows[i].get("tags").is_none() {
                    assert(rows@[i as int] is Object && member(rows@[i as int], "tags"@) is None);
                    return true;
                }
                i = i + 1;
            }
            false
        },
        _ => false,
    }
}

/// The help that precedes a filter error.
pub open spec fn filter_help() -> Seq<char> {
    "invalid --filter expression: expected <field><operator><value>, e.g. --filter 'name~PK' (contains), --filter 'name=~\"^PK_\"' (regex), --filter 'size>100'; combine with AND/OR/NOT"@
}

/// How a plan error reads: filter errors after the filter usage help.
pub fn describe_query_error(err: GhidraError) -> (r: String)
    ensures
        r@ == if err is FilterParseError || err is InvalidFilter {
            filter_help() + ": "@ + error_text(err)
        } else {
            error_text(err)
        },
{
    let m = err.message();
    if err.is_filter_error() {
        let mut r = String::new();
        push_str(
            &mut r,
            "invalid --filter expression: expected <field><operator><value>, e.g. --filter 'name~PK' (contains), --filter 'name=~\"^PK_\"' (regex), --filter 'size>100'; combine with AND/OR/NOT",
        );
        push_str(&mut r, ": ");
        push_str(&mut r, m.as_str());
        r
    } else {
        m
    }
}

/// Whether a decompile result looks like .NET managed code, which Ghidra
/// cannot decompile.
pub open spec fn dotnet_code(command: Commands, result: JsonValue) -> bool {
    (command is Decompile || command matches Commands::Function(FunctionCommands::Decompile(_)))
        && match str_of(member(result, "code"@)) {
        Some(code) => contains_seq(code, "halt_baddata()"@) || contains_seq(
            code,
            ".NET CLR Managed Code"@,
        ),
        None => false,
    }
}

/// Whether to warn that a decompile result is .NET managed code.
pub fn check_dotnet_decompile_warning(command: &Commands, result: &JsonValue) -> (r: bool)
    ensures
        r == dotnet_code(*command, *result),
{
    let is_decompile = match command {
        Commands::Decompile(_) | Commands::Function(FunctionCommands::Decompile(_)) => true,
        _ => false,
    };
    if !is_decompile {
        return false;
    }
    match result.get("code") {
        Some(JsonValue::String(code)) => {
            let c = chars_of(code.as_str());
            contains_chars(&c, &chars_of("halt_baddata()")) || contains_chars(
                &c,
                &chars_of(".NET CLR Managed Code"),
            )
        },
        _ => false,
    }
}

/// A summary count (0 when missing or not a u64).
pub open spec fn count_in(s: JsonValue, key: Seq<char>) -> nat {
    match member(s, key) {
        Some(x) => match spec_as_u64(x) {
            Some(n) => n as nat,
            None => 0,
        },
        None => 0,
    }
}

/// The one-line context above `diff programs` rows, given the rendering of
/// the overall similarity when the envelope has one; `None` unless the
/// envelope is an `ok` object naming both programs and holding a summary.
pub open spec fn diff_summary(envelope: JsonValue, similarity: Option<Seq<char>>) -> Option<
    Seq<char>,
> {
    let a = str_of(member(member(envelope, "program1"@).unwrap_or(JsonValue::Null), "name"@));
    let b = str_of(member(member(envelope, "program2"@).unwrap_or(JsonValue::Null), "name"@));
    if !(envelope is Object) || str_of(member(envelope, "status"@)) != Some("ok"@) || a is None
        || b is None || member(envelope, "summary"@) is None {
        None
    } else {
        let s = member(envelope, "summary"@)->0;
        let an = a->0;
        let bn = b->0;
        Some(
            "binDiff "@ + an + " vs "@ + bn + ": "@ + nat_text(count_in(s, "matched"@))
                + " matched ("@ + nat_text(count_in(s, "identical"@)) + " identical, "@
                + nat_text(count_in(s, "changed"@)) + " changed), "@ + nat_text(
                count_in(s, "unmatched_primary"@),
            ) + " unmatched in "@ + an + ", "@ + nat_text(count_in(s, "unmatched_secondary"@))
                + " in "@ + bn + match similarity {
                Some(t) => "; overall similarity "@ + t,
                None => seq![],
            } + if member(envelope, "truncated"@) == Some(JsonValue::Bool(true)) {
                " [truncated]"@
            } else {
                seq![]
            },
        )
    }
}

fn count_of(s: &JsonValue, key: &str) -> (r: u64)
    ensures
        r as nat == count_in(*s, key@),
{
    match s.get(key) {
        Some(x) => match x.as_u64() {
            Some(n) => n,
            None => 0,
        },
        None => 0,
    }
}

fn push_count(out: &mut String, n: u64)
    ensures
        final(out)@ == old(out)@ + nat_text(n as nat),
{
    write_nat(n as u128, out);
}

fn program_name<'a>(envelope: &'a JsonValue, key: &str) -> (r: Option<&'a str>)
    ensures
        str_opt(r) == str_of(member(member(*envelope, key@).unwrap_or(JsonValue::Null), "name"@)),
{
    match envelope.get(key) {
        Some(p) => match p.get("name") {
            Some(JsonValue::String(n)) => Some(n.as_str()),
            _ => None,
        },
        None => None,
    }
}

/// The one-line context above `diff programs` rows (see [`diff_summary`]);
/// `similarity` is the overall similarity as it is to be shown.
pub fn diff_summary_line(envelope: &JsonValue, similarity: Option<&str>) -> (r: Option<String>)
    ensures
        opt_view(r) == diff_summary(*envelope, str_opt(similarity)),
{
    let is_obj = match envelope {
        JsonValue::Object(_) => true,
        _ => false,
    };
    if !is_obj {
        return None;
    }
    let status_ok = match envelope.get("status") {
        Some(JsonValue::String(st)) => str_eq(st.as_str(), "ok"),
        _ => false,
    };
    if !status_ok {
        return None;
    }
    let a = match program_name(envelope, "program1") {
        Some(a) => a,
        None => return None,
    };
    let b = match program_name(envelope, "program2") {
        Some(b) => b,
        None => return None,
    };
    let s = match envelope.get("summary") {
        Some(s) => s,
        None => return None,
    };
    let mut out = String::new();
    push_str(&mut out, "binDiff ");
    push_str(&mut out, a);
    push_str(&mut out, " vs ");
    push_str(&mut out, b);
    push_str(&mut out, ": ");
    push_count(&mut out, count_of(s, "matched"));
    push_str(&mut out, " matched (");
    push_count(&mut out, count_of(s, "identical"));
    push_str(&mut out, " identical, ");
    push_count(&mut out, count_of(s, "changed"));
    push_str(&mut out, " changed), ");
    push_count(&mut out, count_of(s, "unmatched_primary"));
    push_str(&mut out, " unmatched in ");
    push_str(&mut out, a);
    push_str(&mut out, ", ");
    push_count(&mut out, count_of(s, "unmatched_secondary"));
    push_str(&mut out, " in ");
    push_str(&mut out, b);
    let ghost head = out@;
    if let Some(t) = similarity {
        push_str(&mut out, "; overall similarity ");
        push_str(&mut out, t);
    }
    let ghost mid = out@;
    let truncated = match envelope.get("truncated") {
        Some(JsonValue::Bool(t)) => *t,
        _ => false,
    };
    if truncated {
        push_str(&mut out, " [truncated]");
    }
    assert(out@ =~= diff_summary(*envelope, str_opt(similarity))->0);
    Some(out)
}

/// The wrapping of `analyze`'s result.
pub open spec fn analyze_envelope_spec(data: JsonValue, out: JsonValue) -> bool {
    match out {
        JsonValue::Object(e) => e@.len() == 3 && e@[0].0@ == "command"@ && e@[0].1 == JsonValue::String(
            e@[0].1->String_0,
        ) && e@[0].1->String_0@ == "analyze"@ && e@[1].0@ == "data"@ && e@[1].1 == data
            && e@[2].0@ == "status"@ && e@[2].1 is String && e@[2].1->String_0@ == "success"@,
        _ => false,
    }
}

/// `{"command": "analyze", "data": .., "status": "success"}`.
pub fn analyze_envelope(data: JsonValue) -> (r: JsonValue)
    ensures
        analyze_envelope_spec(data, r),
{
    let mut e: Vec<(String, JsonValue)> = Vec::new();
    e.push(("command".to_owned(), JsonValue::String("analyze".to_owned())));
    e.push(("data".to_owned(), data));
    e.push(("status".to_owned(), JsonValue::String("success".to_owned())));
    JsonValue::Object(e)
}

// ---------------------------------------------------------------------------
// Execution context
// ---------------------------------------------------------------------------

/// The row field a list command's bridge handler filters on (its `filter`
/// argument is a case-insensitive substring match on it); `None` for
/// commands whose handler cannot filter.
pub open spec fn filter_field_of(command: Commands) -> Option<Seq<char>> {
    match command {
        Commands::Function(FunctionCommands::List(_)) => Some("name"@),
        Commands::Symbol(SymbolCommands::List(_)) => Some("name"@),
        Commands::Type(TypeCommands::List(_)) => Some("name"@),
        Commands::Comment(CommentCommands::List(_)) => Some("text"@),
        Commands::Strings(StringsCommands::List(_)) => Some("value"@),
        Commands::Query(a) => if a.data_type@ == "functions"@ {
            Some("name"@)
        } else if a.data_type@ == "strings"@ {
            Some("value"@)
        } else {
            None
        },
        Commands::Dump(DumpCommands::Functions(_)) => Some("name"@),
        Commands::Dump(DumpCommands::Strings(_)) => Some("value"@),
        _ => None,
    }
}

/// The field the command's bridge handler filters on (see
/// [`filter_field_of`]).
pub fn bridge_filter_field(command: &Commands) -> (r: Option<&'static str>)
    ensures
        str_opt(r) == filter_field_of(*command),
{
    match command {
        Commands::Function(FunctionCommands::List(_)) => Some("name"),
        Commands::Symbol(SymbolCommands::List(_)) => Some("name"),
        Commands::Type(TypeCommands::List(_)) => Some("name"),
        Commands::Comment(CommentCommands::List(_)) => Some("text"),
        Commands::Strings(StringsCommands::List(_)) => Some("value"),
        Commands::Query(a) => {
            if str_eq(a.data_type.as_str(), "functions") {
                Some("name")
            } else if str_eq(a.data_type.as_str(), "strings") {
                Some("value")
            } else {
                None
            }
        },
        Commands::Dump(DumpCommands::Functions(_)) => Some("name"),
        Commands::Dump(DumpCommands::Strings(_)) => Some("value"),
        _ => None,
    }
}

/// Where the BinDiff tools are, from the configuration.
#[derive(Clone, Debug)]
pub struct BindiffSettings {
    /// The plain `BinExport.jar` the bridge loads to export programs.
    pub binexport_jar: Option<String>,
    /// The native differ binary.
    pub differ: Option<String>,
}

/// Per-invocation context for running a bridge command.
pub struct ExecCtx {
    pub quiet: bool,
    pub default_limit: Option<usize>,
    /// What to fetch from the bridge and what to do with the rows after.
    pub plan: QueryPlan,
    pub bindiff: Option<BindiffSettings>,
}

impl ExecCtx {
    /// The context for `command`, with its query plan; a malformed filter
    /// fails here with `FilterParseError`, a bad regex with `InvalidFilter`.
    pub fn for_command(
        quiet: bool,
        default_limit: Option<usize>,
        command: &Commands,
        bindiff: Option<BindiffSettings>,
    ) -> (r: Result<ExecCtx, GhidraError>)
        ensures
            match planned(command.options_of(), default_limit, filter_field_of(*command)) {
                Ok(pm) => r matches Ok(c) && plan_model(c.plan) == pm && c.quiet == quiet
                    && c.default_limit == default_limit && c.bindiff == bindiff,
                Err(PlanError::Parse) => r matches Err(e) && e is FilterParseError,
                Err(PlanError::Regex) => r matches Err(e) && e is InvalidFilter,
            },
    {
        let opts = command.query_options();
        let field = bridge_filter_field(command);
        let o = match &opts {
            Some(q) => Some(q),
            None => None,
        };
        let plan = QueryPlan::from(o, default_limit, field)?;
        Ok(ExecCtx { quiet, default_limit, plan, bindiff })
    }
}

// ---------------------------------------------------------------------------
// Projects
// ---------------------------------------------------------------------------

/// `Path::join`: `name` under `dir` (or `name` alone when it is absolute).
pub uninterp spec fn joined_path(dir: Seq<char>, name: Seq<char>) -> Seq<char>;

/// `Path::is_absolute` on the platform the library is built for.
pub uninterp spec fn path_is_absolute(p: Seq<char>) -> bool;

/// Calls `Path::join` (read back as text); the result is named
/// [`joined_path`].
#[verifier::external_body]
pub(crate) fn join_path(dir: &str, name: &str) -> (r: String)
    ensures
        r@ == joined_path(dir@, name@),
{
    std::path::Path::new(dir).join(name).to_string_lossy().into_owned()
}

/// Calls `Path::is_absolute`; the result is named [`path_is_absolute`].
#[verifier::external_body]
pub(crate) fn is_absolute_path(p: &str) -> (r: bool)
    ensures
        r == path_is_absolute(p@),
{
    std::path::Path::new(p).is_absolute()
}

/// The project name: the requested one, else the configured default.
pub fn resolve_project_name(project: &Option<String>, default_project: &Option<String>) -> (r: Result<
    String,
    String,
>)
    ensures
        match first_some(opt_view(*project), opt_view(*default_project), None) {
            Some(n) => r matches Ok(s) && s@ == n,
            None => r matches Err(m) && m@ == "No project specified and no default project configured"@,
        },
{
    match project {
        Some(p) => Ok(p.clone()),
        None => match default_project {
            Some(d) => Ok(d.clone()),
            None => Err("No project specified and no default project configured".to_owned()),
        },
    }
}

/// Where a project lives: an absolute name as given, else under the
/// projects directory.
pub open spec fn project_place(name: Seq<char>, dir: Seq<char>) -> Seq<char> {
    if path_is_absolute(name) {
        name
    } else {
        joined_path(dir, name)
    }
}

/// The path of the project to use (see [`resolve_project_name`] and
/// [`project_place`]).
pub fn resolve_project_path(project: &Option<String>, default_project: &Option<String>, project_dir: &str) -> (r:
    Result<String, String>)
    ensures
        match first_some(opt_view(*project), opt_view(*default_project), None) {
            Some(n) => r matches Ok(s) && s@ == project_place(n, project_dir@),
            None => r matches Err(m) && m@ == "No project specified and no default project configured"@,
        },
{
    let name = resolve_project_name(project, default_project)?;
    if is_absolute_path(name.as_str()) {
        Ok(name)
    } else {
        Ok(join_path(project_dir, name.as_str()))
    }
}

/// The directory under which a project's name lives, for the Ghidra
/// artifacts `<parent>/<name>.gpr` and `<parent>/<name>.rep`.
pub open spec fn artifact_paths(parent: Seq<char>, name: Seq<char>) -> (Seq<char>, Seq<char>) {
    (joined_path(parent, name + ".gpr"@), joined_path(parent, name + ".rep"@))
}

/// The two paths whose existence marks a Ghidra project at `<parent>/<name>`:
/// the `.gpr` descriptor and the `.rep` data directory.
pub fn project_artifacts(parent: &str, name: &str) -> (r: (String, String))
    ensures
        (r.0@, r.1@) == artifact_paths(parent@, name@),
{
    let mut g = name.to_owned();
    push_str(&mut g, ".gpr");
    let mut d = name.to_owned();
    push_str(&mut d, ".rep");
    (join_path(parent, g.as_str()), join_path(parent, d.as_str()))
}

// ---------------------------------------------------------------------------
// Addresses
// ---------------------------------------------------------------------------

/// The value of a hexadecimal digit, `-1` for other characters.
pub open spec fn hex_digit_value(c: char) -> int {
    if '0' <= c <= '9' {
        (c as u32) - 48
    } else if 'a' <= c <= 'f' {
        (c as u32) - 87
    } else if 'A' <= c <= 'F' {
        (c as u32) - 55
    } else {
        -1
    }
}

pub open spec fn all_hex(s: Seq<char>) -> bool {
    forall|i: int| 0 <= i < s.len() ==> hex_digit_value(#[trigger] s[i]) >= 0
}

/// The value of a run of hexadecimal digits.
pub open spec fn hex_value(s: Seq<char>) -> int
    decreases s.len(),
{
    if s.len() == 0 {
        0
    } else {
        hex_value(s.drop_last()) * 16 + hex_digit_value(s.last())
    }
}

/// `u64::from_str_radix(s, 16)`: an optional `+`, then one or more
/// hexadecimal digits whose value fits in 64 bits.
pub open spec fn radix16(s: Seq<char>) -> Option<u64> {
    let d = if s.len() > 0 && s[0] == '+' {
        s.drop_first()
    } else {
        s
    };
    if d.len() > 0 && all_hex(d) && hex_value(d) <= u64::MAX {
        Some(hex_value(d) as u64)
    } else {
        None
    }
}

/// A Ghidra address string: trimmed, an optional `0x`/`0X` dropped, read
/// as hexadecimal.
pub open spec fn ghidra_addr(s: Seq<char>) -> Option<u64> {
    let t = trim(s);
    let u = if t.len() >= 2 && t[0] == '0' && (t[1] == 'x' || t[1] == 'X') {
        t.skip(2)
    } else {
        t
    };
    radix16(u)
}

proof fn lemma_hex_value_grows(s: Seq<char>, k: int)
    requires
        0 <= k <= s.len(),
        all_hex(s),
    ensures
        0 <= hex_value(s.take(k)) <= hex_value(s),
    decreases s.len() - k,
{
    if k < s.len() {
        lemma_hex_value_grows(s, k + 1);
        assert(s.take(k + 1).drop_last() =~= s.take(k));
        lemma_hex_nonneg(s.take(k));
    } else {
        assert(s.take(k) =~= s);
        lemma_hex_nonneg(s);
    }
}

proof fn lemma_hex_nonneg(s: Seq<char>)
    requires
        all_hex(s),
    ensures
        hex_value(s) >= 0,
    decreases s.len(),
{
    if s.len() > 0 {
        lemma_hex_nonneg(s.drop_last());
    }
}

fn hex_digit_of(c: char) -> (r: i32)
    ensures
        r as int == hex_digit_value(c),
{
    if '0' <= c && c <= '9' {
        (c as u32 - 48) as i32
    } else if 'a' <= c && c <= 'f' {
        (c as u32 - 87) as i32
    } else if 'A' <= c && c <= 'F' {
        (c as u32 - 55) as i32
    } else {
        -1
    }
}

/// `u64::from_str_radix(s, 16)` (see [`radix16`]).
#[verifier::loop_isolation(false)]
pub fn parse_radix16(s: &Vec<char>) -> (r: Option<u64>)
    ensures
        r == radix16(s@),
{
    let start: usize = if s.len() > 0 && s[0] == '+' {
        1
    } else {
        0
    };
    let ghost d = if s@.len() > 0 && s@[0] == '+' {
        s@.drop_first()
    } else {
        s@
    };
    assert(d =~= s@.skip(start as int));
    if start >= s.len() {
        return None;
    }
    let mut acc: u64 = 0;
    let mut i: usize = start;
    assert(d.take(0) =~= Seq::<char>::empty());
    assert(hex_value(d.take(0)) == 0);
    while i < s.len()
        invariant
            start <= i <= s.len(),
            start <= 1,
            d == s@.skip(start as int),
            d.len() == s.len() - start,
            forall|j: int| 0 <= j < i - start ==> hex_digit_value(#[trigger] d[j]) >= 0,
            acc as int == hex_value(d.take(i - start)),
        decreases s.len() - i,
    {
        let v = hex_digit_of(s[i]);
        assert(d[i - start] == s@[i as int]);
        if v < 0 {
            assert(!all_hex(d));
            return None;
        }
        assert(d.take(i - start + 1).drop_last() =~= d.take(i - start));
        assert(d.take(i - start + 1).last() == d[i - start]);
        assert(hex_value(d.take(i - start + 1)) == hex_value(d.take(i - start)) * 16 + v);
        let next: u128 = (acc as u128) * 16 + (v as u128);
        if next > 0xffff_ffff_ffff_ffffu128 {
            proof {
                if all_hex(d) {
                    lemma_hex_value_grows(d, i - start + 1);
                }
            }
            return None;
        }
        acc = next as u64;
        i = i + 1;
    }
    assert(d.take(d.len() as int) =~= d);
    Some(acc)
}

/// Reads a Ghidra address (see [`ghidra_addr`]): hex without a prefix,
/// tolerating `0x`/`0X`.
pub fn parse_ghidra_addr(s: &str) -> (r: Option<u64>)
    ensures
        r == ghidra_addr(s@),
{
    let t = trim_chars(&chars_of(s));
    if t.len() >= 2 && t[0] == '0' && (t[1] == 'x' || t[1] == 'X') {
        let rest = crate::text::slice_chars(&t, 2, t.len());
        assert(rest@ =~= t@.skip(2));
        parse_radix16(&rest)
    } else {
        parse_radix16(&t)
    }
}

} // verus!
