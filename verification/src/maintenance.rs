//! The decisions of the maintenance commands: which configuration setting
//! `config set` changes, which default `set-default` sets, where `setup`
//! installs, how `import` names the program and reports, and how the
//! bridge job and cancellation summaries read.
use vstd::prelude::*;
use vstd::string::*;
use crate::error::GhidraError;
use crate::format::rows::str_of;
use crate::json::{member, push_str, spec_as_u64, str_eq, write_nat, JsonValue};
use crate::query::planner::opt_view;
use crate::run::{join_path, joined_path};
use crate::text::{all_digits, chars_of, digits_value, digits_value_capped, slice_chars};

verus! {

broadcast use vstd::string::group_string_axioms;

// ---------------------------------------------------------------------------
// `config set`
// ---------------------------------------------------------------------------

/// The value of an unsigned decimal as `u64::from_str` reads it: an
/// optional `+`, then at least one digit.
pub open spec fn unsigned_value(s: Seq<char>) -> Option<nat> {
    let d = if s.len() > 0 && s[0] == '+' {
        s.drop_first()
    } else {
        s
    };
    if all_digits(d) {
        Some(digits_value(d))
    } else {
        None
    }
}

/// Reads an unsigned decimal no greater than `cap` (see [`unsigned_value`]).
pub fn parse_unsigned(s: &str, cap: u64) -> (r: Option<u64>)
    ensures
        match unsigned_value(s@) {
            Some(v) => if v <= cap {
                r == Some(v as u64)
            } else {
                r is None
            },
            None => r is None,
        },
{
    let cs = chars_of(s);
    let d = if cs.len() > 0 && cs[0] == '+' {
        slice_chars(&cs, 1, cs.len())
    } else {
        slice_chars(&cs, 0, cs.len())
    };
    assert(cs@.subrange(1, cs.len() as int) =~= cs@.drop_first());
    assert(cs@.subrange(0, cs.len() as int) =~= cs@);
    digits_value_capped(&d, cap)
}

/// A change `config set` makes.
#[derive(Debug)]
pub enum ConfigChange {
    DefaultOutputFormat(String),
    GhidraInstallDir(String),
    GhidraProjectDir(String),
    DefaultProgram(String),
    DefaultProject(String),
    LaunchTimeoutSecs(u64),
    DefaultLimit(usize),
}

/// The message for the removed `timeout` key.
pub open spec fn timeout_removed() -> Seq<char> {
    "'timeout' has been removed because it no longer controlled bridge waits. Use GHIDRA_CLI_READ_TIMEOUT for normal commands, GHIDRA_CLI_OP_TIMEOUT for analyze/import, or config 'launch_timeout_secs' for bridge startup."@
}

/// Whether `r` is the change `config set key value` makes, or the error it
/// fails with: the known keys take the value as text, the two numeric keys
/// as an unsigned number; `timeout` is gone, and any other key is unknown.
pub open spec fn config_change_is(key: Seq<char>, value: Seq<char>, r: Result<ConfigChange, String>) -> bool {
    if key == "default_output_format"@ {
        r matches Ok(ConfigChange::DefaultOutputFormat(v)) && v@ == value
    } else if key == "timeout"@ {
        r matches Err(m) && m@ == timeout_removed()
    } else if key == "ghidra_install_dir"@ {
        r matches Ok(ConfigChange::GhidraInstallDir(v)) && v@ == value
    } else if key == "ghidra_project_dir"@ {
        r matches Ok(ConfigChange::GhidraProjectDir(v)) && v@ == value
    } else if key == "default_program"@ {
        r matches Ok(ConfigChange::DefaultProgram(v)) && v@ == value
    } else if key == "default_project"@ {
        r matches Ok(ConfigChange::DefaultProject(v)) && v@ == value
    } else if key == "launch_timeout_secs"@ {
        match unsigned_value(value) {
            Some(n) => if n <= u64::MAX {
                r == Ok::<ConfigChange, String>(ConfigChange::LaunchTimeoutSecs(n as u64))
            } else {
                r matches Err(m) && m@ == "Configuration error: "@ + "Invalid launch timeout value"@
            },
            None => r matches Err(m) && m@ == "Configuration error: "@ + "Invalid launch timeout value"@,
        }
    } else if key == "default_limit"@ {
        match unsigned_value(value) {
            Some(n) => if n <= usize::MAX {
                r == Ok::<ConfigChange, String>(ConfigChange::DefaultLimit(n as usize))
            } else {
                r matches Err(m) && m@ == "Configuration error: "@ + "Invalid limit value"@
            },
            None => r matches Err(m) && m@ == "Configuration error: "@ + "Invalid limit value"@,
        }
    } else {
        r matches Err(m) && m@ == "Unknown config key: "@ + key
    }
}

fn config_error(m: &str) -> (r: String)
    ensures
        r@ == "Configuration error: "@ + m@,
{
    GhidraError::ConfigError(m.to_owned()).message()
}

/// The change `config set key value` makes (see [`config_change_is`]).
pub fn config_change(key: &str, value: &str) -> (r: Result<ConfigChange, String>)
    ensures
        config_change_is(key@, value@, r),
{
    if str_eq(key, "default_output_format") {
        Ok(ConfigChange::DefaultOutputFormat(value.to_owned()))
    } else if str_eq(key, "timeout") {
        Err(
            "'timeout' has been removed because it no longer controlled bridge waits. Use GHIDRA_CLI_READ_TIMEOUT for normal commands, GHIDRA_CLI_OP_TIMEOUT for analyze/import, or config 'launch_timeout_secs' for bridge startup.".to_owned(),
        )
    } else if str_eq(key, "ghidra_install_dir") {
        Ok(ConfigChange::GhidraInstallDir(value.to_owned()))
    } else if str_eq(key, "ghidra_project_dir") {
        Ok(ConfigChange::GhidraProjectDir(value.to_owned()))
    } else if str_eq(key, "default_program") {
        Ok(ConfigChange::DefaultProgram(value.to_owned()))
    } else if str_eq(key, "default_project") {
        Ok(ConfigChange::DefaultProject(value.to_owned()))
    } else if str_eq(key, "launch_timeout_secs") {
        match parse_unsigned(value, u64::MAX) {
            Some(n) => Ok(ConfigChange::LaunchTimeoutSecs(n)),
            None => {
                Err(config_error("Invalid launch timeout value"))
            },
        }
    } else if str_eq(key, "default_limit") {
        match parse_unsigned(value, usize::MAX as u64) {
            Some(n) => Ok(ConfigChange::DefaultLimit(n as usize)),
            None => {
                Err(config_error("Invalid limit value"))
            },
        }
    } else {
        let mut m = "Unknown config key: ".to_owned();
        push_str(&mut m, key);
        Err(m)
    }
}

// ---------------------------------------------------------------------------
// `set-default`, `project info`, `setup`
// ---------------------------------------------------------------------------

/// A default `set-default` records.
#[derive(Debug)]
pub enum DefaultChange {
    Program(String),
    Project(String),
}

/// The default `set-default kind value` records: a program or a project;
/// any other kind is refused.
pub fn default_change(kind: &str, value: &str) -> (r: Result<DefaultChange, String>)
    ensures
        if kind@ == "program"@ {
            r matches Ok(DefaultChange::Program(v)) && v@ == value@
        } else if kind@ == "project"@ {
            r matches Ok(DefaultChange::Project(v)) && v@ == value@
        } else {
            r matches Err(m) && m@ == "Unknown default kind: "@ + kind@
        },
{
    if str_eq(kind, "program") {
        Ok(DefaultChange::Program(value.to_owned()))
    } else if str_eq(kind, "project") {
        Ok(DefaultChange::Project(value.to_owned()))
    } else {
        let mut m = "Unknown default kind: ".to_owned();
        push_str(&mut m, kind);
        Err(m)
    }
}

/// The project `project info` describes: the one named, else `default`.
pub fn info_project_name(name: &Option<String>) -> (r: String)
    ensures
        r@ == match opt_view(*name) {
            Some(n) => n,
            None => "default"@,
        },
{
    match name {
        Some(n) => n.clone(),
        None => "default".to_owned(),
    }
}

/// Where `setup` installs Ghidra: the directory asked for, else
/// `ghidra-cli/ghidra` under the user's local data directory (`data_dir`,
/// `None` when it cannot be determined).
pub fn install_base(dir: &Option<String>, data_dir: &Option<String>) -> (r: Result<String, String>)
    ensures
        match (opt_view(*dir), opt_view(*data_dir)) {
            (Some(d), _) => r matches Ok(p) && p@ == d,
            (None, Some(base)) => r matches Ok(p) && p@ == joined_path(
                joined_path(base, "ghidra-cli"@),
                "ghidra"@,
            ),
            (None, None) => r matches Err(m) && m@ == "Could not determine data directory"@,
        },
{
    match dir {
        Some(d) => Ok(d.clone()),
        None => match data_dir {
            Some(base) => {
                let p = join_path(base.as_str(), "ghidra-cli");
                Ok(join_path(p.as_str(), "ghidra"))
            },
            None => Err("Could not determine data directory".to_owned()),
        },
    }
}

// ---------------------------------------------------------------------------
// `import`
// ---------------------------------------------------------------------------

/// The name an imported program goes by: the one asked for, else the one
/// the bridge reports under `program`, else `unknown`.
pub open spec fn imported_name_of(requested: Option<Seq<char>>, result: JsonValue) -> Seq<char> {
    match requested {
        Some(p) => p,
        None => match str_of(member(result, "program"@)) {
            Some(n) => n,
            None => "unknown"@,
        },
    }
}

/// The name of the imported program (see [`imported_name_of`]).
pub fn imported_name(requested: &Option<String>, result: &JsonValue) -> (r: String)
    ensures
        r@ == imported_name_of(opt_view(*requested), *result),
{
    match requested {
        Some(p) => p.clone(),
        None => match result.get("program") {
            Some(JsonValue::String(n)) => n.clone(),
            _ => "unknown".to_owned(),
        },
    }
}

/// The result of `import`: `command` (`import`), `data` (an object whose
/// `analyze` is the analysis result, `null` when skipped), `program` (the
/// program's name) and `status` (`success`), in that order.
pub open spec fn import_result_shows(v: JsonValue, program: Seq<char>, analysis: JsonValue) -> bool {
    match v {
        JsonValue::Object(e) => {
            let s = e@;
            &&& s.len() == 4
            &&& s[0].0@ == "command"@ && s[0].1 is String && s[0].1->String_0@ == "import"@
            &&& s[1].0@ == "data"@ && s[1].1 is Object && s[1].1->Object_0@.len() == 1
                && s[1].1->Object_0@[0].0@ == "analyze"@ && s[1].1->Object_0@[0].1 == analysis
            &&& s[2].0@ == "program"@ && s[2].1 is String && s[2].1->String_0@ == program
            &&& s[3].0@ == "status"@ && s[3].1 is String && s[3].1->String_0@ == "success"@
        },
        _ => false,
    }
}

/// The result of `import` (see [`import_result_shows`]).
pub fn import_result(program: String, analysis: JsonValue) -> (r: JsonValue)
    ensures
        import_result_shows(r, program@, analysis),
{
    let mut data: Vec<(String, JsonValue)> = Vec::new();
    data.push(("analyze".to_owned(), analysis));
    let mut e: Vec<(String, JsonValue)> = Vec::new();
    e.push(("command".to_owned(), JsonValue::String("import".to_owned())));
    e.push(("data".to_owned(), JsonValue::Object(data)));
    e.push(("program".to_owned(), JsonValue::String(program)));
    e.push(("status".to_owned(), JsonValue::String("success".to_owned())));
    JsonValue::Object(e)
}

// ---------------------------------------------------------------------------
// Job summaries
// ---------------------------------------------------------------------------

pub open spec fn text_or(v: JsonValue, key: Seq<char>, fallback: Seq<char>) -> Seq<char> {
    match str_of(member(v, key)) {
        Some(t) => t,
        None => fallback,
    }
}

pub open spec fn count_or_zero(v: JsonValue, key: Seq<char>) -> nat {
    match member(v, key) {
        Some(x) => match spec_as_u64(x) {
            Some(n) => n as nat,
            None => 0,
        },
        None => 0,
    }
}

fn text_field<'a>(v: &'a JsonValue, key: &str, fallback: &'a str) -> (r: &'a str)
    ensures
        r@ == text_or(*v, key@, fallback@),
{
    match v.get(key) {
        Some(JsonValue::String(t)) => t.as_str(),
        _ => fallback,
    }
}

fn count_field(v: &JsonValue, key: &str) -> (r: u64)
    ensures
        r as nat == count_or_zero(*v, key@),
{
    match v.get(key) {
        Some(x) => match x.as_u64() {
            Some(n) => n,
            None => 0,
        },
        None => 0,
    }
}

/// The line that reports a cancellation request: `Job <id>: <state> -
/// <message>`, with 0, `unknown` and `Cancellation request handled` where
/// the reply lacks them.
pub fn cancel_line(result: &JsonValue) -> (r: String)
    ensures
        r@ == "Job "@ + crate::json::nat_text(count_or_zero(*result, "job_id"@)) + ": "@ + text_or(
            *result,
            "state"@,
            "unknown"@,
        ) + " - "@ + text_or(*result, "message"@, "Cancellation request handled"@),
{
    let mut out = "Job ".to_owned();
    write_nat(count_field(result, "job_id") as u128, &mut out);
    push_str(&mut out, ": ");
    push_str(&mut out, text_field(result, "state", "unknown"));
    push_str(&mut out, " - ");
    push_str(&mut out, text_field(result, "message", "Cancellation request handled"));
    out
}

/// The headline of a job listing: `Bridge: <state> (<depth> queued)`, with
/// `unknown` and 0 where the reply lacks them.
pub fn jobs_headline(jobs: &JsonValue) -> (r: String)
    ensures
        r@ == "Bridge: "@ + text_or(*jobs, "bridge_state"@, "unknown"@) + " ("@
            + crate::json::nat_text(count_or_zero(*jobs, "queue_depth"@)) + " queued)"@,
{
    let mut out = "Bridge: ".to_owned();
    push_str(&mut out, text_field(jobs, "bridge_state", "unknown"));
    push_str(&mut out, " (");
    write_nat(count_field(jobs, "queue_depth") as u128, &mut out);
    push_str(&mut out, " queued)");
    out
}

} // verus!
