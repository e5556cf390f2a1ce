//! The decisions around one bridge round trip: how to start a bridge when
//! none runs, when to restart it and retry, which program to switch to,
//! what a raw command may send, how a batch file reads and reports, and
//! which lines the final output is made of. The round trips themselves
//! (sockets, processes, files) are the caller's.
use vstd::prelude::*;
use vstd::string::*;
use crate::cli::Commands;
use crate::error::GhidraError;
use crate::format::human::compact_renderable;
use crate::format::rows::str_of;
use crate::format::{formatted, is_human_format, DefaultFormatter, OutputFormat};
use crate::json::{compact, member, push_str, str_eq, to_compact_string, JsonNumber, JsonValue};
use crate::query::pipeline::post_output;
use crate::query::planner::{opt_view, PostProc};
use crate::query::strs;
use crate::run::{
    diff_summary, diff_summary_line, is_unknown_command_error, lacks_tags, stale_tags_response,
    tag_filter_requested,
};
use crate::text::{chars_of, contains_seq, split_chars, split_on, string_from, trim, trim_chars};

verus! {

broadcast use vstd::string::group_string_axioms;

// ---------------------------------------------------------------------------
// Starting, restarting, switching programs
// ---------------------------------------------------------------------------

/// How a bridge is launched when none runs: on a program, or on the
/// project alone.
#[derive(Debug)]
pub enum StartMode {
    Process(String),
    Project,
}

/// The program a new bridge opens: the one asked for, else the configured
/// default; `None` for project mode.
pub open spec fn start_program(requested: Option<Seq<char>>, default_program: Option<Seq<char>>) -> Option<
    Seq<char>,
> {
    match requested {
        Some(p) => Some(p),
        None => default_program,
    }
}

/// How to launch a bridge (see [`start_program`]).
pub fn start_mode(requested: &Option<String>, default_program: &Option<String>) -> (r: StartMode)
    ensures
        match start_program(opt_view(*requested), opt_view(*default_program)) {
            Some(p) => r matches StartMode::Process(q) && q@ == p,
            None => r is Project,
        },
{
    match requested {
        Some(p) => StartMode::Process(p.clone()),
        None => match default_program {
            Some(p) => StartMode::Process(p.clone()),
            None => StartMode::Project,
        },
    }
}

/// A first attempt calls for a restart of the bridge and one retry when
/// the bridge did not know the command (an older bridge script), or when
/// it answered a tag-filtered function list without tags (it ignored the
/// filter).
pub open spec fn restart_needed(command: Commands, first: Result<JsonValue, Seq<char>>) -> bool {
    match first {
        Ok(v) => tag_filter_requested(command) && lacks_tags(v),
        Err(m) => contains_seq(m, "Unknown command:"@),
    }
}

/// Whether to restart the bridge and retry (see [`restart_needed`]);
/// `first` is the first attempt's result or error message.
pub fn needs_restart(command: &Commands, first: &Result<JsonValue, String>) -> (r: bool)
    ensures
        r == restart_needed(
            *command,
            match first {
                Ok(v) => Ok(*v),
                Err(m) => Err(m@),
            },
        ),
{
    match first {
        Ok(v) => stale_tags_response(command, v),
        Err(m) => is_unknown_command_error(m.as_str()),
    }
}

/// The program to open before running a command: the requested one, when
/// the bridge's current program (the `name` in its program info) is
/// another, or when the program info could not be had (`None`).
pub open spec fn program_switch(requested: Option<Seq<char>>, info: Option<JsonValue>) -> Option<
    Seq<char>,
> {
    match requested {
        None => None,
        Some(p) => match info {
            Some(v) => if (match str_of(member(v, "name"@)) {
                Some(n) => n,
                None => seq![],
            }) == p {
                None
            } else {
                Some(p)
            },
            None => Some(p),
        },
    }
}

/// Which program to open, if any (see [`program_switch`]); `info` is the
/// bridge's program info, or `None` when asking for it failed.
pub fn program_to_open(requested: &Option<String>, info: &Option<JsonValue>) -> (r: Option<String>)
    ensures
        opt_view(r) == program_switch(opt_view(*requested), *info),
{
    match requested {
        None => {
            assert(program_switch(opt_view(*requested), *info) is None);
            None
        },
        Some(p) => match info {
            Some(v) => {
                proof {
                    reveal_strlit("");
                }
                let current: &str = match v.get("name") {
                    Some(JsonValue::String(n)) => n.as_str(),
                    _ => "",
                };
                assert(current@ == match str_of(member(*v, "name"@)) {
                    Some(n) => n,
                    None => seq![],
                });
                if str_eq(current, p.as_str()) {
                    None
                } else {
                    Some(p.clone())
                }
            },
            None => Some(p.clone()),
        },
    }
}

// ---------------------------------------------------------------------------
// Raw commands
// ---------------------------------------------------------------------------

/// The arguments of a raw command must be a JSON object.
pub open spec fn raw_args_check(payload: JsonValue) -> Result<JsonValue, Seq<char>> {
    if payload is Object {
        Ok(payload)
    } else {
        Err("raw command args must be a JSON object, got "@ + compact(payload))
    }
}

/// Accepts the parsed arguments of a raw command when they form a JSON
/// object; otherwise the error names what was given.
pub fn raw_payload(payload: JsonValue) -> (r: Result<JsonValue, String>)
    ensures
        match raw_args_check(payload) {
            Ok(v) => r == Ok::<JsonValue, String>(v),
            Err(m) => r matches Err(e) && e@ == m,
        },
{
    match payload {
        JsonValue::Object(_) => Ok(payload),
        _ => {
            let mut m = "raw command args must be a JSON object, got ".to_owned();
            let shown = to_compact_string(&payload);
            push_str(&mut m, shown.as_str());
            Err(m)
        },
    }
}

// ---------------------------------------------------------------------------
// Batch files
// ---------------------------------------------------------------------------

/// The commands of a batch file: its lines, trimmed, without blank lines
/// and `#` comments.
pub open spec fn batch_commands_of(lines: Seq<Seq<char>>) -> Seq<Seq<char>>
    decreases lines.len(),
{
    if lines.len() == 0 {
        seq![]
    } else {
        let r = batch_commands_of(lines.drop_last());
        let t = trim(lines.last());
        if t.len() > 0 && t[0] != '#' {
            r.push(t)
        } else {
            r
        }
    }
}

/// The commands of a batch file's text (see [`batch_commands_of`]).
pub fn batch_commands(content: &str) -> (r: Vec<String>)
    ensures
        strs(r@) == batch_commands_of(split_on(content@, '\n')),
{
    let cs = chars_of(content);
    let lines = split_chars(&cs, '\n');
    let ghost views = lines@.map_values(|p: Vec<char>| p@);
    let mut out: Vec<String> = Vec::new();
    let mut i: usize = 0;
    while i < lines.len()
        invariant
            0 <= i <= lines.len(),
            views == lines@.map_values(|p: Vec<char>| p@),
            views == split_on(content@, '\n'),
            strs(out@) == batch_commands_of(views.take(i as int)),
        decreases lines.len() - i,
    {
        proof {
            assert(views.take(i + 1).drop_last() =~= views.take(i as int));
            assert(views.take(i + 1).last() == lines@[i as int]@);
        }
        let t = trim_chars(&lines[i]);
        if t.len() > 0 && t[0] != '#' {
            let s = string_from(&t);
            let ghost pre = out@;
            out.push(s);
            assert(strs(out@) =~= strs(pre).push(s@));
        }
        i = i + 1;
    }
    assert(views.take(lines.len() as int) =~= views);
    out
}

/// A batch run's outcome for one command: its result, or its error.
pub open spec fn batch_entry_shows(v: JsonValue, command: Seq<char>, outcome: Result<JsonValue, Seq<char>>) -> bool {
    match v {
        JsonValue::Object(e) => {
            let s = e@;
            &&& s.len() == 2
            &&& s[0].0@ == "command"@ && s[0].1 is String && s[0].1->String_0@ == command
            &&& match outcome {
                Ok(x) => s[1].0@ == "result"@ && s[1].1 == x,
                Err(m) => s[1].0@ == "error"@ && s[1].1 is String && s[1].1->String_0@ == m,
            }
        },
        _ => false,
    }
}

/// The report of a batch run: `commands_parsed`, the number of commands,
/// and `results`, one entry per command in order.
pub open spec fn batch_report_shows(
    v: JsonValue,
    commands: Seq<Seq<char>>,
    outcomes: Seq<Result<JsonValue, Seq<char>>>,
) -> bool {
    match v {
        JsonValue::Object(e) => {
            let s = e@;
            &&& s.len() == 2
            &&& s[0].0@ == "commands_parsed"@ && s[0].1 == JsonValue::Number(
                JsonNumber::Int(commands.len() as i128),
            )
            &&& s[1].0@ == "results"@ && s[1].1 is Array
            &&& s[1].1->Array_0@.len() == commands.len()
            &&& forall|i: int|
                0 <= i < commands.len() ==> batch_entry_shows(
                    #[trigger] s[1].1->Array_0@[i],
                    commands[i],
                    outcomes[i],
                )
        },
        _ => false,
    }
}

pub open spec fn outcomes_view(o: Seq<Result<JsonValue, String>>) -> Seq<Result<JsonValue, Seq<char>>> {
    o.map_values(
        |r: Result<JsonValue, String>|
            match r {
                Ok(v) => Ok(v),
                Err(m) => Err(m@),
            },
    )
}

/// The report of a batch run from its commands and their outcomes (see
/// [`batch_report_shows`]).
pub fn batch_report(commands: &Vec<String>, outcomes: Vec<Result<JsonValue, String>>) -> (r: JsonValue)
    requires
        commands.len() == outcomes.len(),
        commands.len() <= i128::MAX,
    ensures
        batch_report_shows(r, strs(commands@), outcomes_view(outcomes@)),
{
    let ghost ov = outcomes_view(outcomes@);
    let ghost n = outcomes.len();
    let mut rest = outcomes;
    let mut items: Vec<JsonValue> = Vec::new();
    let mut i: usize = 0;
    let ghost all = rest@;
    while i < commands.len()
        invariant
            commands.len() == n,
            0 <= i <= n,
            all.len() == n,
            ov == outcomes_view(all),
            rest@ == all.skip(i as int),
            items.len() == i,
            forall|j: int|
                0 <= j < i ==> batch_entry_shows(
                    #[trigger] items@[j],
                    strs(commands@)[j],
                    ov[j],
                ),
        decreases n - i,
    {
        let ghost pre = rest@;
        let o = rest.remove(0);
        assert(o == all[i as int]);
        assert(rest@ =~= all.skip(i + 1));
        let mut e: Vec<(String, JsonValue)> = Vec::new();
        e.push(("command".to_owned(), JsonValue::String(commands[i].clone())));
        match o {
            Ok(v) => {
                e.push(("result".to_owned(), v));
            },
            Err(m) => {
                e.push(("error".to_owned(), JsonValue::String(m)));
            },
        }
        items.push(JsonValue::Object(e));
        i = i + 1;
    }
    let mut top: Vec<(String, JsonValue)> = Vec::new();
    top.push(("commands_parsed".to_owned(), JsonValue::Number(JsonNumber::Int(commands.len() as i128))));
    top.push(("results".to_owned(), JsonValue::Array(items)));
    JsonValue::Object(top)
}

// ---------------------------------------------------------------------------
// Output
// ---------------------------------------------------------------------------

/// The one-line context printed above `diff programs` rows: only for
/// results of the `diff_programs` bridge command (see [`diff_summary`]).
pub open spec fn diff_header_of(last_command: Option<Seq<char>>, result: JsonValue, similarity: Option<Seq<char>>) -> Option<
    Seq<char>,
> {
    if last_command == Some("diff_programs"@) {
        diff_summary(result, similarity)
    } else {
        None
    }
}

/// The context line above `diff programs` rows, if any (see
/// [`diff_header_of`]).
pub fn diff_header(last_command: &Option<String>, result: &JsonValue, similarity: Option<&str>) -> (r: Option<String>)
    ensures
        opt_view(r) == diff_header_of(opt_view(*last_command), *result, crate::cli::str_opt(similarity)),
{
    match last_command {
        Some(c) => if str_eq(c.as_str(), "diff_programs") {
            diff_summary_line(result, similarity)
        } else {
            None
        },
        None => None,
    }
}

/// The lines printed for a rendered output: nothing for an empty output;
/// else the header first when there is one and the format is for people.
pub open spec fn printed(output: Seq<char>, header: Option<Seq<char>>, format: OutputFormat) -> Seq<Seq<char>> {
    if output.len() == 0 {
        seq![]
    } else {
        match header {
            Some(h) => if is_human_format_spec(format) {
                seq![h, output]
            } else {
                seq![output]
            },
            None => seq![output],
        }
    }
}

/// The formats meant for people rather than programs.
pub open spec fn is_human_format_spec(format: OutputFormat) -> bool {
    match format {
        OutputFormat::Table | OutputFormat::Compact | OutputFormat::Full | OutputFormat::Minimal => true,
        _ => false,
    }
}

fn lines_for(output: String, header: Option<String>, format: OutputFormat) -> (r: Vec<String>)
    ensures
        strs(r@) == printed(output@, opt_view(header), format),
{
    let mut r: Vec<String> = Vec::new();
    if output.as_str().unicode_len() == 0 {
        assert(strs(r@) =~= seq![]);
        return r;
    }
    match header {
        Some(h) => if is_human_format(format) {
            r.push(h);
        },
        None => {},
    }
    r.push(output);
    assert(strs(r@) =~= printed(output@, opt_view(header), format));
    r
}

/// The lines a command prints for the rows it shows (the plan's selection
/// when it has post-processing, else the unwrapped rows): the output of
/// the post-processing step when there is one, else the rows formatted;
/// then laid out as [`printed`] says.
pub fn output_lines(shown: &[JsonValue], header: Option<String>, post: &Option<PostProc>, format: OutputFormat) -> (r:
    Result<Vec<String>, GhidraError>)
    requires
        !(post matches Some(p) && p.count_only) && format == OutputFormat::Compact ==> compact_renderable(
            shown@,
        ),
    ensures
        match (match post {
            Some(p) => post_output(*p, shown@, format),
            None => formatted(shown@, format),
        }) {
            Some(s) => r matches Ok(ls) && strs(ls@) == printed(s, opt_view(header), format),
            None => r matches Err(e) && e is InvalidFormat,
        },
{
    let out = match post {
        Some(p) => p.render(shown, format),
        None => DefaultFormatter.format(shown, format),
    };
    match out {
        Ok(s) => Ok(lines_for(s, header, format)),
        Err(e) => Err(e),
    }
}


/// The commands of a batch file are its lines, each trimmed, keeping in
/// their order exactly those that are not blank and do not start with `#`.
pub proof fn law_batch_keeps_command_lines(lines: Seq<Seq<char>>)
    ensures
        batch_commands_of(lines) == lines.map_values(|l: Seq<char>| trim(l)).filter(
            |t: Seq<char>| t.len() > 0 && t[0] != '#',
        ),
    decreases lines.len(),
{
    reveal(Seq::filter);
    let f = |l: Seq<char>| trim(l);
    let keep = |t: Seq<char>| t.len() > 0 && t[0] != '#';
    if lines.len() == 0 {
        assert(lines.map_values(f) =~= Seq::<Seq<char>>::empty());
    } else {
        law_batch_keeps_command_lines(lines.drop_last());
        let m = lines.map_values(f);
        assert(m.drop_last() =~= lines.drop_last().map_values(f));
        assert(m.last() == trim(lines.last()));
        assert(m.filter(keep) == if keep(m.last()) {
            m.drop_last().filter(keep).push(m.last())
        } else {
            m.drop_last().filter(keep)
        });
    }
}

} // verus!
