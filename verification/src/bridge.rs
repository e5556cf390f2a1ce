//! What each bridge command asks of the bridge: the command name and its
//! named arguments, or one of the commands that take several steps (raw
//! commands, scripts run from files, batch files, program diffs, analysis).
//! Arguments are listed in ascending key order, as a JSON object keeps them.
use vstd::prelude::*;
use vstd::string::*;
use crate::cli::{
    CommentCommands, Commands, DiffCommands, DumpCommands, FindCommands, FunctionCommands,
    GraphCommands, MemoryCommands, PatchCommands, ProgramCommands, ScriptCommands,
    StringsCommands, SymbolCommands, TagCommands, TargetArgs, TypeCommands, XRefCommands,
};
use crate::json::{push_str, str_eq};
use crate::query::planner::{opt_view, FetchParams};
use crate::query::strs;
use crate::text::{all_digits, chars_of, digits_value, digits_value_capped, slice_chars, string_from};

verus! {

broadcast use vstd::string::group_string_axioms;

/// The value of one named argument of a bridge request.
#[derive(Debug)]
pub enum BridgeArg {
    Text(String),
    Int(i128),
    Flag(bool),
    Null,
    Texts(Vec<String>),
}

/// The mathematical content of a [`BridgeArg`].
pub enum ArgM {
    Text(Seq<char>),
    Int(int),
    Flag(bool),
    Null,
    Texts(Seq<Seq<char>>),
}

impl View for BridgeArg {
    type V = ArgM;

    open spec fn view(&self) -> ArgM {
        match self {
            BridgeArg::Text(s) => ArgM::Text(s@),
            BridgeArg::Int(i) => ArgM::Int(*i as int),
            BridgeArg::Flag(b) => ArgM::Flag(*b),
            BridgeArg::Null => ArgM::Null,
            BridgeArg::Texts(v) => ArgM::Texts(strs(v@)),
        }
    }
}

/// A bridge command with its named arguments.
#[derive(Debug)]
pub struct BridgeRequest {
    pub command: String,
    pub args: Vec<(String, BridgeArg)>,
}

/// The mathematical content of a [`BridgeRequest`].
pub struct RequestM {
    pub command: Seq<char>,
    pub args: Seq<(Seq<char>, ArgM)>,
}

pub open spec fn args_view(a: Seq<(String, BridgeArg)>) -> Seq<(Seq<char>, ArgM)> {
    a.map_values(|p: (String, BridgeArg)| (p.0@, p.1@))
}

impl View for BridgeRequest {
    type V = RequestM;

    open spec fn view(&self) -> RequestM {
        RequestM { command: self.command@, args: args_view(self.args@) }
    }
}

/// What a command asks of the bridge.
#[derive(Debug)]
pub enum Dispatch {
    /// One request; its reply is the command's result.
    Send(BridgeRequest),
    /// Full analysis of the current program, reported in an envelope.
    Analyze,
    /// A command of the user's choosing with a JSON object of arguments
    /// (still text here), sent without a reply deadline.
    Raw { command: String, json_args: String },
    /// A script file run with arguments and output expectations: each
    /// expectation is a path (to be made absolute) and an optional row
    /// minimum. The script path is to be made canonical where it exists.
    ScriptRun {
        script_path: String,
        args: Vec<String>,
        expect: Vec<(String, Option<u64>)>,
        allow_empty: bool,
    },
    /// The commands of a batch file, each run in turn.
    Batch { script_file: String },
    /// A BinDiff comparison of two programs.
    DiffPrograms,
}

/// The mathematical content of a [`Dispatch`].
pub enum DispatchM {
    Send(RequestM),
    Analyze,
    Raw(Seq<char>, Seq<char>),
    ScriptRun(Seq<char>, Seq<Seq<char>>, Seq<(Seq<char>, Option<u64>)>, bool),
    Batch(Seq<char>),
    DiffPrograms,
}

pub open spec fn expect_view(v: Seq<(String, Option<u64>)>) -> Seq<(Seq<char>, Option<u64>)> {
    v.map_values(|p: (String, Option<u64>)| (p.0@, p.1))
}

impl View for Dispatch {
    type V = DispatchM;

    open spec fn view(&self) -> DispatchM {
        match self {
            Dispatch::Send(r) => DispatchM::Send(r@),
            Dispatch::Analyze => DispatchM::Analyze,
            Dispatch::Raw { command, json_args } => DispatchM::Raw(command@, json_args@),
            Dispatch::ScriptRun { script_path, args, expect, allow_empty } => DispatchM::ScriptRun(
                script_path@,
                strs(args@),
                expect_view(expect@),
                *allow_empty,
            ),
            Dispatch::Batch { script_file } => DispatchM::Batch(script_file@),
            Dispatch::DiffPrograms => DispatchM::DiffPrograms,
        }
    }
}

/// The content of a dispatch outcome; an error is its message.
pub open spec fn outcome_view(r: Result<Dispatch, String>) -> Result<DispatchM, Seq<char>> {
    match r {
        Ok(d) => Ok(d@),
        Err(e) => Err(e@),
    }
}

pub open spec fn call(command: Seq<char>, args: Seq<(Seq<char>, ArgM)>) -> DispatchM {
    DispatchM::Send(RequestM { command, args })
}

pub open spec fn opt_text_m(o: Option<Seq<char>>) -> ArgM {
    match o {
        Some(s) => ArgM::Text(s),
        None => ArgM::Null,
    }
}

pub open spec fn opt_int_m(o: Option<usize>) -> ArgM {
    match o {
        Some(n) => ArgM::Int(n as int),
        None => ArgM::Null,
    }
}

pub open spec fn opt_i32_m(o: Option<i32>) -> ArgM {
    match o {
        Some(n) => ArgM::Int(n as int),
        None => ArgM::Null,
    }
}

/// The target a [`TargetArgs`] names: `--target`, else the positional one.
pub open spec fn target_text(t: TargetArgs) -> Seq<char> {
    match t.target {
        Some(s) => s@,
        None => t.positional_target->0@,
    }
}

/// A target is given.
pub open spec fn has_target(t: TargetArgs) -> bool {
    t.target is Some || t.positional_target is Some
}

pub open spec fn unsupported() -> Seq<char> {
    "Command not supported"@
}

fn text(s: &str) -> (r: BridgeArg)
    ensures
        r@ == ArgM::Text(s@),
{
    BridgeArg::Text(s.to_owned())
}

fn opt_text(o: &Option<String>) -> (r: BridgeArg)
    ensures
        r@ == opt_text_m(opt_view(*o)),
{
    match o {
        Some(s) => BridgeArg::Text(s.clone()),
        None => BridgeArg::Null,
    }
}

fn num(n: i128) -> (r: BridgeArg)
    ensures
        r@ == ArgM::Int(n as int),
{
    BridgeArg::Int(n)
}

fn count(n: usize) -> (r: BridgeArg)
    ensures
        r@ == ArgM::Int(n as int),
{
    BridgeArg::Int(n as i128)
}

fn opt_num(o: Option<usize>) -> (r: BridgeArg)
    ensures
        r@ == opt_int_m(o),
{
    match o {
        Some(n) => BridgeArg::Int(n as i128),
        None => BridgeArg::Null,
    }
}

fn opt_i32(o: Option<i32>) -> (r: BridgeArg)
    ensures
        r@ == opt_i32_m(o),
{
    match o {
        Some(n) => BridgeArg::Int(n as i128),
        None => BridgeArg::Null,
    }
}

fn copy_texts(v: &Vec<String>) -> (r: Vec<String>)
    ensures
        strs(r@) == strs(v@),
{
    let mut out: Vec<String> = Vec::new();
    let mut i: usize = 0;
    while i < v.len()
        invariant
            0 <= i <= v.len(),
            out.len() == i,
            forall|j: int| 0 <= j < i ==> (#[trigger] out@[j])@ == v@[j]@,
        decreases v.len() - i,
    {
        let s = v[i].clone();
        out.push(s);
        i = i + 1;
    }
    assert(strs(out@) =~= strs(v@));
    out
}

fn texts(v: &Vec<String>) -> (r: BridgeArg)
    ensures
        r@ == ArgM::Texts(strs(v@)),
{
    BridgeArg::Texts(copy_texts(v))
}

/// `a`, else `b` (`Option::or`).
pub open spec fn either(a: Option<usize>, b: Option<usize>) -> Option<usize> {
    match a {
        Some(x) => Some(x),
        None => b,
    }
}

fn first_of(a: Option<usize>, b: Option<usize>) -> (r: Option<usize>)
    ensures
        r == either(a, b),
{
    match a {
        Some(x) => Some(x),
        None => b,
    }
}

/// `find instruction` keeps its own default of 100 matches (`0`: all).
pub open spec fn instruction_cap(limit: Option<usize>) -> int {
    match limit {
        Some(l) => l as int,
        None => 100,
    }
}

fn instruction_limit(limit: Option<usize>) -> (r: BridgeArg)
    ensures
        r@ == ArgM::Int(instruction_cap(limit)),
{
    match limit {
        Some(l) => BridgeArg::Int(l as i128),
        None => BridgeArg::Int(100),
    }
}

fn no_texts() -> (r: BridgeArg)
    ensures
        r@ == ArgM::Texts(seq![]),
{
    let v: Vec<String> = Vec::new();
    assert(strs(v@) =~= seq![]);
    BridgeArg::Texts(v)
}

fn unsupported_error() -> (r: String)
    ensures
        r@ == unsupported(),
{
    "Command not supported".to_owned()
}

fn request0(command: &str) -> (r: Dispatch)
    ensures
        r@ == call(command@, seq![]),
{
    let mut args: Vec<(String, BridgeArg)> = Vec::new();
    assert(args_view(args@) =~= seq![]);
    Dispatch::Send(BridgeRequest { command: command.to_owned(), args })
}

fn request1(
    command: &str,
    k0: &str,
    v0: BridgeArg,
) -> (r: Dispatch)
    ensures
        r@ == call(command@, seq![(k0@, v0@)]),
{
    let mut args: Vec<(String, BridgeArg)> = Vec::new();
    args.push((k0.to_owned(), v0));
    assert(args_view(args@) =~= seq![(k0@, v0@)]);
    Dispatch::Send(BridgeRequest { command: command.to_owned(), args })
}

fn request2(
    command: &str,
    k0: &str,
    v0: BridgeArg,
    k1: &str,
    v1: BridgeArg,
) -> (r: Dispatch)
    ensures
        r@ == call(command@, seq![(k0@, v0@), (k1@, v1@)]),
{
    let mut args: Vec<(String, BridgeArg)> = Vec::new();
    args.push((k0.to_owned(), v0));
    args.push((k1.to_owned(), v1));
    assert(args_view(args@) =~= seq![(k0@, v0@), (k1@, v1@)]);
    Dispatch::Send(BridgeRequest { command: command.to_owned(), args })
}

fn request3(
    command: &str,
    k0: &str,
    v0: BridgeArg,
    k1: &str,
    v1: BridgeArg,
    k2: &str,
    v2: BridgeArg,
) -> (r: Dispatch)
    ensures
        r@ == call(command@, seq![(k0@, v0@), (k1@, v1@), (k2@, v2@)]),
{
    let mut args: Vec<(String, BridgeArg)> = Vec::new();
    args.push((k0.to_owned(), v0));
    args.push((k1.to_owned(), v1));
    args.push((k2.to_owned(), v2));
    assert(args_view(args@) =~= seq![(k0@, v0@), (k1@, v1@), (k2@, v2@)]);
    Dispatch::Send(BridgeRequest { command: command.to_owned(), args })
}

fn request4(
    command: &str,
    k0: &str,
    v0: BridgeArg,
    k1: &str,
    v1: BridgeArg,
    k2: &str,
    v2: BridgeArg,
    k3: &str,
    v3: BridgeArg,
) -> (r: Dispatch)
    ensures
        r@ == call(command@, seq![(k0@, v0@), (k1@, v1@), (k2@, v2@), (k3@, v3@)]),
{
    let mut args: Vec<(String, BridgeArg)> = Vec::new();
    args.push((k0.to_owned(), v0));
    args.push((k1.to_owned(), v1));
    args.push((k2.to_owned(), v2));
    args.push((k3.to_owned(), v3));
    assert(args_view(args@) =~= seq![(k0@, v0@), (k1@, v1@), (k2@, v2@), (k3@, v3@)]);
    Dispatch::Send(BridgeRequest { command: command.to_owned(), args })
}

fn request5(
    command: &str,
    k0: &str,
    v0: BridgeArg,
    k1: &str,
    v1: BridgeArg,
    k2: &str,
    v2: BridgeArg,
    k3: &str,
    v3: BridgeArg,
    k4: &str,
    v4: BridgeArg,
) -> (r: Dispatch)
    ensures
        r@ == call(command@, seq![(k0@, v0@), (k1@, v1@), (k2@, v2@), (k3@, v3@), (k4@, v4@)]),
{
    let mut args: Vec<(String, BridgeArg)> = Vec::new();
    args.push((k0.to_owned(), v0));
    args.push((k1.to_owned(), v1));
    args.push((k2.to_owned(), v2));
    args.push((k3.to_owned(), v3));
    args.push((k4.to_owned(), v4));
    assert(args_view(args@) =~= seq![(k0@, v0@), (k1@, v1@), (k2@, v2@), (k3@, v3@), (k4@, v4@)]);
    Dispatch::Send(BridgeRequest { command: command.to_owned(), args })
}

/// Every target the command needs is given (the argument parser sees to
/// it).
pub open spec fn targets_given(c: Commands) -> bool {
    match c {
        Commands::Decompile(args) => has_target(args.target),
        Commands::Function(FunctionCommands::Decompile(args)) => has_target(args.target),
        Commands::Function(FunctionCommands::Get(args)) => has_target(args.target),
        Commands::Function(FunctionCommands::Disasm(args)) => has_target(args.target),
        Commands::Function(FunctionCommands::Calls(args)) => has_target(args.target),
        Commands::Function(FunctionCommands::XRefs(args)) => has_target(args.target),
        Commands::Function(FunctionCommands::Delete(args)) => has_target(args.target),
        Commands::Function(FunctionCommands::SetSignature(args)) => has_target(args.target),
        Commands::Function(FunctionCommands::SetReturnType(args)) => has_target(args.target),
        Commands::Function(FunctionCommands::SetCallingConvention(args)) => has_target(args.target),
        Commands::Function(FunctionCommands::SetVarType(args)) => has_target(args.target),
        Commands::Disasm(args) => has_target(args.target),
        Commands::XRef(XRefCommands::To(args)) => has_target(args.target),
        Commands::XRef(XRefCommands::From(args)) => has_target(args.target),
        Commands::XRef(XRefCommands::List(args)) => has_target(args.target),
        Commands::Graph(GraphCommands::Callers(args)) => has_target(args.target),
        Commands::Graph(GraphCommands::Callees(args)) => has_target(args.target),
        Commands::Find(FindCommands::Calls(args)) => has_target(args.target),
        _ => true,
    }
}

fn target_given(t: &TargetArgs) -> (r: bool)
    ensures
        r == has_target(*t),
{
    t.target.is_some() || t.positional_target.is_some()
}

/// Whether every target the command needs is given (see [`targets_given`]).
pub fn targets_present(c: &Commands) -> (r: bool)
    ensures
        r == targets_given(*c),
{
    match c {
        Commands::Decompile(args) => target_given(&args.target),
        Commands::Function(FunctionCommands::Decompile(args)) => target_given(&args.target),
        Commands::Function(FunctionCommands::Get(args)) => target_given(&args.target),
        Commands::Function(FunctionCommands::Disasm(args)) => target_given(&args.target),
        Commands::Function(FunctionCommands::Calls(args)) => target_given(&args.target),
        Commands::Function(FunctionCommands::XRefs(args)) => target_given(&args.target),
        Commands::Function(FunctionCommands::Delete(args)) => target_given(&args.target),
        Commands::Function(FunctionCommands::SetSignature(args)) => target_given(&args.target),
        Commands::Function(FunctionCommands::SetReturnType(args)) => target_given(&args.target),
        Commands::Function(FunctionCommands::SetCallingConvention(args)) => target_given(&args.target),
        Commands::Function(FunctionCommands::SetVarType(args)) => target_given(&args.target),
        Commands::Disasm(args) => target_given(&args.target),
        Commands::XRef(XRefCommands::To(args)) => target_given(&args.target),
        Commands::XRef(XRefCommands::From(args)) => target_given(&args.target),
        Commands::XRef(XRefCommands::List(args)) => target_given(&args.target),
        Commands::Graph(GraphCommands::Callers(args)) => target_given(&args.target),
        Commands::Graph(GraphCommands::Callees(args)) => target_given(&args.target),
        Commands::Find(FindCommands::Calls(args)) => target_given(&args.target),
        _ => true,
    }
}

/// The index of the last `c` in `s`, `-1` when there is none.
pub open spec fn last_index(s: Seq<char>, c: char) -> int
    decreases s.len(),
{
    if s.len() == 0 {
        -1
    } else if s.last() == c {
        s.len() - 1
    } else {
        last_index(s.drop_last(), c)
    }
}

/// A `--expect` spec, `PATH` or `PATH:MIN_ROWS`: a trailing `:` and digits
/// give the row minimum (none when it exceeds `u64`), anything else (such as
/// a drive letter) stays part of the path.
pub open spec fn expect_parts(s: Seq<char>) -> (Seq<char>, Option<u64>) {
    let i = last_index(s, ':');
    if i >= 0 && all_digits(s.skip(i + 1)) {
        (
            s.take(i),
            if digits_value(s.skip(i + 1)) <= u64::MAX {
                Some(digits_value(s.skip(i + 1)) as u64)
            } else {
                None
            },
        )
    } else {
        (s, None)
    }
}

proof fn lemma_last_index(s: Seq<char>, c: char)
    ensures
        -1 <= last_index(s, c) < s.len(),
        last_index(s, c) >= 0 ==> s[last_index(s, c)] == c,
        forall|j: int| last_index(s, c) < j < s.len() ==> s[j] != c,
    decreases s.len(),
{
    if s.len() > 0 && s.last() != c {
        let t = s.drop_last();
        lemma_last_index(t, c);
        assert forall|j: int| last_index(s, c) < j < s.len() implies s[j] != c by {
            if j < t.len() {
                assert(t[j] == s[j]);
            }
        }
    }
}

/// Splits a `--expect` spec into its path and row minimum (see
/// [`expect_parts`]).
pub fn parse_expect_spec(spec: &str) -> (r: (String, Option<u64>))
    ensures
        (r.0@, r.1) == expect_parts(spec@),
{
    let cs = chars_of(spec);
    let mut i: usize = cs.len();
    proof {
        lemma_last_index(cs@, ':');
    }
    while i > 0
        invariant
            i <= cs.len(),
            cs@ == spec@,
            forall|j: int| i <= j < cs.len() ==> cs@[j] != ':',
            -1 <= last_index(cs@, ':') < cs.len(),
            last_index(cs@, ':') >= 0 ==> cs@[last_index(cs@, ':')] == ':',
            forall|j: int| last_index(cs@, ':') < j < cs.len() ==> cs@[j] != ':',
        ensures
            i <= cs.len(),
            forall|j: int| i <= j < cs.len() ==> cs@[j] != ':',
            i == 0 || cs@[i - 1] == ':',
        decreases i,
    {
        if cs[i - 1] == ':' {
            break;
        }
        i = i - 1;
    }
    if i == 0 {
        assert(last_index(cs@, ':') < 0);
        return (spec.to_owned(), None);
    }
    let at = i - 1;
    assert(last_index(cs@, ':') == at);
    let tail = slice_chars(&cs, at + 1, cs.len());
    assert(tail@ =~= cs@.skip(at + 1));
    let head = slice_chars(&cs, 0, at);
    assert(head@ =~= cs@.take(at as int));
    if tail.len() == 0 {
        return (spec.to_owned(), None);
    }
    let mut digits = true;
    let mut k: usize = 0;
    while k < tail.len()
        invariant
            0 <= k <= tail.len(),
            digits <==> forall|j: int| 0 <= j < k ==> crate::text::is_digit(#[trigger] tail@[j]),
        decreases tail.len() - k,
    {
        if !('0' <= tail[k] && tail[k] <= '9') {
            digits = false;
        }
        k = k + 1;
    }
    if !digits {
        return (spec.to_owned(), None);
    }
    let n = digits_value_capped(&tail, u64::MAX);
    (string_from(&head), n)
}

pub open spec fn query_dispatch_of(data_type: Seq<char>, fetch: FetchParams) -> Result<DispatchM, Seq<char>> {
    if data_type == "functions"@ {
        Ok(call(
                "list_functions"@,
                seq![
                    ("filter"@, opt_text_m(opt_view(fetch.filter))),
                    ("limit"@, opt_int_m(fetch.limit)),
                    ("offset"@, opt_int_m(fetch.offset)),
                    ("tags"@, ArgM::Texts(seq![])),
                    ("untagged"@, ArgM::Flag(false)),
                ],
            ))
    } else if data_type == "strings"@ {
        Ok(call(
                "list_strings"@,
                seq![
                    ("filter"@, opt_text_m(opt_view(fetch.filter))),
                    ("limit"@, opt_int_m(fetch.limit)),
                    ("offset"@, opt_int_m(fetch.offset)),
                ],
            ))
    } else if data_type == "imports"@ {
        Ok(call("list_imports"@, seq![]))
    } else if data_type == "exports"@ {
        Ok(call("list_exports"@, seq![]))
    } else if data_type == "memory"@ {
        Ok(call("memory_map"@, seq![]))
    } else {
        Err("Query type '"@ + data_type + "' not supported"@)
    }
}

fn query_dispatch(data_type: &str, fetch: &FetchParams) -> (r: Result<Dispatch, String>)
    ensures
        outcome_view(r) == query_dispatch_of(data_type@, *fetch),
{
    if str_eq(data_type, "functions") {
        Ok(request5(
                "list_functions",
                "filter",
                opt_text(&fetch.filter),
                "limit",
                opt_num(fetch.limit),
                "offset",
                opt_num(fetch.offset),
                "tags",
                no_texts(),
                "untagged",
                BridgeArg::Flag(false),
            ))
    } else if str_eq(data_type, "strings") {
        Ok(request3(
                "list_strings",
                "filter",
                opt_text(&fetch.filter),
                "limit",
                opt_num(fetch.limit),
                "offset",
                opt_num(fetch.offset),
            ))
    } else if str_eq(data_type, "imports") {
        Ok(request0("list_imports"))
    } else if str_eq(data_type, "exports") {
        Ok(request0("list_exports"))
    } else if str_eq(data_type, "memory") {
        Ok(request0("memory_map"))
    } else {
        let mut m = "Query type '".to_owned();
        push_str(&mut m, data_type);
        push_str(&mut m, "' not supported");
        Err(m)
    }
}

fn expect_list(specs: &Vec<String>) -> (r: Vec<(String, Option<u64>)>)
    ensures
        expect_view(r@) == specs@.map_values(|e: String| expect_parts(e@)),
{
    let mut out: Vec<(String, Option<u64>)> = Vec::new();
    let mut i: usize = 0;
    while i < specs.len()
        invariant
            0 <= i <= specs.len(),
            expect_view(out@) == specs@.take(i as int).map_values(|e: String| expect_parts(e@)),
        decreases specs.len() - i,
    {
        let ghost prev = expect_view(out@);
        let p = parse_expect_spec(specs[i].as_str());
        out.push(p);
        proof {
            assert(expect_view(out@) =~= prev.push((p.0@, p.1)));
            assert(specs@.take(i + 1) =~= specs@.take(i as int).push(specs@[i as int]));
        }
        i = i + 1;
        assert(expect_view(out@) =~= specs@.take(i as int).map_values(|e: String| expect_parts(e@)));
    }
    assert(specs@.take(specs.len() as int) =~= specs@);
    out
}

/// Function views: decompiling, disassembling, listing and editing functions.
pub open spec fn functions_dispatch_of(c: Commands, fetch: FetchParams, default_limit: Option<usize>) -> Result<
    DispatchM,
    Seq<char>,
> {
    match c {
        Commands::Decompile(args) => Ok(call(
            "decompile"@,
            seq![
                ("address"@, ArgM::Text(target_text(args.target))),
                ("with_params"@, ArgM::Flag(args.with_params)),
                ("with_vars"@, ArgM::Flag(args.with_vars)),
            ],
        )),
        Commands::DecompileMulti(args) => Ok(call(
            "decompile_multi"@,
            seq![
                ("addresses"@, ArgM::Texts(strs(args.targets@))),
            ],
        )),
        Commands::Function(FunctionCommands::List(args)) => Ok(call(
            "list_functions"@,
            seq![
                ("filter"@, opt_text_m(opt_view(fetch.filter))),
                ("limit"@, opt_int_m(fetch.limit)),
                ("offset"@, opt_int_m(fetch.offset)),
                ("tags"@, ArgM::Texts(strs(args.tags@))),
                ("untagged"@, ArgM::Flag(args.untagged)),
            ],
        )),
        Commands::Function(FunctionCommands::Decompile(args)) => Ok(call(
            "decompile"@,
            seq![
                ("address"@, ArgM::Text(target_text(args.target))),
                ("with_params"@, ArgM::Flag(args.with_params)),
                ("with_vars"@, ArgM::Flag(args.with_vars)),
            ],
        )),
        Commands::Function(FunctionCommands::Get(args)) => Ok(call(
            "get_function"@,
            seq![
                ("address"@, ArgM::Text(target_text(args.target))),
            ],
        )),
        Commands::Function(FunctionCommands::Disasm(args)) => Ok(call(
            "disasm"@,
            seq![
                ("address"@, ArgM::Text(target_text(args.target))),
                ("count"@, ArgM::Null),
                ("end"@, ArgM::Null),
                ("resolve"@, ArgM::Flag(true)),
            ],
        )),
        Commands::Function(FunctionCommands::Calls(args)) => Ok(call(
            "find_calls"@,
            seq![
                ("target"@, ArgM::Text(target_text(args.target))),
            ],
        )),
        Commands::Function(FunctionCommands::XRefs(args)) => Ok(call(
            "xrefs_to"@,
            seq![
                ("target"@, ArgM::Text(target_text(args.target))),
            ],
        )),
        Commands::Function(FunctionCommands::Rename(args)) => Ok(call(
            "rename_function"@,
            seq![
                ("new_name"@, ArgM::Text(args.new_name@)),
                ("old_name"@, ArgM::Text(args.old_name@)),
            ],
        )),
        Commands::Function(FunctionCommands::Create(args)) => Ok(call(
            "create_function"@,
            seq![
                ("address"@, ArgM::Text(args.address@)),
                ("name"@, opt_text_m(opt_view(args.name))),
            ],
        )),
        Commands::Function(FunctionCommands::Delete(args)) => Ok(call(
            "delete_function"@,
            seq![
                ("address"@, ArgM::Text(target_text(args.target))),
            ],
        )),
        Commands::Function(FunctionCommands::SetSignature(args)) => Ok(call(
            "function_set_signature"@,
            seq![
                ("signature"@, ArgM::Text(args.signature@)),
                ("target"@, ArgM::Text(target_text(args.target))),
            ],
        )),
        Commands::Function(FunctionCommands::SetReturnType(args)) => Ok(call(
            "function_set_return_type"@,
            seq![
                ("return_type"@, ArgM::Text(args.return_type@)),
                ("target"@, ArgM::Text(target_text(args.target))),
            ],
        )),
        Commands::Function(FunctionCommands::SetCallingConvention(args)) => Ok(call(
            "function_set_calling_convention"@,
            seq![
                ("convention"@, ArgM::Text(args.convention@)),
                ("target"@, ArgM::Text(target_text(args.target))),
            ],
        )),
        Commands::Function(FunctionCommands::SetVarType(args)) => Ok(call(
            "set_var_type"@,
            seq![
                ("function"@, ArgM::Text(target_text(args.target))),
                ("type_name"@, ArgM::Text(args.ty_name@)),
                ("var_name"@, ArgM::Text(args.var_name@)),
            ],
        )),
        Commands::Disasm(args) => Ok(call(
            "disasm"@,
            seq![
                ("address"@, ArgM::Text(target_text(args.target))),
                ("count"@, opt_int_m(args.num_instructions)),
                ("end"@, opt_text_m(opt_view(args.end))),
                ("resolve"@, ArgM::Flag(!args.no_resolve)),
            ],
        )),
        _ => Err(unsupported()),
    }
}

/// Function views: decompiling, disassembling, listing and editing functions (see [`functions_dispatch_of`]).
pub fn dispatch_functions(command: &Commands, fetch: &FetchParams, default_limit: Option<usize>) -> (r: Result<
    Dispatch,
    String,
>)
    requires
        targets_given(*command),
    ensures
        outcome_view(r) == functions_dispatch_of(*command, *fetch, default_limit),
{
    match command {
        Commands::Decompile(args) => Ok(request3(
            "decompile",
            "address",
            text(args.target.resolved_target()),
            "with_params",
            BridgeArg::Flag(args.with_params),
            "with_vars",
            BridgeArg::Flag(args.with_vars),
        )),
        Commands::DecompileMulti(args) => Ok(request1(
            "decompile_multi",
            "addresses",
            texts(&args.targets),
        )),
        Commands::Function(FunctionCommands::List(args)) => Ok(request5(
            "list_functions",
            "filter",
            opt_text(&fetch.filter),
            "limit",
            opt_num(fetch.limit),
            "offset",
            opt_num(fetch.offset),
            "tags",
            texts(&args.tags),
            "untagged",
            BridgeArg::Flag(args.untagged),
        )),
        Commands::Function(FunctionCommands::Decompile(args)) => Ok(request3(
            "decompile",
            "address",
            text(args.target.resolved_target()),
            "with_params",
            BridgeArg::Flag(args.with_params),
            "with_vars",
            BridgeArg::Flag(args.with_vars),
        )),
        Commands::Function(FunctionCommands::Get(args)) => Ok(request1(
            "get_function",
            "address",
            text(args.target.resolved_target()),
        )),
        Commands::Function(FunctionCommands::Disasm(args)) => Ok(request4(
            "disasm",
            "address",
            text(args.target.resolved_target()),
            "count",
            BridgeArg::Null,
            "end",
            BridgeArg::Null,
            "resolve",
            BridgeArg::Flag(true),
        )),
        Commands::Function(FunctionCommands::Calls(args)) => Ok(request1(
            "find_calls",
            "target",
            text(args.target.resolved_target()),
        )),
        Commands::Function(FunctionCommands::XRefs(args)) => Ok(request1(
            "xrefs_to",
            "target",
            text(args.target.resolved_target()),
        )),
        Commands::Function(FunctionCommands::Rename(args)) => Ok(request2(
            "rename_function",
            "new_name",
            text(args.new_name.as_str()),
            "old_name",
            text(args.old_name.as_str()),
        )),
        Commands::Function(FunctionCommands::Create(args)) => Ok(request2(
            "create_function",
            "address",
            text(args.address.as_str()),
            "name",
            opt_text(&args.name),
        )),
        Commands::Function(FunctionCommands::Delete(args)) => Ok(request1(
            "delete_function",
            "address",
            text(args.target.resolved_target()),
        )),
        Commands::Function(FunctionCommands::SetSignature(args)) => Ok(request2(
            "function_set_signature",
            "signature",
            text(args.signature.as_str()),
            "target",
            text(args.target.resolved_target()),
        )),
        Commands::Function(FunctionCommands::SetReturnType(args)) => Ok(request2(
            "function_set_return_type",
            "return_type",
            text(args.return_type.as_str()),
            "target",
            text(args.target.resolved_target()),
        )),
        Commands::Function(FunctionCommands::SetCallingConvention(args)) => Ok(request2(
            "function_set_calling_convention",
            "convention",
            text(args.convention.as_str()),
            "target",
            text(args.target.resolved_target()),
        )),
        Commands::Function(FunctionCommands::SetVarType(args)) => Ok(request3(
            "set_var_type",
            "function",
            text(args.target.resolved_target()),
            "type_name",
            text(args.ty_name.as_str()),
            "var_name",
            text(args.var_name.as_str()),
        )),
        Commands::Disasm(args) => Ok(request4(
            "disasm",
            "address",
            text(args.target.resolved_target()),
            "count",
            opt_num(args.num_instructions),
            "end",
            opt_text(&args.end),
            "resolve",
            BridgeArg::Flag(!args.no_resolve),
        )),
        _ => Err(unsupported_error()),
    }
}

/// Listings: queries, strings, dumps, the summary and statistics.
pub open spec fn lists_dispatch_of(c: Commands, fetch: FetchParams, default_limit: Option<usize>) -> Result<
    DispatchM,
    Seq<char>,
> {
    match c {
        Commands::Query(args) => query_dispatch_of(args.data_type@, fetch),
        Commands::Strings(StringsCommands::List(opts)) => Ok(call(
            "list_strings"@,
            seq![
                ("filter"@, opt_text_m(opt_view(fetch.filter))),
                ("limit"@, opt_int_m(fetch.limit)),
                ("offset"@, opt_int_m(fetch.offset)),
            ],
        )),
        Commands::Strings(StringsCommands::Refs(args)) => Ok(call(
            "xrefs_to"@,
            seq![
                ("target"@, ArgM::Text(args.string@)),
            ],
        )),
        Commands::Dump(DumpCommands::Imports(opts)) => Ok(call("list_imports"@, seq![])),
        Commands::Dump(DumpCommands::Exports(opts)) => Ok(call("list_exports"@, seq![])),
        Commands::Dump(DumpCommands::Functions(opts)) => Ok(call(
            "list_functions"@,
            seq![
                ("filter"@, opt_text_m(opt_view(fetch.filter))),
                ("limit"@, opt_int_m(fetch.limit)),
                ("offset"@, opt_int_m(fetch.offset)),
                ("tags"@, ArgM::Texts(seq![])),
                ("untagged"@, ArgM::Flag(false)),
            ],
        )),
        Commands::Dump(DumpCommands::Strings(opts)) => Ok(call(
            "list_strings"@,
            seq![
                ("filter"@, opt_text_m(opt_view(fetch.filter))),
                ("limit"@, opt_int_m(fetch.limit)),
                ("offset"@, opt_int_m(fetch.offset)),
            ],
        )),
        Commands::Summary(args) => Ok(call("program_info"@, seq![])),
        Commands::Stats(args) => Ok(call("stats"@, seq![])),
        _ => Err(unsupported()),
    }
}

/// Listings: queries, strings, dumps, the summary and statistics (see [`lists_dispatch_of`]).
pub fn dispatch_lists(command: &Commands, fetch: &FetchParams, default_limit: Option<usize>) -> (r: Result<
    Dispatch,
    String,
>)
    requires
        targets_given(*command),
    ensures
        outcome_view(r) == lists_dispatch_of(*command, *fetch, default_limit),
{
    match command {
        Commands::Query(args) => query_dispatch(args.data_type.as_str(), fetch),
        Commands::Strings(StringsCommands::List(opts)) => Ok(request3(
            "list_strings",
            "filter",
            opt_text(&fetch.filter),
            "limit",
            opt_num(fetch.limit),
            "offset",
            opt_num(fetch.offset),
        )),
        Commands::Strings(StringsCommands::Refs(args)) => Ok(request1(
            "xrefs_to",
            "target",
            text(args.string.as_str()),
        )),
        Commands::Dump(DumpCommands::Imports(opts)) => Ok(request0("list_imports")),
        Commands::Dump(DumpCommands::Exports(opts)) => Ok(request0("list_exports")),
        Commands::Dump(DumpCommands::Functions(opts)) => Ok(request5(
            "list_functions",
            "filter",
            opt_text(&fetch.filter),
            "limit",
            opt_num(fetch.limit),
            "offset",
            opt_num(fetch.offset),
            "tags",
            no_texts(),
            "untagged",
            BridgeArg::Flag(false),
        )),
        Commands::Dump(DumpCommands::Strings(opts)) => Ok(request3(
            "list_strings",
            "filter",
            opt_text(&fetch.filter),
            "limit",
            opt_num(fetch.limit),
            "offset",
            opt_num(fetch.offset),
        )),
        Commands::Summary(args) => Ok(request0("program_info")),
        Commands::Stats(args) => Ok(request0("stats")),
        _ => Err(unsupported_error()),
    }
}

/// Cross-references.
pub open spec fn xrefs_dispatch_of(c: Commands, fetch: FetchParams, default_limit: Option<usize>) -> Result<
    DispatchM,
    Seq<char>,
> {
    match c {
        Commands::XRef(XRefCommands::To(args)) => Ok(call(
            "xrefs_to"@,
            seq![
                ("target"@, ArgM::Text(target_text(args.target))),
            ],
        )),
        Commands::XRef(XRefCommands::From(args)) => Ok(call(
            "xrefs_from"@,
            seq![
                ("target"@, ArgM::Text(target_text(args.target))),
            ],
        )),
        Commands::XRef(XRefCommands::List(args)) => Ok(call(
            "xrefs_list"@,
            seq![
                ("address"@, ArgM::Text(target_text(args.target))),
            ],
        )),
        _ => Err(unsupported()),
    }
}

/// Cross-references (see [`xrefs_dispatch_of`]).
pub fn dispatch_xrefs(command: &Commands, fetch: &FetchParams, default_limit: Option<usize>) -> (r: Result<
    Dispatch,
    String,
>)
    requires
        targets_given(*command),
    ensures
        outcome_view(r) == xrefs_dispatch_of(*command, *fetch, default_limit),
{
    match command {
        Commands::XRef(XRefCommands::To(args)) => Ok(request1(
            "xrefs_to",
            "target",
            text(args.target.resolved_target()),
        )),
        Commands::XRef(XRefCommands::From(args)) => Ok(request1(
            "xrefs_from",
            "target",
            text(args.target.resolved_target()),
        )),
        Commands::XRef(XRefCommands::List(args)) => Ok(request1(
            "xrefs_list",
            "address",
            text(args.target.resolved_target()),
        )),
        _ => Err(unsupported_error()),
    }
}

/// Call graphs.
pub open spec fn graphs_dispatch_of(c: Commands, fetch: FetchParams, default_limit: Option<usize>) -> Result<
    DispatchM,
    Seq<char>,
> {
    match c {
        Commands::Graph(GraphCommands::Calls(opts)) => Ok(call(
            "graph_calls"@,
            seq![
                ("limit"@, opt_int_m(either(opts.limit, default_limit))),
            ],
        )),
        Commands::Graph(GraphCommands::Callers(args)) => Ok(call(
            "graph_callers"@,
            seq![
                ("depth"@, opt_int_m(args.depth)),
                ("target"@, ArgM::Text(target_text(args.target))),
            ],
        )),
        Commands::Graph(GraphCommands::Callees(args)) => Ok(call(
            "graph_callees"@,
            seq![
                ("depth"@, opt_int_m(args.depth)),
                ("target"@, ArgM::Text(target_text(args.target))),
            ],
        )),
        Commands::Graph(GraphCommands::Export(args)) => Ok(call(
            "graph_export"@,
            seq![
                ("format"@, ArgM::Text(args.format@)),
            ],
        )),
        _ => Err(unsupported()),
    }
}

/// Call graphs (see [`graphs_dispatch_of`]).
pub fn dispatch_graphs(command: &Commands, fetch: &FetchParams, default_limit: Option<usize>) -> (r: Result<
    Dispatch,
    String,
>)
    requires
        targets_given(*command),
    ensures
        outcome_view(r) == graphs_dispatch_of(*command, *fetch, default_limit),
{
    match command {
        Commands::Graph(GraphCommands::Calls(opts)) => Ok(request1(
            "graph_calls",
            "limit",
            opt_num(first_of(opts.limit, default_limit)),
        )),
        Commands::Graph(GraphCommands::Callers(args)) => Ok(request2(
            "graph_callers",
            "depth",
            opt_num(args.depth),
            "target",
            text(args.target.resolved_target()),
        )),
        Commands::Graph(GraphCommands::Callees(args)) => Ok(request2(
            "graph_callees",
            "depth",
            opt_num(args.depth),
            "target",
            text(args.target.resolved_target()),
        )),
        Commands::Graph(GraphCommands::Export(args)) => Ok(request1(
            "graph_export",
            "format",
            text(args.format.as_str()),
        )),
        _ => Err(unsupported_error()),
    }
}

/// Searches.
pub open spec fn finds_dispatch_of(c: Commands, fetch: FetchParams, default_limit: Option<usize>) -> Result<
    DispatchM,
    Seq<char>,
> {
    match c {
        Commands::Find(FindCommands::String(args)) => Ok(call(
            "find_string"@,
            seq![
                ("pattern"@, ArgM::Text(args.pattern@)),
            ],
        )),
        Commands::Find(FindCommands::Bytes(args)) => Ok(call(
            "find_bytes"@,
            seq![
                ("hex"@, ArgM::Text(args.hex@)),
            ],
        )),
        Commands::Find(FindCommands::Constant(args)) => Ok(call(
            "find_constant"@,
            seq![
                ("max"@, ArgM::Int(args.max as int)),
                ("refs"@, ArgM::Flag(!args.no_refs)),
                ("size"@, ArgM::Int(args.size as int)),
                ("value"@, ArgM::Text(args.value@)),
            ],
        )),
        Commands::Find(FindCommands::Instruction(args)) => Ok(call(
            "find_instruction"@,
            seq![
                ("case_sensitive"@, ArgM::Flag(args.case_sensitive)),
                ("end"@, opt_text_m(opt_view(args.end))),
                ("limit"@, ArgM::Int(instruction_cap(args.options.limit))),
                ("pattern"@, ArgM::Text(args.pattern@)),
                ("start"@, opt_text_m(opt_view(args.start))),
            ],
        )),
        Commands::Find(FindCommands::Function(args)) => Ok(call(
            "find_function"@,
            seq![
                ("pattern"@, ArgM::Text(args.pattern@)),
            ],
        )),
        Commands::Find(FindCommands::Calls(args)) => Ok(call(
            "find_calls"@,
            seq![
                ("target"@, ArgM::Text(target_text(args.target))),
            ],
        )),
        Commands::Find(FindCommands::Crypto(opts)) => Ok(call("find_crypto"@, seq![])),
        Commands::Find(FindCommands::Interesting(opts)) => Ok(call("find_interesting"@, seq![])),
        _ => Err(unsupported()),
    }
}

/// Searches (see [`finds_dispatch_of`]).
pub fn dispatch_finds(command: &Commands, fetch: &FetchParams, default_limit: Option<usize>) -> (r: Result<
    Dispatch,
    String,
>)
    requires
        targets_given(*command),
    ensures
        outcome_view(r) == finds_dispatch_of(*command, *fetch, default_limit),
{
    match command {
        Commands::Find(FindCommands::String(args)) => Ok(request1(
            "find_string",
            "pattern",
            text(args.pattern.as_str()),
        )),
        Commands::Find(FindCommands::Bytes(args)) => Ok(request1(
            "find_bytes",
            "hex",
            text(args.hex.as_str()),
        )),
        Commands::Find(FindCommands::Constant(args)) => Ok(request4(
            "find_constant",
            "max",
            count(args.max),
            "refs",
            BridgeArg::Flag(!args.no_refs),
            "size",
            count(args.size),
            "value",
            text(args.value.as_str()),
        )),
        Commands::Find(FindCommands::Instruction(args)) => Ok(request5(
            "find_instruction",
            "case_sensitive",
            BridgeArg::Flag(args.case_sensitive),
            "end",
            opt_text(&args.end),
            "limit",
            instruction_limit(args.options.limit),
            "pattern",
            text(args.pattern.as_str()),
            "start",
            opt_text(&args.start),
        )),
        Commands::Find(FindCommands::Function(args)) => Ok(request1(
            "find_function",
            "pattern",
            text(args.pattern.as_str()),
        )),
        Commands::Find(FindCommands::Calls(args)) => Ok(request1(
            "find_calls",
            "target",
            text(args.target.resolved_target()),
        )),
        Commands::Find(FindCommands::Crypto(opts)) => Ok(request0("find_crypto")),
        Commands::Find(FindCommands::Interesting(opts)) => Ok(request0("find_interesting")),
        _ => Err(unsupported_error()),
    }
}

/// Edits: symbols, types, tags, comments and patches.
pub open spec fn mutation_dispatch_of(c: Commands, fetch: FetchParams, default_limit: Option<usize>) -> Result<
    DispatchM,
    Seq<char>,
> {
    match c {
        Commands::Symbol(SymbolCommands::List(opts)) => Ok(call(
            "symbol_list"@,
            seq![
                ("filter"@, opt_text_m(opt_view(fetch.filter))),
                ("limit"@, opt_int_m(fetch.limit)),
                ("offset"@, opt_int_m(fetch.offset)),
            ],
        )),
        Commands::Symbol(SymbolCommands::Get(args)) => Ok(call(
            "symbol_get"@,
            seq![
                ("name"@, ArgM::Text(args.name@)),
            ],
        )),
        Commands::Symbol(SymbolCommands::Create(args)) => Ok(call(
            "symbol_create"@,
            seq![
                ("address"@, ArgM::Text(args.address@)),
                ("name"@, ArgM::Text(args.name@)),
            ],
        )),
        Commands::Symbol(SymbolCommands::Delete(args)) => Ok(call(
            "symbol_delete"@,
            seq![
                ("name"@, ArgM::Text(args.name@)),
            ],
        )),
        Commands::Symbol(SymbolCommands::Rename(args)) => Ok(call(
            "symbol_rename"@,
            seq![
                ("new_name"@, ArgM::Text(args.new_name@)),
                ("old_name"@, ArgM::Text(args.old_name@)),
            ],
        )),
        Commands::Type(TypeCommands::List(opts)) => Ok(call(
            "type_list"@,
            seq![
                ("filter"@, opt_text_m(opt_view(fetch.filter))),
                ("limit"@, opt_int_m(fetch.limit)),
                ("offset"@, opt_int_m(fetch.offset)),
            ],
        )),
        Commands::Type(TypeCommands::Get(args)) => Ok(call(
            "type_get"@,
            seq![
                ("name"@, ArgM::Text(args.name@)),
            ],
        )),
        Commands::Type(TypeCommands::Create(args)) => Ok(call(
            "type_create"@,
            seq![
                ("definition"@, ArgM::Text(args.definition@)),
            ],
        )),
        Commands::Type(TypeCommands::Apply(args)) => Ok(call(
            "type_apply"@,
            seq![
                ("address"@, ArgM::Text(args.address@)),
                ("type_name"@, ArgM::Text(args.ty_name@)),
            ],
        )),
        Commands::Type(TypeCommands::Delete(args)) => Ok(call(
            "type_delete"@,
            seq![
                ("name"@, ArgM::Text(args.name@)),
            ],
        )),
        Commands::Type(TypeCommands::Rename(args)) => Ok(call(
            "type_rename"@,
            seq![
                ("new_name"@, ArgM::Text(args.new_name@)),
                ("old_name"@, ArgM::Text(args.old_name@)),
            ],
        )),
        Commands::Type(TypeCommands::CreateEnum(args)) => Ok(call(
            "type_create_enum"@,
            seq![
                ("name"@, ArgM::Text(args.name@)),
                ("size"@, ArgM::Int(args.size as int)),
                ("values"@, ArgM::Text(args.values@)),
            ],
        )),
        Commands::Type(TypeCommands::Typedef(args)) => Ok(call(
            "type_typedef"@,
            seq![
                ("base_type"@, ArgM::Text(args.base_type@)),
                ("name"@, ArgM::Text(args.name@)),
            ],
        )),
        Commands::Type(TypeCommands::AddField(args)) => Ok(call(
            "type_add_field"@,
            seq![
                ("field_name"@, ArgM::Text(args.name@)),
                ("field_type"@, ArgM::Text(args.field_type@)),
                ("offset"@, opt_i32_m(args.offset)),
                ("size"@, opt_i32_m(args.size)),
                ("type_name"@, ArgM::Text(args.ty_name@)),
            ],
        )),
        Commands::Type(TypeCommands::DelField(args)) => Ok(call(
            "type_del_field"@,
            seq![
                ("field_name"@, ArgM::Text(args.name@)),
                ("type_name"@, ArgM::Text(args.ty_name@)),
            ],
        )),
        Commands::Tag(TagCommands::List(args)) => Ok(call(
            "tag_list"@,
            seq![
                ("function"@, opt_text_m(opt_view(args.function))),
                ("limit"@, opt_int_m(fetch.limit)),
            ],
        )),
        Commands::Tag(TagCommands::Get(args)) => Ok(call(
            "tag_get"@,
            seq![
                ("limit"@, opt_int_m(fetch.limit)),
                ("name"@, ArgM::Text(args.name@)),
            ],
        )),
        Commands::Tag(TagCommands::Create(args)) => Ok(call(
            "tag_create"@,
            seq![
                ("comment"@, opt_text_m(opt_view(args.comment))),
                ("name"@, ArgM::Text(args.name@)),
            ],
        )),
        Commands::Tag(TagCommands::Delete(args)) => Ok(call(
            "tag_delete"@,
            seq![
                ("name"@, ArgM::Text(args.name@)),
            ],
        )),
        Commands::Tag(TagCommands::Rename(args)) => Ok(call(
            "tag_rename"@,
            seq![
                ("name"@, ArgM::Text(args.old_name@)),
                ("new_name"@, ArgM::Text(args.new_name@)),
            ],
        )),
        Commands::Tag(TagCommands::SetComment(args)) => Ok(call(
            "tag_set_comment"@,
            seq![
                ("comment"@, ArgM::Text(args.comment@)),
                ("name"@, ArgM::Text(args.name@)),
            ],
        )),
        Commands::Tag(TagCommands::Add(args)) => Ok(call(
            "tag_add"@,
            seq![
                ("function"@, ArgM::Text(args.target@)),
                ("no_create"@, ArgM::Flag(args.no_create)),
                ("tags"@, ArgM::Texts(strs(args.tags@))),
            ],
        )),
        Commands::Tag(TagCommands::Remove(args)) => Ok(call(
            "tag_remove"@,
            seq![
                ("all"@, ArgM::Flag(args.all)),
                ("function"@, ArgM::Text(args.target@)),
                ("tags"@, ArgM::Texts(strs(args.tags@))),
            ],
        )),
        Commands::Comment(CommentCommands::List(opts)) => Ok(call(
            "comment_list"@,
            seq![
                ("filter"@, opt_text_m(opt_view(fetch.filter))),
                ("limit"@, opt_int_m(fetch.limit)),
                ("offset"@, opt_int_m(fetch.offset)),
            ],
        )),
        Commands::Comment(CommentCommands::Get(args)) => Ok(call(
            "comment_get"@,
            seq![
                ("address"@, ArgM::Text(args.address@)),
            ],
        )),
        Commands::Comment(CommentCommands::SetText(args)) => Ok(call(
            "comment_set"@,
            seq![
                ("address"@, ArgM::Text(args.address@)),
                ("comment_type"@, opt_text_m(opt_view(args.comment_type))),
                ("text"@, ArgM::Text(args.text@)),
            ],
        )),
        Commands::Comment(CommentCommands::Delete(args)) => Ok(call(
            "comment_delete"@,
            seq![
                ("address"@, ArgM::Text(args.address@)),
            ],
        )),
        Commands::Patch(PatchCommands::Bytes(args)) => Ok(call(
            "patch_bytes"@,
            seq![
                ("address"@, ArgM::Text(args.address@)),
                ("hex"@, ArgM::Text(args.hex@)),
            ],
        )),
        Commands::Patch(PatchCommands::Nop(args)) => Ok(call(
            "patch_nop"@,
            seq![
                ("address"@, ArgM::Text(args.address@)),
                ("count"@, opt_int_m(args.count)),
            ],
        )),
        Commands::Patch(PatchCommands::Export(args)) => Ok(call(
            "patch_export"@,
            seq![
                ("output"@, ArgM::Text(args.output@)),
            ],
        )),
        Commands::Rename(args) => Ok(call(
            "symbol_rename"@,
            seq![
                ("new_name"@, ArgM::Text(args.new_name@)),
                ("old_name"@, ArgM::Text(args.old_name@)),
            ],
        )),
        _ => Err(unsupported()),
    }
}

/// Edits: symbols, types, tags, comments and patches (see [`mutation_dispatch_of`]).
pub fn dispatch_mutation(command: &Commands, fetch: &FetchParams, default_limit: Option<usize>) -> (r: Result<
    Dispatch,
    String,
>)
    requires
        targets_given(*command),
    ensures
        outcome_view(r) == mutation_dispatch_of(*command, *fetch, default_limit),
{
    match command {
        Commands::Symbol(SymbolCommands::List(opts)) => Ok(request3(
            "symbol_list",
            "filter",
            opt_text(&fetch.filter),
            "limit",
            opt_num(fetch.limit),
            "offset",
            opt_num(fetch.offset),
        )),
        Commands::Symbol(SymbolCommands::Get(args)) => Ok(request1(
            "symbol_get",
            "name",
            text(args.name.as_str()),
        )),
        Commands::Symbol(SymbolCommands::Create(args)) => Ok(request2(
            "symbol_create",
            "address",
            text(args.address.as_str()),
            "name",
            text(args.name.as_str()),
        )),
        Commands::Symbol(SymbolCommands::Delete(args)) => Ok(request1(
            "symbol_delete",
            "name",
            text(args.name.as_str()),
        )),
        Commands::Symbol(SymbolCommands::Rename(args)) => Ok(request2(
            "symbol_rename",
            "new_name",
            text(args.new_name.as_str()),
            "old_name",
            text(args.old_name.as_str()),
        )),
        Commands::Type(TypeCommands::List(opts)) => Ok(request3(
            "type_list",
            "filter",
            opt_text(&fetch.filter),
            "limit",
            opt_num(fetch.limit),
            "offset",
            opt_num(fetch.offset),
        )),
        Commands::Type(TypeCommands::Get(args)) => Ok(request1(
            "type_get",
            "name",
            text(args.name.as_str()),
        )),
        Commands::Type(TypeCommands::Create(args)) => Ok(request1(
            "type_create",
            "definition",
            text(args.definition.as_str()),
        )),
        Commands::Type(TypeCommands::Apply(args)) => Ok(request2(
            "type_apply",
            "address",
            text(args.address.as_str()),
            "type_name",
            text(args.ty_name.as_str()),
        )),
        Commands::Type(TypeCommands::Delete(args)) => Ok(request1(
            "type_delete",
            "name",
            text(args.name.as_str()),
        )),
        Commands::Type(TypeCommands::Rename(args)) => Ok(request2(
            "type_rename",
            "new_name",
            text(args.new_name.as_str()),
            "old_name",
            text(args.old_name.as_str()),
        )),
        Commands::Type(TypeCommands::CreateEnum(args)) => Ok(request3(
            "type_create_enum",
            "name",
            text(args.name.as_str()),
            "size",
            num(args.size as i128),
            "values",
            text(args.values.as_str()),
        )),
        Commands::Type(TypeCommands::Typedef(args)) => Ok(request2(
            "type_typedef",
            "base_type",
            text(args.base_type.as_str()),
            "name",
            text(args.name.as_str()),
        )),
        Commands::Type(TypeCommands::AddField(args)) => Ok(request5(
            "type_add_field",
            "field_name",
            text(args.name.as_str()),
            "field_type",
            text(args.field_type.as_str()),
            "offset",
            opt_i32(args.offset),
            "size",
            opt_i32(args.size),
            "type_name",
            text(args.ty_name.as_str()),
        )),
        Commands::Type(TypeCommands::DelField(args)) => Ok(request2(
            "type_del_field",
            "field_name",
            text(args.name.as_str()),
            "type_name",
            text(args.ty_name.as_str()),
        )),
        Commands::Tag(TagCommands::List(args)) => Ok(request2(
            "tag_list",
            "function",
            opt_text(&args.function),
            "limit",
            opt_num(fetch.limit),
        )),
        Commands::Tag(TagCommands::Get(args)) => Ok(request2(
            "tag_get",
            "limit",
            opt_num(fetch.limit),
            "name",
            text(args.name.as_str()),
        )),
        Commands::Tag(TagCommands::Create(args)) => Ok(request2(
            "tag_create",
            "comment",
            opt_text(&args.comment),
            "name",
            text(args.name.as_str()),
        )),
        Commands::Tag(TagCommands::Delete(args)) => Ok(request1(
            "tag_delete",
            "name",
            text(args.name.as_str()),
        )),
        Commands::Tag(TagCommands::Rename(args)) => Ok(request2(
            "tag_rename",
            "name",
            text(args.old_name.as_str()),
            "new_name",
            text(args.new_name.as_str()),
        )),
        Commands::Tag(TagCommands::SetComment(args)) => Ok(request2(
            "tag_set_comment",
            "comment",
            text(args.comment.as_str()),
            "name",
            text(args.name.as_str()),
        )),
        Commands::Tag(TagCommands::Add(args)) => Ok(request3(
            "tag_add",
            "function",
            text(args.target.as_str()),
            "no_create",
            BridgeArg::Flag(args.no_create),
            "tags",
            texts(&args.tags),
        )),
        Commands::Tag(TagCommands::Remove(args)) => Ok(request3(
            "tag_remove",
            "all",
            BridgeArg::Flag(args.all),
            "function",
            text(args.target.as_str()),
            "tags",
            texts(&args.tags),
        )),
        Commands::Comment(CommentCommands::List(opts)) => Ok(request3(
            "comment_list",
            "filter",
            opt_text(&fetch.filter),
            "limit",
            opt_num(fetch.limit),
            "offset",
            opt_num(fetch.offset),
        )),
        Commands::Comment(CommentCommands::Get(args)) => Ok(request1(
            "comment_get",
            "address",
            text(args.address.as_str()),
        )),
        Commands::Comment(CommentCommands::SetText(args)) => Ok(request3(
            "comment_set",
            "address",
            text(args.address.as_str()),
            "comment_type",
            opt_text(&args.comment_type),
            "text",
            text(args.text.as_str()),
        )),
        Commands::Comment(CommentCommands::Delete(args)) => Ok(request1(
            "comment_delete",
            "address",
            text(args.address.as_str()),
        )),
        Commands::Patch(PatchCommands::Bytes(args)) => Ok(request2(
            "patch_bytes",
            "address",
            text(args.address.as_str()),
            "hex",
            text(args.hex.as_str()),
        )),
        Commands::Patch(PatchCommands::Nop(args)) => Ok(request2(
            "patch_nop",
            "address",
            text(args.address.as_str()),
            "count",
            opt_num(args.count),
        )),
        Commands::Patch(PatchCommands::Export(args)) => Ok(request1(
            "patch_export",
            "output",
            text(args.output.as_str()),
        )),
        Commands::Rename(args) => Ok(request2(
            "symbol_rename",
            "new_name",
            text(args.new_name.as_str()),
            "old_name",
            text(args.old_name.as_str()),
        )),
        _ => Err(unsupported_error()),
    }
}

/// Programs, memory, diffs and raw commands.
pub open spec fn programs_dispatch_of(c: Commands, fetch: FetchParams, default_limit: Option<usize>) -> Result<
    DispatchM,
    Seq<char>,
> {
    match c {
        Commands::Raw(args) => Ok(DispatchM::Raw(args.command@, args.json_args@)),
        Commands::Memory(MemoryCommands::MemoryMap(opts)) => Ok(call("memory_map"@, seq![])),
        Commands::Memory(MemoryCommands::Read(args)) => Ok(call(
            "read_memory"@,
            seq![
                ("address"@, ArgM::Text(args.address@)),
                ("size"@, ArgM::Int(args.size as int)),
            ],
        )),
        Commands::Memory(MemoryCommands::Write(args)) => Ok(call(
            "write_memory"@,
            seq![
                ("address"@, ArgM::Text(args.address@)),
                ("bytes"@, ArgM::Text(args.bytes@)),
            ],
        )),
        Commands::Memory(MemoryCommands::Search(args)) => Ok(call(
            "search_memory"@,
            seq![
                ("pattern"@, ArgM::Text(args.pattern@)),
            ],
        )),
        Commands::Program(ProgramCommands::List(args)) => Ok(call("list_programs"@, seq![])),
        Commands::Program(ProgramCommands::Open(args)) => match args.program {
            Some(p) => Ok(call("open_program"@, seq![("name"@, ArgM::Text(p@))])),
            None => Err("Program name required. Use --program <name>"@),
        },
        Commands::Program(ProgramCommands::Close(args)) => Ok(call("program_close"@, seq![])),
        Commands::Program(ProgramCommands::Delete(args)) => match args.program {
            Some(p) => Ok(call("program_delete"@, seq![("name"@, ArgM::Text(p@))])),
            None => Err("Program name required"@),
        },
        Commands::Program(ProgramCommands::Info(args)) => Ok(call("program_info"@, seq![])),
        Commands::Program(ProgramCommands::Export(args)) => Ok(call(
            "program_export"@,
            seq![
                ("format"@, ArgM::Text(args.format@)),
                ("output"@, opt_text_m(opt_view(args.output))),
            ],
        )),
        Commands::Diff(DiffCommands::Programs(args)) => Ok(DispatchM::DiffPrograms),
        Commands::Diff(DiffCommands::Functions(args)) => Ok(call(
            "diff_functions"@,
            seq![
                ("func1"@, ArgM::Text(args.func1@)),
                ("func2"@, ArgM::Text(args.func2@)),
            ],
        )),
        _ => Err(unsupported()),
    }
}

/// Programs, memory, diffs and raw commands (see [`programs_dispatch_of`]).
pub fn dispatch_programs(command: &Commands, fetch: &FetchParams, default_limit: Option<usize>) -> (r: Result<
    Dispatch,
    String,
>)
    requires
        targets_given(*command),
    ensures
        outcome_view(r) == programs_dispatch_of(*command, *fetch, default_limit),
{
    match command {
        Commands::Raw(args) => Ok(
            Dispatch::Raw { command: args.command.clone(), json_args: args.json_args.clone() },
        ),
        Commands::Memory(MemoryCommands::MemoryMap(opts)) => Ok(request0("memory_map")),
        Commands::Memory(MemoryCommands::Read(args)) => Ok(request2(
            "read_memory",
            "address",
            text(args.address.as_str()),
            "size",
            count(args.size),
        )),
        Commands::Memory(MemoryCommands::Write(args)) => Ok(request2(
            "write_memory",
            "address",
            text(args.address.as_str()),
            "bytes",
            text(args.bytes.as_str()),
        )),
        Commands::Memory(MemoryCommands::Search(args)) => Ok(request1(
            "search_memory",
            "pattern",
            text(args.pattern.as_str()),
        )),
        Commands::Program(ProgramCommands::List(args)) => Ok(request0("list_programs")),
        Commands::Program(ProgramCommands::Open(args)) => match &args.program {
            Some(p) => Ok(request1("open_program", "name", text(p.as_str()))),
            None => Err("Program name required. Use --program <name>".to_owned()),
        },
        Commands::Program(ProgramCommands::Close(args)) => Ok(request0("program_close")),
        Commands::Program(ProgramCommands::Delete(args)) => match &args.program {
            Some(p) => Ok(request1("program_delete", "name", text(p.as_str()))),
            None => Err("Program name required".to_owned()),
        },
        Commands::Program(ProgramCommands::Info(args)) => Ok(request0("program_info")),
        Commands::Program(ProgramCommands::Export(args)) => Ok(request2(
            "program_export",
            "format",
            text(args.format.as_str()),
            "output",
            opt_text(&args.output),
        )),
        Commands::Diff(DiffCommands::Programs(args)) => Ok(Dispatch::DiffPrograms),
        Commands::Diff(DiffCommands::Functions(args)) => Ok(request2(
            "diff_functions",
            "func1",
            text(args.func1.as_str()),
            "func2",
            text(args.func2.as_str()),
        )),
        _ => Err(unsupported_error()),
    }
}

/// Scripts and batch files.
pub open spec fn scripts_dispatch_of(c: Commands, fetch: FetchParams, default_limit: Option<usize>) -> Result<
    DispatchM,
    Seq<char>,
> {
    match c {
        Commands::Script(ScriptCommands::Run(args)) => Ok(
            DispatchM::ScriptRun(
                args.script_path@,
                strs(args.args@),
                args.expect@.map_values(|e: String| expect_parts(e@)),
                args.allow_empty,
            ),
        ),
        Commands::Script(ScriptCommands::Python(args)) => Ok(call(
            "script_python"@,
            seq![
                ("code"@, ArgM::Text(args.code@)),
            ],
        )),
        Commands::Script(ScriptCommands::Java(args)) => Ok(call(
            "script_java"@,
            seq![
                ("code"@, ArgM::Text(args.code@)),
            ],
        )),
        Commands::Script(ScriptCommands::List) => Ok(call("script_list"@, seq![])),
        Commands::Batch(args) => Ok(DispatchM::Batch(args.script_file@)),
        _ => Err(unsupported()),
    }
}

/// Scripts and batch files (see [`scripts_dispatch_of`]).
pub fn dispatch_scripts(command: &Commands, fetch: &FetchParams, default_limit: Option<usize>) -> (r: Result<
    Dispatch,
    String,
>)
    requires
        targets_given(*command),
    ensures
        outcome_view(r) == scripts_dispatch_of(*command, *fetch, default_limit),
{
    match command {
        Commands::Script(ScriptCommands::Run(args)) => {
            let expect = expect_list(&args.expect);
            Ok(
                Dispatch::ScriptRun {
                    script_path: args.script_path.clone(),
                    args: copy_texts(&args.args),
                    expect,
                    allow_empty: args.allow_empty,
                },
            )
        },
        Commands::Script(ScriptCommands::Python(args)) => Ok(request1(
            "script_python",
            "code",
            text(args.code.as_str()),
        )),
        Commands::Script(ScriptCommands::Java(args)) => Ok(request1(
            "script_java",
            "code",
            text(args.code.as_str()),
        )),
        Commands::Script(ScriptCommands::List) => Ok(request0("script_list")),
        Commands::Batch(args) => Ok(Dispatch::Batch { script_file: args.script_file.clone() }),
        _ => Err(unsupported_error()),
    }
}

/// What `command` asks of the bridge, decided by the group it belongs to:
/// analysis; function views; listings; searches; edits; programs, memory,
/// diffs and raw commands; scripts and batch files. Any other command is
/// not a bridge command here ("Command not supported").
pub open spec fn dispatch_of(c: Commands, fetch: FetchParams, default_limit: Option<usize>) -> Result<
    DispatchM,
    Seq<char>,
> {
    match c {
        Commands::Analyze(_) => Ok(DispatchM::Analyze),
        Commands::Function(_) | Commands::Decompile(_) | Commands::DecompileMulti(_)
        | Commands::Disasm(_) => functions_dispatch_of(c, fetch, default_limit),
        Commands::Query(_) | Commands::Strings(_) | Commands::Dump(_) | Commands::Summary(_)
        | Commands::Stats(_) => lists_dispatch_of(c, fetch, default_limit),
        Commands::XRef(_) => xrefs_dispatch_of(c, fetch, default_limit),
        Commands::Graph(_) => graphs_dispatch_of(c, fetch, default_limit),
        Commands::Find(_) => finds_dispatch_of(c, fetch, default_limit),
        Commands::Symbol(_) | Commands::Type(_) | Commands::Tag(_) | Commands::Comment(_)
        | Commands::Patch(_) | Commands::Rename(_) => mutation_dispatch_of(c, fetch, default_limit),
        Commands::Program(_) | Commands::Memory(_) | Commands::Diff(_)
        | Commands::Raw(_) => programs_dispatch_of(c, fetch, default_limit),
        Commands::Script(_) | Commands::Batch(_) => scripts_dispatch_of(c, fetch, default_limit),
        _ => Err(unsupported()),
    }
}

/// What `command` asks of the bridge (see [`dispatch_of`]); `fetch` holds
/// the server-side paging and filter of its query plan.
pub fn dispatch(command: &Commands, fetch: &FetchParams, default_limit: Option<usize>) -> (r: Result<
    Dispatch,
    String,
>)
    requires
        targets_given(*command),
    ensures
        outcome_view(r) == dispatch_of(*command, *fetch, default_limit),
{
    match command {
        Commands::Analyze(_) => Ok(Dispatch::Analyze),
        Commands::Function(_) | Commands::Decompile(_) | Commands::DecompileMulti(_)
        | Commands::Disasm(_) => dispatch_functions(command, fetch, default_limit),
        Commands::Query(_) | Commands::Strings(_) | Commands::Dump(_) | Commands::Summary(_)
        | Commands::Stats(_) => dispatch_lists(command, fetch, default_limit),
        Commands::XRef(_) => dispatch_xrefs(command, fetch, default_limit),
        Commands::Graph(_) => dispatch_graphs(command, fetch, default_limit),
        Commands::Find(_) => dispatch_finds(command, fetch, default_limit),
        Commands::Symbol(_) | Commands::Type(_) | Commands::Tag(_) | Commands::Comment(_)
        | Commands::Patch(_) | Commands::Rename(_) => dispatch_mutation(command, fetch, default_limit),
        Commands::Program(_) | Commands::Memory(_) | Commands::Diff(_)
        | Commands::Raw(_) => dispatch_programs(command, fetch, default_limit),
        Commands::Script(_) | Commands::Batch(_) => dispatch_scripts(command, fetch, default_limit),
        _ => Err(unsupported_error()),
    }
}

/// The request carries `key` with `value`.
pub open spec fn carries(r: RequestM, key: Seq<char>, value: ArgM) -> bool {
    exists|i: int| 0 <= i < r.args.len() && (#[trigger] r.args[i]) == (key, value)
}

/// A command whose filter the plan pushes down to the bridge sends the
/// plan's fetch parameters: its request carries the plan's `filter`,
/// `limit` and `offset`, so the bridge filters, caps and pages exactly as
/// planned.
pub proof fn law_pushed_down_lists_send_the_plan(c: Commands, fetch: FetchParams, default_limit: Option<usize>)
    requires
        crate::run::filter_field_of(c) is Some,
    ensures
        dispatch_of(c, fetch, default_limit) matches Ok(DispatchM::Send(r)) && carries(
            r,
            "filter"@,
            opt_text_m(opt_view(fetch.filter)),
        ) && carries(r, "limit"@, opt_int_m(fetch.limit)) && carries(
            r,
            "offset"@,
            opt_int_m(fetch.offset),
        ),
{
    let d = dispatch_of(c, fetch, default_limit);
    let r = d->Ok_0->Send_0;
    assert(r.args[0].0 == "filter"@);
    assert(r.args[1].0 == "limit"@);
    assert(r.args[2].0 == "offset"@);
}

} // verus!
