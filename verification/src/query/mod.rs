//! Query processing: field and sort selection, and unwrapping of bridge
//! response envelopes. Fetch-versus-post planning lives in [`planner`].
use vstd::prelude::*;
use crate::error::GhidraError;
use crate::json::{entry_index, find_entry, lookup, JsonValue};
use crate::text::{
    chars_of, split_chars, split_on, string_from, strip_leading, strip_leading_chars, trim,
    trim_chars,
};

pub mod planner;
pub mod sorting;
pub mod pipeline;
pub mod pushdown;

verus! {

/// The pieces of a comma-separated list, each trimmed.
pub open spec fn comma_list(s: Seq<char>) -> Seq<Seq<char>> {
    split_on(s, ',').map_values(|p: Seq<char>| trim(p))
}

pub open spec fn strs(v: Seq<String>) -> Seq<Seq<char>> {
    v.map_values(|s: String| s@)
}

pub open spec fn opt_strs(o: Option<Vec<String>>) -> Option<Seq<Seq<char>>> {
    match o {
        Some(v) => Some(strs(v@)),
        None => None,
    }
}

/// Which fields to keep in each row.
#[derive(Debug)]
pub struct FieldSelector {
    pub included: Option<Vec<String>>,
    pub excluded: Option<Vec<String>>,
}

/// The fields that `--fields` text selects: a leading `-` means "all but
/// these" (every leading `-` is dropped), otherwise "only these".
pub open spec fn selector_of(input: Seq<char>) -> (Option<Seq<Seq<char>>>, Option<Seq<Seq<char>>>) {
    if input.len() > 0 && input[0] == '-' {
        (None, Some(comma_list(strip_leading(input, '-'))))
    } else {
        (Some(comma_list(input)), None)
    }
}

/// The trimmed comma-separated pieces of `s`, as strings.
pub fn comma_pieces(s: &Vec<char>) -> (r: Vec<String>)
    ensures
        strs(r@) == comma_list(s@),
{
    let parts = split_chars(s, ',');
    let ghost ps = split_on(s@, ',');
    assert(parts@.map_values(|p: Vec<char>| p@) == ps);
    let mut out: Vec<String> = Vec::new();
    let mut i: usize = 0;
    while i < parts.len()
        invariant
            parts@.map_values(|p: Vec<char>| p@) == ps,
            ps == split_on(s@, ','),
            0 <= i <= parts.len(),
            strs(out@) == ps.subrange(0, i as int).map_values(|p: Seq<char>| trim(p)),
        decreases parts.len() - i,
    {
        let t = trim_chars(&parts[i]);
        assert(parts@[i as int]@ == ps[i as int]);
        let ghost before = strs(out@);
        let st = string_from(&t);
        out.push(st);
        assert(strs(out@) =~= before.push(st@));
        assert(ps.subrange(0, i + 1).map_values(|p: Seq<char>| trim(p)) =~= ps.subrange(
            0,
            i as int,
        ).map_values(|p: Seq<char>| trim(p)).push(trim(ps[i as int])));
        i = i + 1;
    }
    assert(ps.subrange(0, ps.len() as int) =~= ps);
    out
}

impl FieldSelector {
    /// Keep only `fields`.
    pub fn including(fields: Vec<String>) -> (r: Self)
        ensures
            r.included == Some(fields),
            r.excluded is None,
    {
        Self { included: Some(fields), excluded: None }
    }

    /// Keep all but `fields`.
    pub fn exclude(fields: Vec<String>) -> (r: Self)
        ensures
            r.included is None,
            r.excluded == Some(fields),
    {
        Self { included: None, excluded: Some(fields) }
    }

    /// Parses `--fields` text (see [`selector_of`]); never fails.
    pub fn parse(input: &str) -> (r: Result<Self, GhidraError>)
        ensures
            r matches Ok(sel) && (opt_strs(sel.included), opt_strs(sel.excluded)) == selector_of(
                input@,
            ),
    {
        let s = chars_of(input);
        if s.len() > 0 && s[0] == '-' {
            let rest = strip_leading_chars(&s, '-');
            Ok(Self::exclude(comma_pieces(&rest)))
        } else {
            Ok(Self::including(comma_pieces(&s)))
        }
    }
}

/// One sort key.
#[derive(Debug)]
pub struct SortKey {
    pub field: String,
    pub descending: bool,
}

/// The key one trimmed `--sort` piece denotes.
pub open spec fn sort_key_of(piece: Seq<char>) -> (Seq<char>, bool) {
    if piece.len() > 0 && piece[0] == '-' {
        (strip_leading(piece, '-'), true)
    } else {
        (piece, false)
    }
}

pub open spec fn keys_model(v: Seq<SortKey>) -> Seq<(Seq<char>, bool)> {
    v.map_values(|k: SortKey| (k.field@, k.descending))
}

impl SortKey {
    /// Parses `--sort` text: comma-separated, trimmed; a leading `-` sorts
    /// that key descending.
    pub fn parse(input: &str) -> (r: Vec<Self>)
        ensures
            keys_model(r@) == comma_list(input@).map_values(|p: Seq<char>| sort_key_of(p)),
    {
        let s = chars_of(input);
        let pieces = comma_pieces(&s);
        let ghost ps = comma_list(input@);
        let mut out: Vec<SortKey> = Vec::new();
        let mut i: usize = 0;
        while i < pieces.len()
            invariant
                strs(pieces@) == ps,
                0 <= i <= pieces.len(),
                keys_model(out@) == ps.subrange(0, i as int).map_values(|p: Seq<char>| sort_key_of(p)),
            decreases pieces.len() - i,
        {
            let p = chars_of(pieces[i].as_str());
            assert(p@ == ps[i as int]);
            let key = if p.len() > 0 && p[0] == '-' {
                let f = strip_leading_chars(&p, '-');
                SortKey { field: string_from(&f), descending: true }
            } else {
                SortKey { field: string_from(&p), descending: false }
            };
            let ghost before = keys_model(out@);
            out.push(key);
            assert(keys_model(out@) =~= before.push(sort_key_of(ps[i as int])));
            assert(ps.subrange(0, i + 1).map_values(|p: Seq<char>| sort_key_of(p)) =~= ps.subrange(
                0,
                i as int,
            ).map_values(|p: Seq<char>| sort_key_of(p)).push(sort_key_of(ps[i as int])));
            i = i + 1;
        }
        assert(ps.subrange(0, ps.len() as int) =~= ps);
        out
    }
}


pub open spec fn envelope_spec(command: Seq<char>) -> Option<Seq<char>> {
    if command == "list_functions"@ {
        Some("functions"@)
    } else if command == "functions_range"@ {
        Some("functions"@)
    } else if command == "tag_get"@ {
        Some("functions"@)
    } else if command == "list_strings"@ {
        Some("strings"@)
    } else if command == "list_imports"@ {
        Some("imports"@)
    } else if command == "list_exports"@ {
        Some("exports"@)
    } else if command == "memory_map"@ {
        Some("blocks"@)
    } else if command == "xrefs_to"@ {
        Some("xrefs"@)
    } else if command == "xrefs_from"@ {
        Some("xrefs"@)
    } else if command == "xrefs_list"@ {
        Some("xrefs"@)
    } else if command == "list_programs"@ {
        Some("programs"@)
    } else if command == "find_string"@ {
        Some("results"@)
    } else if command == "find_bytes"@ {
        Some("results"@)
    } else if command == "find_function"@ {
        Some("results"@)
    } else if command == "find_calls"@ {
        Some("results"@)
    } else if command == "find_crypto"@ {
        Some("results"@)
    } else if command == "find_interesting"@ {
        Some("results"@)
    } else if command == "decompile_multi"@ {
        Some("results"@)
    } else if command == "find_constant"@ {
        Some("hits"@)
    } else if command == "find_instruction"@ {
        Some("matches"@)
    } else if command == "disasm"@ {
        Some("instructions"@)
    } else if command == "symbol_list"@ {
        Some("symbols"@)
    } else if command == "symbol_get"@ {
        Some("symbols"@)
    } else if command == "type_list"@ {
        Some("types"@)
    } else if command == "tag_list"@ {
        Some("tags"@)
    } else if command == "comment_list"@ {
        Some("comments"@)
    } else if command == "comment_get"@ {
        Some("comments"@)
    } else if command == "graph_callers"@ {
        Some("callers"@)
    } else if command == "graph_callees"@ {
        Some("callees"@)
    } else if command == "diff_programs"@ {
        Some("matches"@)
    } else {
        None
    }
}

/// The array key of a list-shaped response, by bridge command: the single
/// source of truth for which bridge commands return a list of rows.
pub fn envelope_key(command: &str) -> (r: Option<&'static str>)
    ensures
        r matches Some(k) ==> envelope_spec(command@) == Some(k@),
        r is None ==> envelope_spec(command@) is None,
{
    if crate::json::str_eq(command, "list_functions") {
        return Some("functions");
    }
    if crate::json::str_eq(command, "functions_range") {
        return Some("functions");
    }
    if crate::json::str_eq(command, "tag_get") {
        return Some("functions");
    }
    if crate::json::str_eq(command, "list_strings") {
        return Some("strings");
    }
    if crate::json::str_eq(command, "list_imports") {
        return Some("imports");
    }
    if crate::json::str_eq(command, "list_exports") {
        return Some("exports");
    }
    if crate::json::str_eq(command, "memory_map") {
        return Some("blocks");
    }
    if crate::json::str_eq(command, "xrefs_to") {
        return Some("xrefs");
    }
    if crate::json::str_eq(command, "xrefs_from") {
        return Some("xrefs");
    }
    if crate::json::str_eq(command, "xrefs_list") {
        return Some("xrefs");
    }
    if crate::json::str_eq(command, "list_programs") {
        return Some("programs");
    }
    if crate::json::str_eq(command, "find_string") {
        return Some("results");
    }
    if crate::json::str_eq(command, "find_bytes") {
        return Some("results");
    }
    if crate::json::str_eq(command, "find_function") {
        return Some("results");
    }
    if crate::json::str_eq(command, "find_calls") {
        return Some("results");
    }
    if crate::json::str_eq(command, "find_crypto") {
        return Some("results");
    }
    if crate::json::str_eq(command, "find_interesting") {
        return Some("results");
    }
    if crate::json::str_eq(command, "decompile_multi") {
        return Some("results");
    }
    if crate::json::str_eq(command, "find_constant") {
        return Some("hits");
    }
    if crate::json::str_eq(command, "find_instruction") {
        return Some("matches");
    }
    if crate::json::str_eq(command, "disasm") {
        return Some("instructions");
    }
    if crate::json::str_eq(command, "symbol_list") {
        return Some("symbols");
    }
    if crate::json::str_eq(command, "symbol_get") {
        return Some("symbols");
    }
    if crate::json::str_eq(command, "type_list") {
        return Some("types");
    }
    if crate::json::str_eq(command, "tag_list") {
        return Some("tags");
    }
    if crate::json::str_eq(command, "comment_list") {
        return Some("comments");
    }
    if crate::json::str_eq(command, "comment_get") {
        return Some("comments");
    }
    if crate::json::str_eq(command, "graph_callers") {
        return Some("callers");
    }
    if crate::json::str_eq(command, "graph_callees") {
        return Some("callees");
    }
    if crate::json::str_eq(command, "diff_programs") {
        return Some("matches");
    }
    None
}

/// Envelope keys that carry no rows.
pub open spec fn is_meta_key(k: Seq<char>) -> bool {
    k == "count"@
    || k == "target"@
    || k == "function"@
    || k == "command"@
    || k == "status"@
    || k == "current_program_name"@
    || k == "has_current_program"@
    || k == "data"@
    || k == "pattern"@
    || k == "scanned"@
    || k == "truncated"@
    || k == "value"@
    || k == "size"@
    || k == "method"@
    || k == "program1"@
    || k == "program2"@
    || k == "summary"@
    || k == "differ"@
}

/// Whether `k` is an envelope key that carries no rows.
pub fn meta_key(k: &str) -> (r: bool)
    ensures
        r == is_meta_key(k@),
{
    crate::json::str_eq(k, "count")
    || crate::json::str_eq(k, "target")
    || crate::json::str_eq(k, "function")
    || crate::json::str_eq(k, "command")
    || crate::json::str_eq(k, "status")
    || crate::json::str_eq(k, "current_program_name")
    || crate::json::str_eq(k, "has_current_program")
    || crate::json::str_eq(k, "data")
    || crate::json::str_eq(k, "pattern")
    || crate::json::str_eq(k, "scanned")
    || crate::json::str_eq(k, "truncated")
    || crate::json::str_eq(k, "value")
    || crate::json::str_eq(k, "size")
    || crate::json::str_eq(k, "method")
    || crate::json::str_eq(k, "program1")
    || crate::json::str_eq(k, "program2")
    || crate::json::str_eq(k, "summary")
    || crate::json::str_eq(k, "differ")
}

/// The rows a bridge response unwraps into (see [`unwrap_bridge_response`]).
pub open spec fn unwrap_case(v: JsonValue, command: Option<Seq<char>>) -> UnwrapCase {
    match v {
        JsonValue::Array(a) => UnwrapCase::Rows,
        JsonValue::Object(e) => if entry_index(e@, "code"@) is Some {
            UnwrapCase::Whole
        } else {
            match command {
                Some(c) => match envelope_spec(c) {
                    Some(key) => if entry_index(e@, key) is Some && (forall|i: int|
                        0 <= i < e@.len() ==> (#[trigger] e@[i]).0@ == key || is_meta_key(
                            e@[i].0@,
                        )) {
                        match lookup(e@, key) {
                            Some(JsonValue::Array(_)) => UnwrapCase::Inner(key),
                            _ => UnwrapCase::Whole,
                        }
                    } else {
                        UnwrapCase::Whole
                    },
                    None => UnwrapCase::Whole,
                },
                None => UnwrapCase::Whole,
            }
        },
        _ => UnwrapCase::Whole,
    }
}

/// How a response is unwrapped.
pub enum UnwrapCase {
    /// An array: its elements are the rows.
    Rows,
    /// A single row: the response as it is.
    Whole,
    /// An envelope: the array under the key is the rows.
    Inner(Seq<char>),
}

/// Unwraps a bridge response envelope into a flat list of rows.
///
/// An array is returned as it is; a decompile result (a `code` key) and any
/// other single object stay one row. `command` selects the envelope key
/// (see [`envelope_key`]); the object is unwrapped only when that key is
/// present, holds an array and every other key is metadata, so a response
/// whose shape drifted stays whole instead of losing fields.
pub fn unwrap_bridge_response(value: JsonValue, command: Option<&str>) -> (r: Vec<JsonValue>)
    ensures
        ({
            let c = match command {
                Some(x) => Some(x@),
                None => None,
            };
            match unwrap_case(value, c) {
                UnwrapCase::Rows => value == JsonValue::Array(r),
                UnwrapCase::Whole => r@ == seq![value],
                UnwrapCase::Inner(key) => lookup(value->Object_0@, key) == Some(JsonValue::Array(r)),
            }
        }),
{
    let mut entries = match value {
        JsonValue::Array(arr) => {
            return arr;
        },
        JsonValue::Object(map) => map,
        other => {
            let mut v = Vec::new();
            v.push(other);
            return v;
        },
    };
    let ghost orig = entries@;
    proof {
        reveal_strlit("code");
    }
    if find_entry(&entries, "code").is_some() {
        let mut v = Vec::new();
        v.push(JsonValue::Object(entries));
        return v;
    }
    let key = match command {
        Some(c) => match envelope_key(c) {
            Some(k) => k,
            None => {
                let mut v = Vec::new();
                v.push(JsonValue::Object(entries));
                return v;
            },
        },
        None => {
            let mut v = Vec::new();
            v.push(JsonValue::Object(entries));
            return v;
        },
    };
    let idx = find_entry(&entries, key);
    let mut all_meta = true;
    let mut i: usize = 0;
    while i < entries.len()
        invariant
            0 <= i <= entries.len(),
            all_meta == (forall|j: int| 0 <= j < i ==> (#[trigger] entries@[j]).0@ == key@ || is_meta_key(entries@[j].0@)),
        decreases entries.len() - i,
    {
        if !(crate::json::str_eq(entries[i].0.as_str(), key) || meta_key(entries[i].0.as_str())) {
            all_meta = false;
        }
        i = i + 1;
    }
    match idx {
        Some(k) => {
            if all_meta && matches!(entries[k].1, JsonValue::Array(_)) {
                let (_, removed) = entries.remove(k);
                match removed {
                    JsonValue::Array(arr) => {
                        return arr;
                    },
                    _ => {
                        let mut v = Vec::new();
                        v.push(JsonValue::Object(entries));
                        return v;
                    },
                }
            }
        },
        None => {},
    }
    let mut v = Vec::new();
    v.push(JsonValue::Object(entries));
    v
}

/// A response whose shape drifted is never unwrapped: an object holding a
/// member that is neither the command's envelope key nor metadata stays
/// one whole row, so no field is lost.
pub proof fn law_unwrap_keeps_drifted_shapes(value: JsonValue, command: Option<Seq<char>>, j: int)
    requires
        value matches JsonValue::Object(e) && 0 <= j < e@.len() && !is_meta_key(e@[j].0@) && (
        command matches Some(c) ==> envelope_spec(c) != Some(e@[j].0@)),
    ensures
        unwrap_case(value, command) == UnwrapCase::Whole,
{
}


/// An envelope unwraps into the array under the command's key whenever
/// every other member is one of the bridge's metadata members (`count`,
/// `target`, `function`, `command`, `status`, `current_program_name`,
/// `has_current_program`, `data`, `pattern`, `scanned`, `truncated`,
/// `value`, `size`, `method`, `program1`, `program2`, `summary`, `differ`)
/// and there is no `code` member: those members carry no rows, so nothing
/// is lost.
pub proof fn law_metadata_envelopes_unwrap(value: JsonValue, c: Seq<char>, key: Seq<char>)
    requires
        value matches JsonValue::Object(e) && envelope_spec(c) == Some(key) && entry_index(
            e@,
            "code"@,
        ) is None && (lookup(e@, key) matches Some(JsonValue::Array(_))) && forall|i: int|
            0 <= i < e@.len() ==> {
                let k = (#[trigger] e@[i]).0@;
                k == key
                || k == "count"@
                || k == "target"@
                || k == "function"@
                || k == "command"@
                || k == "status"@
                || k == "current_program_name"@
                || k == "has_current_program"@
                || k == "data"@
                || k == "pattern"@
                || k == "scanned"@
                || k == "truncated"@
                || k == "value"@
                || k == "size"@
                || k == "method"@
                || k == "program1"@
                || k == "program2"@
                || k == "summary"@
                || k == "differ"@
            },
    ensures
        unwrap_case(value, Some(c)) == UnwrapCase::Inner(key),
{
}


/// `n` dashes.
pub open spec fn dashes(n: nat) -> Seq<char> {
    Seq::new(n, |i: int| '-')
}

proof fn lemma_strip_dashes(s: Seq<char>)
    ensures
        strip_leading(s, '-').len() <= s.len(),
        s == Seq::new((s.len() - strip_leading(s, '-').len()) as nat, |i: int| '-') + strip_leading(s, '-'),
        strip_leading(s, '-').len() == 0 || strip_leading(s, '-')[0] != '-',
    decreases s.len(),
{
    if s.len() > 0 && s[0] == '-' {
        let t = s.drop_first();
        lemma_strip_dashes(t);
        let r = strip_leading(t, '-');
        let n = (t.len() - r.len()) as nat;
        assert(s =~= seq!['-'] + t);
        assert(Seq::new((n + 1) as nat, |i: int| '-') =~= seq!['-'] + Seq::new(n, |i: int| '-'));
    } else {
        assert(Seq::new(0, |i: int| '-') + s =~= s);
    }
}

/// A `--sort` piece sorts descending exactly when it starts with `-`; its
/// field is the piece without its leading dashes (so the field never starts
/// with one), and the piece is those dashes followed by the field.
pub proof fn law_sort_pieces(piece: Seq<char>)
    ensures
        sort_key_of(piece).1 <==> (piece.len() > 0 && piece[0] == '-'),
        sort_key_of(piece).1 ==> (sort_key_of(piece).0.len() == 0 || sort_key_of(piece).0[0] != '-'),
        exists|n: nat|
            (n > 0 <==> sort_key_of(piece).1) && piece == #[trigger] dashes(n) + sort_key_of(piece).0,
{
    lemma_strip_dashes(piece);
    if piece.len() > 0 && piece[0] == '-' {
        let n = (piece.len() - strip_leading(piece, '-').len()) as nat;
        assert(strip_leading(piece, '-').len() < piece.len()) by {
            lemma_strip_dashes(piece.drop_first());
        }
        assert(dashes(n) =~= Seq::new(n, |i: int| '-'));
        assert(n > 0 && piece == dashes(n) + sort_key_of(piece).0);
    } else {
        assert(piece =~= dashes(0) + piece);
    }
}

/// `--fields` excludes exactly when its text starts with `-` (the listed
/// fields are then the text without its leading dashes, split at commas),
/// and otherwise lists the fields to keep; it never does both.
pub proof fn law_fields_exclude_with_a_dash(input: Seq<char>)
    ensures
        (selector_of(input).1 is Some) <==> (input.len() > 0 && input[0] == '-'),
        (selector_of(input).0 is Some) <==> !(input.len() > 0 && input[0] == '-'),
        input.len() > 0 && input[0] == '-' ==> selector_of(input).1 == Some(
            comma_list(strip_leading(input, '-')),
        ),
        !(input.len() > 0 && input[0] == '-') ==> selector_of(input).0 == Some(comma_list(input)),
{
}


/// A response holding a `code` member (a decompilation) is never unwrapped,
/// whatever the command: it is one row, itself. A response that is an
/// array is its rows, and a response that is neither an array nor an
/// object is one row.
pub proof fn law_decompilations_stay_whole(value: JsonValue, command: Option<Seq<char>>)
    ensures
        (value matches JsonValue::Object(e) && exists|i: int|
            0 <= i < e@.len() && (#[trigger] e@[i]).0@ == "code"@) ==> unwrap_case(value, command)
            == UnwrapCase::Whole,
        value is Array ==> unwrap_case(value, command) == UnwrapCase::Rows,
        !(value is Array || value is Object) ==> unwrap_case(value, command) == UnwrapCase::Whole,
{
    if let JsonValue::Object(e) = value {
        if exists|i: int| 0 <= i < e@.len() && (#[trigger] e@[i]).0@ == "code"@ {
            let i = choose|i: int| 0 <= i < e@.len() && (#[trigger] e@[i]).0@ == "code"@;
            lemma_first_entry(e@, "code"@, i);
        }
    }
}

proof fn lemma_first_entry(entries: Seq<(String, JsonValue)>, key: Seq<char>, i: int)
    requires
        0 <= i < entries.len(),
        entries[i].0@ == key,
    ensures
        entry_index(entries, key) is Some,
    decreases entries.len(),
{
    if i < entries.len() - 1 {
        lemma_first_entry(entries.drop_last(), key, i);
    }
}


/// The wire commands that answer with an envelope, and the member holding
/// their rows: functions for the function listings and tag lookups,
/// strings, imports, exports, memory blocks, cross-references, programs,
/// search results, constant hits, instruction matches, disassembled
/// instructions, symbols, types, tags, comments, callers and callees, and
/// the BinDiff matches of `diff programs`.
pub proof fn law_envelope_members()
    ensures
        envelope_spec("list_functions"@) == Some("functions"@),
        envelope_spec("functions_range"@) == Some("functions"@),
        envelope_spec("tag_get"@) == Some("functions"@),
        envelope_spec("list_strings"@) == Some("strings"@),
        envelope_spec("list_imports"@) == Some("imports"@),
        envelope_spec("list_exports"@) == Some("exports"@),
        envelope_spec("memory_map"@) == Some("blocks"@),
        envelope_spec("xrefs_to"@) == Some("xrefs"@),
        envelope_spec("xrefs_from"@) == Some("xrefs"@),
        envelope_spec("xrefs_list"@) == Some("xrefs"@),
        envelope_spec("list_programs"@) == Some("programs"@),
        envelope_spec("find_string"@) == Some("results"@),
        envelope_spec("find_bytes"@) == Some("results"@),
        envelope_spec("find_function"@) == Some("results"@),
        envelope_spec("find_calls"@) == Some("results"@),
        envelope_spec("find_crypto"@) == Some("results"@),
        envelope_spec("find_interesting"@) == Some("results"@),
        envelope_spec("decompile_multi"@) == Some("results"@),
        envelope_spec("find_constant"@) == Some("hits"@),
        envelope_spec("find_instruction"@) == Some("matches"@),
        envelope_spec("disasm"@) == Some("instructions"@),
        envelope_spec("symbol_list"@) == Some("symbols"@),
        envelope_spec("symbol_get"@) == Some("symbols"@),
        envelope_spec("type_list"@) == Some("types"@),
        envelope_spec("tag_list"@) == Some("tags"@),
        envelope_spec("comment_list"@) == Some("comments"@),
        envelope_spec("comment_get"@) == Some("comments"@),
        envelope_spec("graph_callers"@) == Some("callers"@),
        envelope_spec("graph_callees"@) == Some("callees"@),
        envelope_spec("diff_programs"@) == Some("matches"@),
{
    reveal_strlit("list_functions");
    reveal_strlit("functions_range");
    reveal_strlit("tag_get");
    reveal_strlit("list_strings");
    reveal_strlit("list_imports");
    reveal_strlit("list_exports");
    reveal_strlit("memory_map");
    reveal_strlit("xrefs_to");
    reveal_strlit("xrefs_from");
    reveal_strlit("xrefs_list");
    reveal_strlit("list_programs");
    reveal_strlit("find_string");
    reveal_strlit("find_bytes");
    reveal_strlit("find_function");
    reveal_strlit("find_calls");
    reveal_strlit("find_crypto");
    reveal_strlit("find_interesting");
    reveal_strlit("decompile_multi");
    reveal_strlit("find_constant");
    reveal_strlit("find_instruction");
    reveal_strlit("disasm");
    reveal_strlit("symbol_list");
    reveal_strlit("symbol_get");
    reveal_strlit("type_list");
    reveal_strlit("tag_list");
    reveal_strlit("comment_list");
    reveal_strlit("comment_get");
    reveal_strlit("graph_callers");
    reveal_strlit("graph_callees");
    reveal_strlit("diff_programs");
    assert(envelope_spec("list_functions"@) == Some("functions"@)) by {

    }
    assert(envelope_spec("functions_range"@) == Some("functions"@)) by {
        assert("functions_range"@.len() != "list_functions"@.len());
    }
    assert(envelope_spec("tag_get"@) == Some("functions"@)) by {
        assert("tag_get"@.len() != "list_functions"@.len());
        assert("tag_get"@.len() != "functions_range"@.len());
    }
    assert(envelope_spec("list_strings"@) == Some("strings"@)) by {
        assert("list_strings"@.len() != "list_functions"@.len());
        assert("list_strings"@.len() != "functions_range"@.len());
        assert("list_strings"@.len() != "tag_get"@.len());
    }
    assert(envelope_spec("list_imports"@) == Some("imports"@)) by {
        assert("list_imports"@.len() != "list_functions"@.len());
        assert("list_imports"@.len() != "functions_range"@.len());
        assert("list_imports"@.len() != "tag_get"@.len());
        assert("list_imports"@[5] != "list_strings"@[5]);
    }
    assert(envelope_spec("list_exports"@) == Some("exports"@)) by {
        assert("list_exports"@.len() != "list_functions"@.len());
        assert("list_exports"@.len() != "functions_range"@.len());
        assert("list_exports"@.len() != "tag_get"@.len());
        assert("list_exports"@[5] != "list_strings"@[5]);
        assert("list_exports"@[5] != "list_imports"@[5]);
    }
    assert(envelope_spec("memory_map"@) == Some("blocks"@)) by {
        assert("memory_map"@.len() != "list_functions"@.len());
        assert("memory_map"@.len() != "functions_range"@.len());
        assert("memory_map"@.len() != "tag_get"@.len());
        assert("memory_map"@.len() != "list_strings"@.len());
        assert("memory_map"@.len() != "list_imports"@.len());
        assert("memory_map"@.len() != "list_exports"@.len());
    }
    assert(envelope_spec("xrefs_to"@) == Some("xrefs"@)) by {
        assert("xrefs_to"@.len() != "list_functions"@.len());
        assert("xrefs_to"@.len() != "functions_range"@.len());
        assert("xrefs_to"@.len() != "tag_get"@.len());
        assert("xrefs_to"@.len() != "list_strings"@.len());
        assert("xrefs_to"@.len() != "list_imports"@.len());
        assert("xrefs_to"@.len() != "list_exports"@.len());
        assert("xrefs_to"@.len() != "memory_map"@.len());
    }
    assert(envelope_spec("xrefs_from"@) == Some("xrefs"@)) by {
        assert("xrefs_from"@.len() != "list_functions"@.len());
        assert("xrefs_from"@.len() != "functions_range"@.len());
        assert("xrefs_from"@.len() != "tag_get"@.len());
        assert("xrefs_from"@.len() != "list_strings"@.len());
        assert("xrefs_from"@.len() != "list_imports"@.len());
        assert("xrefs_from"@.len() != "list_exports"@.len());
        assert("xrefs_from"@[0] != "memory_map"@[0]);
        assert("xrefs_from"@.len() != "xrefs_to"@.len());
    }
    assert(envelope_spec("xrefs_list"@) == Some("xrefs"@)) by {
        assert("xrefs_list"@.len() != "list_functions"@.len());
        assert("xrefs_list"@.len() != "functions_range"@.len());
        assert("xrefs_list"@.len() != "tag_get"@.len());
        assert("xrefs_list"@.len() != "list_strings"@.len());
        assert("xrefs_list"@.len() != "list_imports"@.len());
        assert("xrefs_list"@.len() != "list_exports"@.len());
        assert("xrefs_list"@[0] != "memory_map"@[0]);
        assert("xrefs_list"@.len() != "xrefs_to"@.len());
        assert("xrefs_list"@[6] != "xrefs_from"@[6]);
    }
    assert(envelope_spec("list_programs"@) == Some("programs"@)) by {
        assert("list_programs"@.len() != "list_functions"@.len());
        assert("list_programs"@.len() != "functions_range"@.len());
        assert("list_programs"@.len() != "tag_get"@.len());
        assert("list_programs"@.len() != "list_strings"@.len());
        assert("list_programs"@.len() != "list_imports"@.len());
        assert("list_programs"@.len() != "list_exports"@.len());
        assert("list_programs"@.len() != "memory_map"@.len());
        assert("list_programs"@.len() != "xrefs_to"@.len());
        assert("list_programs"@.len() != "xrefs_from"@.len());
        assert("list_programs"@.len() != "xrefs_list"@.len());
    }
    assert(envelope_spec("find_string"@) == Some("results"@)) by {
        assert("find_string"@.len() != "list_functions"@.len());
        assert("find_string"@.len() != "functions_range"@.len());
        assert("find_string"@.len() != "tag_get"@.len());
        assert("find_string"@.len() != "list_strings"@.len());
        assert("find_string"@.len() != "list_imports"@.len());
        assert("find_string"@.len() != "list_exports"@.len());
        assert("find_string"@.len() != "memory_map"@.len());
        assert("find_string"@.len() != "xrefs_to"@.len());
        assert("find_string"@.len() != "xrefs_from"@.len());
        assert("find_string"@.len() != "xrefs_list"@.len());
        assert("find_string"@.len() != "list_programs"@.len());
    }
    assert(envelope_spec("find_bytes"@) == Some("results"@)) by {
        assert("find_bytes"@.len() != "list_functions"@.len());
        assert("find_bytes"@.len() != "functions_range"@.len());
        assert("find_bytes"@.len() != "tag_get"@.len());
        assert("find_bytes"@.len() != "list_strings"@.len());
        assert("find_bytes"@.len() != "list_imports"@.len());
        assert("find_bytes"@.len() != "list_exports"@.len());
        assert("find_bytes"@[0] != "memory_map"@[0]);
        assert("find_bytes"@.len() != "xrefs_to"@.len());
        assert("find_bytes"@[0] != "xrefs_from"@[0]);
        assert("find_bytes"@[0] != "xrefs_list"@[0]);
        assert("find_bytes"@.len() != "list_programs"@.len());
        assert("find_bytes"@.len() != "find_string"@.len());
    }
    assert(envelope_spec("find_function"@) == Some("results"@)) by {
        assert("find_function"@.len() != "list_functions"@.len());
        assert("find_function"@.len() != "functions_range"@.len());
        assert("find_function"@.len() != "tag_get"@.len());
        assert("find_function"@.len() != "list_strings"@.len());
        assert("find_function"@.len() != "list_imports"@.len());
        assert("find_function"@.len() != "list_exports"@.len());
        assert("find_function"@.len() != "memory_map"@.len());
        assert("find_function"@.len() != "xrefs_to"@.len());
        assert("find_function"@.len() != "xrefs_from"@.len());
        assert("find_function"@.len() != "xrefs_list"@.len());
        assert("find_function"@[0] != "list_programs"@[0]);
        assert("find_function"@.len() != "find_string"@.len());
        assert("find_function"@.len() != "find_bytes"@.len());
    }
    assert(envelope_spec("find_calls"@) == Some("results"@)) by {
        assert("find_calls"@.len() != "list_functions"@.len());
        assert("find_calls"@.len() != "functions_range"@.len());
        assert("find_calls"@.len() != "tag_get"@.len());
        assert("find_calls"@.len() != "list_strings"@.len());
        assert("find_calls"@.len() != "list_imports"@.len());
        assert("find_calls"@.len() != "list_exports"@.len());
        assert("find_calls"@[0] != "memory_map"@[0]);
        assert("find_calls"@.len() != "xrefs_to"@.len());
        assert("find_calls"@[0] != "xrefs_from"@[0]);
        assert("find_calls"@[0] != "xrefs_list"@[0]);
        assert("find_calls"@.len() != "list_programs"@.len());
        assert("find_calls"@.len() != "find_string"@.len());
        assert("find_calls"@[5] != "find_bytes"@[5]);
        assert("find_calls"@.len() != "find_function"@.len());
    }
    assert(envelope_spec("find_crypto"@) == Some("results"@)) by {
        assert("find_crypto"@.len() != "list_functions"@.len());
        assert("find_crypto"@.len() != "functions_range"@.len());
        assert("find_crypto"@.len() != "tag_get"@.len());
        assert("find_crypto"@.len() != "list_strings"@.len());
        assert("find_crypto"@.len() != "list_imports"@.len());
        assert("find_crypto"@.len() != "list_exports"@.len());
        assert("find_crypto"@.len() != "memory_map"@.len());
        assert("find_crypto"@.len() != "xrefs_to"@.len());
        assert("find_crypto"@.len() != "xrefs_from"@.len());
        assert("find_crypto"@.len() != "xrefs_list"@.len());
        assert("find_crypto"@.len() != "list_programs"@.len());
        assert("find_crypto"@[5] != "find_string"@[5]);
        assert("find_crypto"@.len() != "find_bytes"@.len());
        assert("find_crypto"@.len() != "find_function"@.len());
        assert("find_crypto"@.len() != "find_calls"@.len());
    }
    assert(envelope_spec("find_interesting"@) == Some("results"@)) by {
        assert("find_interesting"@.len() != "list_functions"@.len());
        assert("find_interesting"@.len() != "functions_range"@.len());
        assert("find_interesting"@.len() != "tag_get"@.len());
        assert("find_interesting"@.len() != "list_strings"@.len());
        assert("find_interesting"@.len() != "list_imports"@.len());
        assert("find_interesting"@.len() != "list_exports"@.len());
        assert("find_interesting"@.len() != "memory_map"@.len());
        assert("find_interesting"@.len() != "xrefs_to"@.len());
        assert("find_interesting"@.len() != "xrefs_from"@.len());
        assert("find_interesting"@.len() != "xrefs_list"@.len());
        assert("find_interesting"@.len() != "list_programs"@.len());
        assert("find_interesting"@.len() != "find_string"@.len());
        assert("find_interesting"@.len() != "find_bytes"@.len());
        assert("find_interesting"@.len() != "find_function"@.len());
        assert("find_interesting"@.len() != "find_calls"@.len());
        assert("find_interesting"@.len() != "find_crypto"@.len());
    }
    assert(envelope_spec("decompile_multi"@) == Some("results"@)) by {
        assert("decompile_multi"@.len() != "list_functions"@.len());
        assert("decompile_multi"@[0] != "functions_range"@[0]);
        assert("decompile_multi"@.len() != "tag_get"@.len());
        assert("decompile_multi"@.len() != "list_strings"@.len());
        assert("decompile_multi"@.len() != "list_imports"@.len());
        assert("decompile_multi"@.len() != "list_exports"@.len());
        assert("decompile_multi"@.len() != "memory_map"@.len());
        assert("decompile_multi"@.len() != "xrefs_to"@.len());
        assert("decompile_multi"@.len() != "xrefs_from"@.len());
        assert("decompile_multi"@.len() != "xrefs_list"@.len());
        assert("decompile_multi"@.len() != "list_programs"@.len());
        assert("decompile_multi"@.len() != "find_string"@.len());
        assert("decompile_multi"@.len() != "find_bytes"@.len());
        assert("decompile_multi"@.len() != "find_function"@.len());
        assert("decompile_multi"@.len() != "find_calls"@.len());
        assert("decompile_multi"@.len() != "find_crypto"@.len());
        assert("decompile_multi"@.len() != "find_interesting"@.len());
    }
    assert(envelope_spec("find_constant"@) == Some("hits"@)) by {
        assert("find_constant"@.len() != "list_functions"@.len());
        assert("find_constant"@.len() != "functions_range"@.len());
        assert("find_constant"@.len() != "tag_get"@.len());
        assert("find_constant"@.len() != "list_strings"@.len());
        assert("find_constant"@.len() != "list_imports"@.len());
        assert("find_constant"@.len() != "list_exports"@.len());
        assert("find_constant"@.len() != "memory_map"@.len());
        assert("find_constant"@.len() != "xrefs_to"@.len());
        assert("find_constant"@.len() != "xrefs_from"@.len());
        assert("find_constant"@.len() != "xrefs_list"@.len());
        assert("find_constant"@[0] != "list_programs"@[0]);
        assert("find_constant"@.len() != "find_string"@.len());
        assert("find_constant"@.len() != "find_bytes"@.len());
        assert("find_constant"@[5] != "find_function"@[5]);
        assert("find_constant"@.len() != "find_calls"@.len());
        assert("find_constant"@.len() != "find_crypto"@.len());
        assert("find_constant"@.len() != "find_interesting"@.len());
        assert("find_constant"@.len() != "decompile_multi"@.len());
    }
    assert(envelope_spec("find_instruction"@) == Some("matches"@)) by {
        assert("find_instruction"@.len() != "list_functions"@.len());
        assert("find_instruction"@.len() != "functions_range"@.len());
        assert("find_instruction"@.len() != "tag_get"@.len());
        assert("find_instruction"@.len() != "list_strings"@.len());
        assert("find_instruction"@.len() != "list_imports"@.len());
        assert("find_instruction"@.len() != "list_exports"@.len());
        assert("find_instruction"@.len() != "memory_map"@.len());
        assert("find_instruction"@.len() != "xrefs_to"@.len());
        assert("find_instruction"@.len() != "xrefs_from"@.len());
        assert("find_instruction"@.len() != "xrefs_list"@.len());
        assert("find_instruction"@.len() != "list_programs"@.len());
        assert("find_instruction"@.len() != "find_string"@.len());
        assert("find_instruction"@.len() != "find_bytes"@.len());
        assert("find_instruction"@.len() != "find_function"@.len());
        assert("find_instruction"@.len() != "find_calls"@.len());
        assert("find_instruction"@.len() != "find_crypto"@.len());
        assert("find_instruction"@[7] != "find_interesting"@[7]);
        assert("find_instruction"@.len() != "decompile_multi"@.len());
        assert("find_instruction"@.len() != "find_constant"@.len());
    }
    assert(envelope_spec("disasm"@) == Some("instructions"@)) by {
        assert("disasm"@.len() != "list_functions"@.len());
        assert("disasm"@.len() != "functions_range"@.len());
        assert("disasm"@.len() != "tag_get"@.len());
        assert("disasm"@.len() != "list_strings"@.len());
        assert("disasm"@.len() != "list_imports"@.len());
        assert("disasm"@.len() != "list_exports"@.len());
        assert("disasm"@.len() != "memory_map"@.len());
        assert("disasm"@.len() != "xrefs_to"@.len());
        assert("disasm"@.len() != "xrefs_from"@.len());
        assert("disasm"@.len() != "xrefs_list"@.len());
        assert("disasm"@.len() != "list_programs"@.len());
        assert("disasm"@.len() != "find_string"@.len());
        assert("disasm"@.len() != "find_bytes"@.len());
        assert("disasm"@.len() != "find_function"@.len());
        assert("disasm"@.len() != "find_calls"@.len());
        assert("disasm"@.len() != "find_crypto"@.len());
        assert("disasm"@.len() != "find_interesting"@.len());
        assert("disasm"@.len() != "decompile_multi"@.len());
        assert("disasm"@.len() != "find_constant"@.len());
        assert("disasm"@.len() != "find_instruction"@.len());
    }
    assert(envelope_spec("symbol_list"@) == Some("symbols"@)) by {
        assert("symbol_list"@.len() != "list_functions"@.len());
        assert("symbol_list"@.len() != "functions_range"@.len());
        assert("symbol_list"@.len() != "tag_get"@.len());
        assert("symbol_list"@.len() != "list_strings"@.len());
        assert("symbol_list"@.len() != "list_imports"@.len());
        assert("symbol_list"@.len() != "list_exports"@.len());
        assert("symbol_list"@.len() != "memory_map"@.len());
        assert("symbol_list"@.len() != "xrefs_to"@.len());
        assert("symbol_list"@.len() != "xrefs_from"@.len());
        assert("symbol_list"@.len() != "xrefs_list"@.len());
        assert("symbol_list"@.len() != "list_programs"@.len());
        assert("symbol_list"@[0] != "find_string"@[0]);
        assert("symbol_list"@.len() != "find_bytes"@.len());
        assert("symbol_list"@.len() != "find_function"@.len());
        assert("symbol_list"@.len() != "find_calls"@.len());
        assert("symbol_list"@[0] != "find_crypto"@[0]);
        assert("symbol_list"@.len() != "find_interesting"@.len());
        assert("symbol_list"@.len() != "decompile_multi"@.len());
        assert("symbol_list"@.len() != "find_constant"@.len());
        assert("symbol_list"@.len() != "find_instruction"@.len());
        assert("symbol_list"@.len() != "disasm"@.len());
    }
    assert(envelope_spec("symbol_get"@) == Some("symbols"@)) by {
        assert("symbol_get"@.len() != "list_functions"@.len());
        assert("symbol_get"@.len() != "functions_range"@.len());
        assert("symbol_get"@.len() != "tag_get"@.len());
        assert("symbol_get"@.len() != "list_strings"@.len());
        assert("symbol_get"@.len() != "list_imports"@.len());
        assert("symbol_get"@.len() != "list_exports"@.len());
        assert("symbol_get"@[0] != "memory_map"@[0]);
        assert("symbol_get"@.len() != "xrefs_to"@.len());
        assert("symbol_get"@[0] != "xrefs_from"@[0]);
        assert("symbol_get"@[0] != "xrefs_list"@[0]);
        assert("symbol_get"@.len() != "list_programs"@.len());
        assert("symbol_get"@.len() != "find_string"@.len());
        assert("symbol_get"@[0] != "find_bytes"@[0]);
        assert("symbol_get"@.len() != "find_function"@.len());
        assert("symbol_get"@[0] != "find_calls"@[0]);
        assert("symbol_get"@.len() != "find_crypto"@.len());
        assert("symbol_get"@.len() != "find_interesting"@.len());
        assert("symbol_get"@.len() != "decompile_multi"@.len());
        assert("symbol_get"@.len() != "find_constant"@.len());
        assert("symbol_get"@.len() != "find_instruction"@.len());
        assert("symbol_get"@.len() != "disasm"@.len());
        assert("symbol_get"@.len() != "symbol_list"@.len());
    }
    assert(envelope_spec("type_list"@) == Some("types"@)) by {
        assert("type_list"@.len() != "list_functions"@.len());
        assert("type_list"@.len() != "functions_range"@.len());
        assert("type_list"@.len() != "tag_get"@.len());
        assert("type_list"@.len() != "list_strings"@.len());
        assert("type_list"@.len() != "list_imports"@.len());
        assert("type_list"@.len() != "list_exports"@.len());
        assert("type_list"@.len() != "memory_map"@.len());
        assert("type_list"@.len() != "xrefs_to"@.len());
        assert("type_list"@.len() != "xrefs_from"@.len());
        assert("type_list"@.len() != "xrefs_list"@.len());
        assert("type_list"@.len() != "list_programs"@.len());
        assert("type_list"@.len() != "find_string"@.len());
        assert("type_list"@.len() != "find_bytes"@.len());
        assert("type_list"@.len() != "find_function"@.len());
        assert("type_list"@.len() != "find_calls"@.len());
        assert("type_list"@.len() != "find_crypto"@.len());
        assert("type_list"@.len() != "find_interesting"@.len());
        assert("type_list"@.len() != "decompile_multi"@.len());
        assert("type_list"@.len() != "find_constant"@.len());
        assert("type_list"@.len() != "find_instruction"@.len());
        assert("type_list"@.len() != "disasm"@.len());
        assert("type_list"@.len() != "symbol_list"@.len());
        assert("type_list"@.len() != "symbol_get"@.len());
    }
    assert(envelope_spec("tag_list"@) == Some("tags"@)) by {
        assert("tag_list"@.len() != "list_functions"@.len());
        assert("tag_list"@.len() != "functions_range"@.len());
        assert("tag_list"@.len() != "tag_get"@.len());
        assert("tag_list"@.len() != "list_strings"@.len());
        assert("tag_list"@.len() != "list_imports"@.len());
        assert("tag_list"@.len() != "list_exports"@.len());
        assert("tag_list"@.len() != "memory_map"@.len());
        assert("tag_list"@[0] != "xrefs_to"@[0]);
        assert("tag_list"@.len() != "xrefs_from"@.len());
        assert("tag_list"@.len() != "xrefs_list"@.len());
        assert("tag_list"@.len() != "list_programs"@.len());
        assert("tag_list"@.len() != "find_string"@.len());
        assert("tag_list"@.len() != "find_bytes"@.len());
        assert("tag_list"@.len() != "find_function"@.len());
        assert("tag_list"@.len() != "find_calls"@.len());
        assert("tag_list"@.len() != "find_crypto"@.len());
        assert("tag_list"@.len() != "find_interesting"@.len());
        assert("tag_list"@.len() != "decompile_multi"@.len());
        assert("tag_list"@.len() != "find_constant"@.len());
        assert("tag_list"@.len() != "find_instruction"@.len());
        assert("tag_list"@.len() != "disasm"@.len());
        assert("tag_list"@.len() != "symbol_list"@.len());
        assert("tag_list"@.len() != "symbol_get"@.len());
        assert("tag_list"@.len() != "type_list"@.len());
    }
    assert(envelope_spec("comment_list"@) == Some("comments"@)) by {
        assert("comment_list"@.len() != "list_functions"@.len());
        assert("comment_list"@.len() != "functions_range"@.len());
        assert("comment_list"@.len() != "tag_get"@.len());
        assert("comment_list"@[0] != "list_strings"@[0]);
        assert("comment_list"@[0] != "list_imports"@[0]);
        assert("comment_list"@[0] != "list_exports"@[0]);
        assert("comment_list"@.len() != "memory_map"@.len());
        assert("comment_list"@.len() != "xrefs_to"@.len());
        assert("comment_list"@.len() != "xrefs_from"@.len());
        assert("comment_list"@.len() != "xrefs_list"@.len());
        assert("comment_list"@.len() != "list_programs"@.len());
        assert("comment_list"@.len() != "find_string"@.len());
        assert("comment_list"@.len() != "find_bytes"@.len());
        assert("comment_list"@.len() != "find_function"@.len());
        assert("comment_list"@.len() != "find_calls"@.len());
        assert("comment_list"@.len() != "find_crypto"@.len());
        assert("comment_list"@.len() != "find_interesting"@.len());
        assert("comment_list"@.len() != "decompile_multi"@.len());
        assert("comment_list"@.len() != "find_constant"@.len());
        assert("comment_list"@.len() != "find_instruction"@.len());
        assert("comment_list"@.len() != "disasm"@.len());
        assert("comment_list"@.len() != "symbol_list"@.len());
        assert("comment_list"@.len() != "symbol_get"@.len());
        assert("comment_list"@.len() != "type_list"@.len());
        assert("comment_list"@.len() != "tag_list"@.len());
    }
    assert(envelope_spec("comment_get"@) == Some("comments"@)) by {
        assert("comment_get"@.len() != "list_functions"@.len());
        assert("comment_get"@.len() != "functions_range"@.len());
        assert("comment_get"@.len() != "tag_get"@.len());
        assert("comment_get"@.len() != "list_strings"@.len());
        assert("comment_get"@.len() != "list_imports"@.len());
        assert("comment_get"@.len() != "list_exports"@.len());
        assert("comment_get"@.len() != "memory_map"@.len());
        assert("comment_get"@.len() != "xrefs_to"@.len());
        assert("comment_get"@.len() != "xrefs_from"@.len());
        assert("comment_get"@.len() != "xrefs_list"@.len());
        assert("comment_get"@.len() != "list_programs"@.len());
        assert("comment_get"@[0] != "find_string"@[0]);
        assert("comment_get"@.len() != "find_bytes"@.len());
        assert("comment_get"@.len() != "find_function"@.len());
        assert("comment_get"@.len() != "find_calls"@.len());
        assert("comment_get"@[0] != "find_crypto"@[0]);
        assert("comment_get"@.len() != "find_interesting"@.len());
        assert("comment_get"@.len() != "decompile_multi"@.len());
        assert("comment_get"@.len() != "find_constant"@.len());
        assert("comment_get"@.len() != "find_instruction"@.len());
        assert("comment_get"@.len() != "disasm"@.len());
        assert("comment_get"@[0] != "symbol_list"@[0]);
        assert("comment_get"@.len() != "symbol_get"@.len());
        assert("comment_get"@.len() != "type_list"@.len());
        assert("comment_get"@.len() != "tag_list"@.len());
        assert("comment_get"@.len() != "comment_list"@.len());
    }
    assert(envelope_spec("graph_callers"@) == Some("callers"@)) by {
        assert("graph_callers"@.len() != "list_functions"@.len());
        assert("graph_callers"@.len() != "functions_range"@.len());
        assert("graph_callers"@.len() != "tag_get"@.len());
        assert("graph_callers"@.len() != "list_strings"@.len());
        assert("graph_callers"@.len() != "list_imports"@.len());
        assert("graph_callers"@.len() != "list_exports"@.len());
        assert("graph_callers"@.len() != "memory_map"@.len());
        assert("graph_callers"@.len() != "xrefs_to"@.len());
        assert("graph_callers"@.len() != "xrefs_from"@.len());
        assert("graph_callers"@.len() != "xrefs_list"@.len());
        assert("graph_callers"@[0] != "list_programs"@[0]);
        assert("graph_callers"@.len() != "find_string"@.len());
        assert("graph_callers"@.len() != "find_bytes"@.len());
        assert("graph_callers"@[0] != "find_function"@[0]);
        assert("graph_callers"@.len() != "find_calls"@.len());
        assert("graph_callers"@.len() != "find_crypto"@.len());
        assert("graph_callers"@.len() != "find_interesting"@.len());
        assert("graph_callers"@.len() != "decompile_multi"@.len());
        assert("graph_callers"@[0] != "find_constant"@[0]);
        assert("graph_callers"@.len() != "find_instruction"@.len());
        assert("graph_callers"@.len() != "disasm"@.len());
        assert("graph_callers"@.len() != "symbol_list"@.len());
        assert("graph_callers"@.len() != "symbol_get"@.len());
        assert("graph_callers"@.len() != "type_list"@.len());
        assert("graph_callers"@.len() != "tag_list"@.len());
        assert("graph_callers"@.len() != "comment_list"@.len());
        assert("graph_callers"@.len() != "comment_get"@.len());
    }
    assert(envelope_spec("graph_callees"@) == Some("callees"@)) by {
        assert("graph_callees"@.len() != "list_functions"@.len());
        assert("graph_callees"@.len() != "functions_range"@.len());
        assert("graph_callees"@.len() != "tag_get"@.len());
        assert("graph_callees"@.len() != "list_strings"@.len());
        assert("graph_callees"@.len() != "list_imports"@.len());
        assert("graph_callees"@.len() != "list_exports"@.len());
        assert("graph_callees"@.len() != "memory_map"@.len());
        assert("graph_callees"@.len() != "xrefs_to"@.len());
        assert("graph_callees"@.len() != "xrefs_from"@.len());
        assert("graph_callees"@.len() != "xrefs_list"@.len());
        assert("graph_callees"@[0] != "list_programs"@[0]);
        assert("graph_callees"@.len() != "find_string"@.len());
        assert("graph_callees"@.len() != "find_bytes"@.len());
        assert("graph_callees"@[0] != "find_function"@[0]);
        assert("graph_callees"@.len() != "find_calls"@.len());
        assert("graph_callees"@.len() != "find_crypto"@.len());
        assert("graph_callees"@.len() != "find_interesting"@.len());
        assert("graph_callees"@.len() != "decompile_multi"@.len());
        assert("graph_callees"@[0] != "find_constant"@[0]);
        assert("graph_callees"@.len() != "find_instruction"@.len());
        assert("graph_callees"@.len() != "disasm"@.len());
        assert("graph_callees"@.len() != "symbol_list"@.len());
        assert("graph_callees"@.len() != "symbol_get"@.len());
        assert("graph_callees"@.len() != "type_list"@.len());
        assert("graph_callees"@.len() != "tag_list"@.len());
        assert("graph_callees"@.len() != "comment_list"@.len());
        assert("graph_callees"@.len() != "comment_get"@.len());
        assert("graph_callees"@[11] != "graph_callers"@[11]);
    }
    assert(envelope_spec("diff_programs"@) == Some("matches"@)) by {
        assert("diff_programs"@.len() != "list_functions"@.len());
        assert("diff_programs"@.len() != "functions_range"@.len());
        assert("diff_programs"@.len() != "tag_get"@.len());
        assert("diff_programs"@.len() != "list_strings"@.len());
        assert("diff_programs"@.len() != "list_imports"@.len());
        assert("diff_programs"@.len() != "list_exports"@.len());
        assert("diff_programs"@.len() != "memory_map"@.len());
        assert("diff_programs"@.len() != "xrefs_to"@.len());
        assert("diff_programs"@.len() != "xrefs_from"@.len());
        assert("diff_programs"@.len() != "xrefs_list"@.len());
        assert("diff_programs"@[0] != "list_programs"@[0]);
        assert("diff_programs"@.len() != "find_string"@.len());
        assert("diff_programs"@.len() != "find_bytes"@.len());
        assert("diff_programs"@[0] != "find_function"@[0]);
        assert("diff_programs"@.len() != "find_calls"@.len());
        assert("diff_programs"@.len() != "find_crypto"@.len());
        assert("diff_programs"@.len() != "find_interesting"@.len());
        assert("diff_programs"@.len() != "decompile_multi"@.len());
        assert("diff_programs"@[0] != "find_constant"@[0]);
        assert("diff_programs"@.len() != "find_instruction"@.len());
        assert("diff_programs"@.len() != "disasm"@.len());
        assert("diff_programs"@.len() != "symbol_list"@.len());
        assert("diff_programs"@.len() != "symbol_get"@.len());
        assert("diff_programs"@.len() != "type_list"@.len());
        assert("diff_programs"@.len() != "tag_list"@.len());
        assert("diff_programs"@.len() != "comment_list"@.len());
        assert("diff_programs"@.len() != "comment_get"@.len());
        assert("diff_programs"@[0] != "graph_callers"@[0]);
        assert("diff_programs"@[0] != "graph_callees"@[0]);
    }
}

} // verus!
