//! `diff programs`: checking the bridge's export answer, and shaping the
//! BinDiff matches and the functions either program alone has into the
//! result envelope.
use vstd::prelude::*;
use vstd::string::*;
use crate::cli::DiffProgramsArgs;
use crate::format::rows::str_of;
use crate::filter::numbers::{
    decimal_of, decimal_relation, f64_agrees, number_decimal, number_vs_decimal, number_vs_scaled,
};
use crate::filter::CompareOp;
use crate::json::{member, push_str, JsonNumber, JsonValue};
use crate::query::planner::opt_view;
use crate::run::{ghidra_addr, parse_ghidra_addr};
use crate::text::{lowercase, string_push};

verus! {

broadcast use vstd::string::group_string_axioms;

/// The text of the string member `key`, if any.
pub open spec fn str_at(v: JsonValue, key: Seq<char>) -> Option<Seq<char>> {
    str_of(member(v, key))
}

/// Why an export answer is not usable, with a hint when it looks like an
/// older bridge script answered.
pub open spec fn prep_failure(prep: JsonValue) -> Seq<char> {
    let msg = match member(prep, "error"@) {
        Some(e) => match e {
            JsonValue::String(s) => s@,
            _ => "unknown error"@,
        },
        None => match str_at(prep, "message"@) {
            Some(m) => m,
            None => "unknown error"@,
        },
    };
    "BinDiff export failed: "@ + msg + if member(prep, "export1"@) is None {
        " If the message looks unrelated to BinExport, the bridge is running an older script — run `gd restart` and retry."@
    } else {
        seq![]
    }
}

/// The bridge's export answer: the two `.BinExport` paths when its status
/// is `ok` and both are given, else the message to fail with.
pub open spec fn prep_outcome(prep: JsonValue) -> Result<(Seq<char>, Seq<char>), Seq<char>> {
    if str_at(prep, "status"@) != Some("ok"@) {
        Err(prep_failure(prep))
    } else if str_at(prep, "export1"@) is None {
        Err("bridge response missing export1"@)
    } else if str_at(prep, "export2"@) is None {
        Err("bridge response missing export2"@)
    } else {
        Ok((str_at(prep, "export1"@)->0, str_at(prep, "export2"@)->0))
    }
}

fn text_of<'a>(v: &'a JsonValue, key: &str) -> (r: Option<&'a str>)
    ensures
        crate::cli::str_opt(r) == str_at(*v, key@),
{
    match v.get(key) {
        Some(JsonValue::String(s)) => Some(s.as_str()),
        _ => None,
    }
}

/// Checks the bridge's export answer (see [`prep_outcome`]).
pub fn check_diff_prep(prep: &JsonValue) -> (r: Result<(String, String), String>)
    ensures
        match prep_outcome(*prep) {
            Ok(p) => r matches Ok(t) && t.0@ == p.0 && t.1@ == p.1,
            Err(m) => r matches Err(e) && e@ == m,
        },
{
    let ok = match text_of(prep, "status") {
        Some(s) => crate::json::str_eq(s, "ok"),
        None => false,
    };
    if !ok {
        let msg: &str = match prep.get("error") {
            Some(e) => match e {
                JsonValue::String(s) => s.as_str(),
                _ => "unknown error",
            },
            None => match text_of(prep, "message") {
                Some(m) => m,
                None => "unknown error",
            },
        };
        let mut e = String::new();
        push_str(&mut e, "BinDiff export failed: ");
        push_str(&mut e, msg);
        if prep.get("export1").is_none() {
            push_str(
                &mut e,
                " If the message looks unrelated to BinExport, the bridge is running an older script — run `gd restart` and retry.",
            );
        }
        assert(e@ =~= prep_failure(*prep));
        return Err(e);
    }
    let e1 = match text_of(prep, "export1") {
        Some(p) => p,
        None => return Err("bridge response missing export1".to_owned()),
    };
    let e2 = match text_of(prep, "export2") {
        Some(p) => p,
        None => return Err("bridge response missing export2".to_owned()),
    };
    Ok((e1.to_owned(), e2.to_owned()))
}

/// The message `diff programs` fails with when both exports are one file.
pub open spec fn same_export_message(path: Seq<char>) -> Seq<char> {
    "BinDiff export failed: both programs were exported to the same file "@ + path
        + " (refusing to diff a program against itself)"@
}

/// Refuses two exports that resolve to the same file: diffing them would
/// compare a program with itself. `resolved1` and `resolved2` are the two
/// export paths as the file system resolves them.
pub fn check_distinct_exports(resolved1: &str, resolved2: &str) -> (r: Result<(), String>)
    ensures
        r is Ok <==> resolved1@ != resolved2@,
        r matches Err(m) ==> m@ == same_export_message(resolved1@),
{
    if crate::json::str_eq(resolved1, resolved2) {
        let mut m = String::new();
        push_str(&mut m, "BinDiff export failed: both programs were exported to the same file ");
        push_str(&mut m, resolved1);
        push_str(&mut m, " (refusing to diff a program against itself)");
        proof {
            reveal_strlit("BinDiff export failed: both programs were exported to the same file ");
            reveal_strlit(" (refusing to diff a program against itself)");
        }
        Err(m)
    } else {
        Ok(())
    }
}

// ---------------------------------------------------------------------------
// Addresses
// ---------------------------------------------------------------------------

/// Lowercase hexadecimal digits of `n`.
pub open spec fn hex_text(n: nat) -> Seq<char>
    decreases n,
{
    if n < 16 {
        seq![crate::json::hex_char(n as int)]
    } else {
        hex_text(n / 16).push(crate::json::hex_char((n % 16) as int))
    }
}

/// `format!("{:08x}", a)`: lowercase hex, zero-filled to eight digits.
pub open spec fn hex8(a: u64) -> Seq<char> {
    Seq::new(
        if hex_text(a as nat).len() < 8 {
            (8 - hex_text(a as nat).len()) as nat
        } else {
            0
        },
        |i: int| '0',
    ) + hex_text(a as nat)
}

fn push_hex(out: &mut String, n: u64)
    ensures
        final(out)@ == old(out)@ + hex_text(n as nat),
    decreases n,
{
    if n >= 16 {
        push_hex(out, n / 16);
    }
    let d = (n % 16) as u8;
    string_push(out, crate::json::hex_digit(d));
    proof {
        if n >= 16 {
            assert(old(out)@ + hex_text(n as nat) =~= old(out)@ + hex_text((n / 16) as nat) + seq![
                crate::json::hex_char(d as int)]);
        } else {
            assert(old(out)@ + hex_text(n as nat) =~= old(out)@ + seq![
                crate::json::hex_char(d as int)]);
        }
    }
}

/// `format!("{:08x}", a)`.
pub fn hex8_text(a: u64) -> (r: String)
    ensures
        r@ == hex8(a),
{
    let mut digits = String::new();
    push_hex(&mut digits, a);
    let n = crate::format::values::char_count(digits.as_str());
    let mut r = String::new();
    let mut i: usize = n;
    while i < 8
        invariant
            n <= i <= 8 || (i == n && n >= 8),
            r@ == Seq::new((i - n) as nat, |k: int| '0'),
        decreases 8 - i,
    {
        string_push(&mut r, '0');
        i = i + 1;
        assert(r@ =~= Seq::new((i - n) as nat, |k: int| '0'));
    }
    push_str(&mut r, digits.as_str());
    assert(r@ =~= hex8(a));
    r
}

/// The function list the bridge sent under `key` (`None` when it could not
/// compute it).
pub open spec fn fn_list(prep: JsonValue, key: Seq<char>) -> Option<Seq<JsonValue>> {
    match member(prep, key) {
        Some(JsonValue::Array(a)) => Some(a@),
        _ => None,
    }
}

/// The program's own rendering of address `a`: that of the last listed
/// function whose address reads as `a`.
pub open spec fn known_addr(items: Seq<JsonValue>, a: u64) -> Option<Seq<char>>
    decreases items.len(),
{
    if items.len() == 0 {
        None
    } else {
        match str_at(items.last(), "address"@) {
            Some(s) => if ghidra_addr(s) == Some(a) {
                Some(s)
            } else {
                known_addr(items.drop_last(), a)
            },
            None => known_addr(items.drop_last(), a),
        }
    }
}

/// How an address of the database is shown: as the program renders it
/// when its function list has it, else as eight hex digits.
pub open spec fn addr_shown(items: Option<Seq<JsonValue>>, a: u64) -> Seq<char> {
    match items {
        Some(s) => match known_addr(s, a) {
            Some(t) => t,
            None => hex8(a),
        },
        None => hex8(a),
    }
}

fn known_address(items: &Vec<JsonValue>, a: u64) -> (r: Option<String>)
    ensures
        opt_view(r) == known_addr(items@, a),
{
    let mut i: usize = items.len();
    assert(items@.take(i as int) =~= items@);
    while i > 0
        invariant
            0 <= i <= items.len(),
            known_addr(items@, a) == known_addr(items@.take(i as int), a),
        decreases i,
    {
        let ghost k = i as int;
        i = i - 1;
        assert(items@.take(k).drop_last() =~= items@.take(i as int));
        assert(items@.take(k).last() == items@[i as int]);
        if let Some(s) = text_of(&items[i], "address") {
            if parse_ghidra_addr(s) == Some(a) {
                return Some(s.to_owned());
            }
        }
    }
    assert(items@.take(0) =~= Seq::<JsonValue>::empty());
    None
}

/// How an address of the database is shown (see [`addr_shown`]).
pub fn address_text(items: Option<&Vec<JsonValue>>, a: u64) -> (r: String)
    ensures
        r@ == addr_shown(
            match items {
                Some(v) => Some(v@),
                None => None,
            },
            a,
        ),
{
    match items {
        Some(v) => match known_address(v, a) {
            Some(t) => t,
            None => hex8_text(a),
        },
        None => hex8_text(a),
    }
}

// ---------------------------------------------------------------------------
// Rows
// ---------------------------------------------------------------------------

/// One function pair of the `.BinDiff` database, with what its row needs.
pub struct DiffMatch {
    pub address1: u64,
    pub name1: String,
    /// `None` when the first program's function has no counterpart.
    pub address2: Option<u64>,
    pub name2: Option<String>,
    /// The similarity and confidence as the row shows them (to three
    /// decimals).
    pub similarity: JsonNumber,
    pub confidence: JsonNumber,
    /// The similarity as the database holds it, which the tests below use.
    pub raw_similarity: JsonNumber,
}

/// The pair is identical: its similarity is 1 within 10⁻⁹.
pub open spec fn is_identical(m: DiffMatch) -> bool {
    decimal_relation(CompareOp::Greater, number_decimal(m.raw_similarity), Some((999_999_999, -9)))
        && decimal_relation(
        CompareOp::Less,
        number_decimal(m.raw_similarity),
        Some((1_000_000_001, -9)),
    )
}

/// The pair passes `--changed` (a similarity below 1) and `--min-sim` (a
/// similarity at least the given one).
pub open spec fn similarity_passes(m: DiffMatch, changed: bool, min_sim: Option<Seq<char>>) -> bool {
    &&& !(changed && decimal_relation(
        CompareOp::GreaterEqual,
        number_decimal(m.raw_similarity),
        Some((1, 0)),
    ))
    &&& match min_sim {
        Some(t) => decimal_relation(CompareOp::GreaterEqual, number_decimal(m.raw_similarity), decimal_of(t)),
        None => true,
    }
}

/// The pair's similarity tests (identical, `--changed`, `--min-sim`) give
/// exactly what the `f64` tests give (see [`f64_agrees`]).
pub open spec fn similarity_agrees(m: DiffMatch, min_sim: Option<Seq<char>>) -> bool {
    let s = number_decimal(m.raw_similarity);
    &&& f64_agrees(s, Some((999_999_999, -9)))
    &&& f64_agrees(s, Some((1_000_000_001, -9)))
    &&& f64_agrees(s, Some((1, 0)))
    &&& (min_sim matches Some(t) ==> f64_agrees(s, decimal_of(t)))
}

/// Every pair's similarity tests are those of `f64`.
pub open spec fn similarities_agree(ms: Seq<DiffMatch>, args: DiffProgramsArgs) -> bool {
    forall|i: int| 0 <= i < ms.len() ==> similarity_agrees(#[trigger] ms[i], opt_view(args.min_sim))
}

fn identical_exec(m: &DiffMatch) -> (r: bool)
    ensures
        r == is_identical(*m),
{
    number_vs_scaled(CompareOp::Greater, &m.raw_similarity, 999_999_999, -9) && number_vs_scaled(
        CompareOp::Less,
        &m.raw_similarity,
        1_000_000_001,
        -9,
    )
}

fn similarity_passes_exec(m: &DiffMatch, changed: bool, min_sim: &Option<String>) -> (r: bool)
    ensures
        r == similarity_passes(*m, changed, opt_view(*min_sim)),
{
    if changed && number_vs_scaled(CompareOp::GreaterEqual, &m.raw_similarity, 1, 0) {
        return false;
    }
    match min_sim {
        Some(t) => number_vs_decimal(CompareOp::GreaterEqual, &m.raw_similarity, t.as_str()),
        None => true,
    }
}

/// Whether a pair with a counterpart starts at `a` in the first program.
pub open spec fn matched_first(ms: Seq<DiffMatch>, a: u64) -> bool {
    exists|i: int| 0 <= i < ms.len() && (#[trigger] ms[i]).address2 is Some && ms[i].address1 == a
}

/// Whether a pair ends at `a` in the second program.
pub open spec fn matched_second(ms: Seq<DiffMatch>, a: u64) -> bool {
    exists|i: int| 0 <= i < ms.len() && (#[trigger] ms[i]).address2 == Some(a)
}

/// `(address, name)` of the listed functions that no pair covers (in the
/// first program when `first`, else in the second); a function whose
/// address does not read as hex counts as uncovered.
pub open spec fn lone_functions(items: Seq<JsonValue>, ms: Seq<DiffMatch>, first: bool) -> Seq<
    (Seq<char>, Seq<char>),
>
    decreases items.len(),
{
    if items.len() == 0 {
        seq![]
    } else {
        let r = lone_functions(items.drop_last(), ms, first);
        match str_at(items.last(), "address"@) {
            None => r,
            Some(addr) => {
                let name = match str_at(items.last(), "name"@) {
                    Some(n) => n,
                    None => seq![],
                };
                match ghidra_addr(addr) {
                    Some(a) => if (if first {
                        matched_first(ms, a)
                    } else {
                        matched_second(ms, a)
                    }) {
                        r
                    } else {
                        r.push((addr, name))
                    },
                    None => r.push((addr, name)),
                }
            },
        }
    }
}

pub open spec fn lone_of(items: Option<Seq<JsonValue>>, ms: Seq<DiffMatch>, first: bool) -> Seq<
    (Seq<char>, Seq<char>),
> {
    match items {
        Some(s) => lone_functions(s, ms, first),
        None => seq![],
    }
}

/// Whether the pair's names, joined by a space and lowercased, contain the
/// lowercased `--name` text.
pub open spec fn name_ok(m: DiffMatch, name_filter: Option<Seq<char>>) -> bool {
    match name_filter {
        None => true,
        Some(nf) => crate::text::contains_seq(
            crate::text::lowercase(
                m.name1@ + seq![' '] + match opt_view(m.name2) {
                    Some(n) => n,
                    None => seq![],
                },
            ),
            crate::text::lowercase(nf),
        ),
    }
}

/// The pair passes the similarity and name tests.
pub open spec fn pair_passes(m: DiffMatch, args: DiffProgramsArgs) -> bool {
    similarity_passes(m, args.changed, opt_view(args.min_sim)) && name_ok(m, opt_view(args.name))
}

/// The pairs that pass the similarity and name tests, in database order.
pub open spec fn selected_pairs(ms: Seq<DiffMatch>, args: DiffProgramsArgs) -> Seq<DiffMatch>
    decreases ms.len(),
{
    if ms.len() == 0 {
        seq![]
    } else {
        let r = selected_pairs(ms.drop_last(), args);
        if pair_passes(ms.last(), args) {
            r.push(ms.last())
        } else {
            r
        }
    }
}

/// A row of the result: a pair, or a function only one program has.
pub enum DiffRowM {
    Pair(DiffMatch),
    First(Seq<char>, Seq<char>),
    Second(Seq<char>, Seq<char>),
}

/// All rows: with `--unmatched`, the functions only the first program has,
/// then those only the second has, ahead of the selected pairs.
pub open spec fn all_rows(prep: JsonValue, ms: Seq<DiffMatch>, args: DiffProgramsArgs) -> Seq<DiffRowM> {
    let pairs = selected_pairs(ms, args).map_values(|m: DiffMatch| DiffRowM::Pair(m));
    if args.unmatched {
        lone_of(fn_list(prep, "functions1"@), ms, true).map_values(
            |p: (Seq<char>, Seq<char>)| DiffRowM::First(p.0, p.1),
        ) + lone_of(fn_list(prep, "functions2"@), ms, false).map_values(
            |p: (Seq<char>, Seq<char>)| DiffRowM::Second(p.0, p.1),
        ) + pairs
    } else {
        pairs
    }
}

/// The row cap: `--limit`, else the configured default; `0` means none.
pub open spec fn row_cap(args: DiffProgramsArgs, default_limit: Option<usize>) -> Option<usize> {
    match args.limit {
        Some(l) => Some(l),
        None => default_limit,
    }
}

pub open spec fn cut_off(n: nat, cap: Option<usize>) -> bool {
    cap matches Some(c) && c != 0 && n > c
}

pub open spec fn shown_rows(rows: Seq<DiffRowM>, cap: Option<usize>) -> Seq<DiffRowM> {
    if cut_off(rows.len(), cap) {
        rows.take(cap->0 as int)
    } else {
        rows
    }
}

pub open spec fn str_is(v: JsonValue, s: Seq<char>) -> bool {
    v is String && v->String_0@ == s
}

pub open spec fn opt_str_is(v: JsonValue, o: Option<Seq<char>>) -> bool {
    match o {
        Some(s) => str_is(v, s),
        None => v is Null,
    }
}

/// `v` is the JSON of row `r`: an object with the keys `address1`,
/// `address2`, `confidence`, `name1`, `name2`, `similarity` (and
/// `unmatched` for a lone function) in that order.
pub open spec fn row_shows(
    v: JsonValue,
    r: DiffRowM,
    f1: Option<Seq<JsonValue>>,
    f2: Option<Seq<JsonValue>>,
) -> bool {
    match v {
        JsonValue::Object(e) => {
            let s = e@;
            match r {
                DiffRowM::Pair(m) => s.len() == 6 && s[0].0@ == "address1"@ && str_is(
                    s[0].1,
                    addr_shown(f1, m.address1),
                ) && s[1].0@ == "address2"@ && opt_str_is(
                    s[1].1,
                    match m.address2 {
                        Some(a2) => Some(addr_shown(f2, a2)),
                        None => None,
                    },
                ) && s[2].0@ == "confidence"@ && s[2].1 == JsonValue::Number(m.confidence)
                    && s[3].0@ == "name1"@ && str_is(s[3].1, m.name1@) && s[4].0@ == "name2"@
                    && opt_str_is(s[4].1, opt_view(m.name2)) && s[5].0@ == "similarity"@ && s[5].1
                    == JsonValue::Number(m.similarity),
                DiffRowM::First(addr, name) => s.len() == 7 && s[0].0@ == "address1"@ && str_is(
                    s[0].1,
                    addr,
                ) && s[1].0@ == "address2"@ && s[1].1 is Null && s[2].0@ == "confidence"@
                    && s[2].1 is Null && s[3].0@ == "name1"@ && str_is(s[3].1, name) && s[4].0@
                    == "name2"@ && s[4].1 is Null && s[5].0@ == "similarity"@ && s[5].1 is Null
                    && s[6].0@ == "unmatched"@ && str_is(s[6].1, "primary"@),
                DiffRowM::Second(addr, name) => s.len() == 7 && s[0].0@ == "address1"@ && s[0].1
                    is Null && s[1].0@ == "address2"@ && str_is(s[1].1, addr) && s[2].0@
                    == "confidence"@ && s[2].1 is Null && s[3].0@ == "name1"@ && s[3].1 is Null
                    && s[4].0@ == "name2"@ && str_is(s[4].1, name) && s[5].0@ == "similarity"@
                    && s[5].1 is Null && s[6].0@ == "unmatched"@ && str_is(s[6].1, "secondary"@),
            }
        },
        _ => false,
    }
}

pub open spec fn rows_show(
    vs: Seq<JsonValue>,
    rs: Seq<DiffRowM>,
    f1: Option<Seq<JsonValue>>,
    f2: Option<Seq<JsonValue>>,
) -> bool {
    vs.len() == rs.len() && forall|i: int| 0 <= i < vs.len() ==> row_shows(#[trigger] vs[i], rs[i], f1, f2)
}

fn entry(key: &str, v: JsonValue) -> (r: (String, JsonValue))
    ensures
        r.0@ == key@,
        r.1 == v,
{
    (key.to_owned(), v)
}

fn text_value(s: &str) -> (r: JsonValue)
    ensures
        str_is(r, s@),
{
    JsonValue::String(s.to_owned())
}

fn copy_number(n: &JsonNumber) -> (r: JsonNumber)
    ensures
        r == *n,
{
    match n {
        JsonNumber::Int(i) => JsonNumber::Int(*i),
        JsonNumber::Float(t) => JsonNumber::Float(t.clone()),
    }
}

pub open spec fn deref_list(o: Option<&Vec<JsonValue>>) -> Option<Seq<JsonValue>> {
    match o {
        Some(v) => Some(v@),
        None => None,
    }
}

fn pair_row(m: &DiffMatch, f1: Option<&Vec<JsonValue>>, f2: Option<&Vec<JsonValue>>) -> (r: JsonValue)
    ensures
        row_shows(r, DiffRowM::Pair(*m), deref_list(f1), deref_list(f2)),
{
    let a1 = address_text(f1, m.address1);
    let a2 = match m.address2 {
        Some(a) => JsonValue::String(address_text(f2, a)),
        None => JsonValue::Null,
    };
    let n2 = match &m.name2 {
        Some(n) => JsonValue::String(n.clone()),
        None => JsonValue::Null,
    };
    let mut e: Vec<(String, JsonValue)> = Vec::new();
    e.push(entry("address1", JsonValue::String(a1)));
    e.push(entry("address2", a2));
    e.push(entry("confidence", JsonValue::Number(copy_number(&m.confidence))));
    e.push(entry("name1", text_value(m.name1.as_str())));
    e.push(entry("name2", n2));
    e.push(entry("similarity", JsonValue::Number(copy_number(&m.similarity))));
    JsonValue::Object(e)
}

fn lone_row(addr: &str, name: &str, first: bool) -> (r: JsonValue)
    ensures
        row_shows(
            r,
            if first {
                DiffRowM::First(addr@, name@)
            } else {
                DiffRowM::Second(addr@, name@)
            },
            None,
            None,
        ),
{
    let mut e: Vec<(String, JsonValue)> = Vec::new();
    if first {
        e.push(entry("address1", text_value(addr)));
        e.push(entry("address2", JsonValue::Null));
    } else {
        e.push(entry("address1", JsonValue::Null));
        e.push(entry("address2", text_value(addr)));
    }
    e.push(entry("confidence", JsonValue::Null));
    if first {
        e.push(entry("name1", text_value(name)));
        e.push(entry("name2", JsonValue::Null));
    } else {
        e.push(entry("name1", JsonValue::Null));
        e.push(entry("name2", text_value(name)));
    }
    e.push(entry("similarity", JsonValue::Null));
    if first {
        e.push(entry("unmatched", text_value("primary")));
    } else {
        e.push(entry("unmatched", text_value("secondary")));
    }
    JsonValue::Object(e)
}

fn is_matched(ms: &Vec<DiffMatch>, a: u64, first: bool) -> (r: bool)
    ensures
        r == if first {
            matched_first(ms@, a)
        } else {
            matched_second(ms@, a)
        },
{
    let mut i: usize = 0;
    while i < ms.len()
        invariant
            0 <= i <= ms.len(),
            forall|j: int|
                0 <= j < i ==> !(if first {
                    (#[trigger] ms@[j]).address2 is Some && ms@[j].address1 == a
                } else {
                    ms@[j].address2 == Some(a)
                }),
        decreases ms.len() - i,
    {
        let hit = if first {
            ms[i].address2.is_some() && ms[i].address1 == a
        } else {
            ms[i].address2 == Some(a)
        };
        if hit {
            assert(ms@[i as int] == ms[i as int]);
            return true;
        }
        i = i + 1;
    }
    false
}

pub open spec fn pair_views(v: Seq<(String, String)>) -> Seq<(Seq<char>, Seq<char>)> {
    v.map_values(|p: (String, String)| (p.0@, p.1@))
}

fn lone_list(items: Option<&Vec<JsonValue>>, ms: &Vec<DiffMatch>, first: bool) -> (r: Vec<(String, String)>)
    ensures
        pair_views(r@) == lone_of(deref_list(items), ms@, first),
{
    let mut out: Vec<(String, String)> = Vec::new();
    let v = match items {
        Some(v) => v,
        None => {
            assert(pair_views(out@) =~= seq![]);
            return out;
        },
    };
    let mut i: usize = 0;
    assert(pair_views(out@) =~= seq![]);
    assert(v@.take(0) =~= Seq::<JsonValue>::empty());
    while i < v.len()
        invariant
            0 <= i <= v.len(),
            pair_views(out@) == lone_functions(v@.take(i as int), ms@, first),
        decreases v.len() - i,
    {
        assert(v@.take(i + 1).drop_last() =~= v@.take(i as int));
        assert(v@.take(i + 1).last() == v@[i as int]);
        if let Some(addr) = text_of(&v[i], "address") {
            let name: &str = match text_of(&v[i], "name") {
                Some(n) => n,
                None => "",
            };
            proof {
                reveal_strlit("");
                assert(""@ =~= Seq::<char>::empty());
            }
            let keep = match parse_ghidra_addr(addr) {
                Some(a) => !is_matched(ms, a, first),
                None => true,
            };
            if keep {
                let ghost pre = out@;
                out.push((addr.to_owned(), name.to_owned()));
                assert(pair_views(out@) =~= pair_views(pre).push((addr@, name@)));
            }
        }
        i = i + 1;
    }
    assert(v@.take(v.len() as int) =~= v@);
    out
}

fn functions_of<'a>(prep: &'a JsonValue, key: &str) -> (r: Option<&'a Vec<JsonValue>>)
    ensures
        deref_list(r) == fn_list(*prep, key@),
{
    match prep.get(key) {
        Some(JsonValue::Array(a)) => Some(a),
        _ => None,
    }
}

fn name_passes(m: &DiffMatch, name_filter: &Option<String>) -> (r: bool)
    ensures
        r == name_ok(*m, opt_view(*name_filter)),
{
    match name_filter {
        None => true,
        Some(nf) => {
            let mut both = m.name1.clone();
            string_push(&mut both, ' ');
            match &m.name2 {
                Some(n) => push_str(&mut both, n.as_str()),
                None => {},
            }
            assert(both@ =~= m.name1@ + seq![' '] + match opt_view(m.name2) {
                Some(n) => n,
                None => seq![],
            });
            let hay = crate::text::to_lower(both.as_str());
            let needle = crate::text::to_lower(nf.as_str());
            crate::text::contains_chars(
                &crate::text::chars_of(hay.as_str()),
                &crate::text::chars_of(needle.as_str()),
            )
        },
    }
}

// ---------------------------------------------------------------------------
// The envelope
// ---------------------------------------------------------------------------

/// How many pairs have a counterpart.
pub open spec fn matched_count(ms: Seq<DiffMatch>) -> nat
    decreases ms.len(),
{
    if ms.len() == 0 {
        0
    } else {
        matched_count(ms.drop_last()) + if ms.last().address2 is Some {
            1nat
        } else {
            0nat
        }
    }
}

/// How many pairs with a counterpart are identical.
pub open spec fn identical_count(ms: Seq<DiffMatch>) -> nat
    decreases ms.len(),
{
    if ms.len() == 0 {
        0
    } else {
        identical_count(ms.drop_last()) + if ms.last().address2 is Some && is_identical(ms.last()) {
            1nat
        } else {
            0nat
        }
    }
}

/// The summary's counts add up: the identical pairs and the changed pairs
/// together are the matched pairs, and no more pairs are matched than the
/// database holds.
pub proof fn law_diff_counts_add_up(ms: Seq<DiffMatch>)
    ensures
        identical_count(ms) <= matched_count(ms),
        matched_count(ms) <= ms.len(),
    decreases ms.len(),
{
    if ms.len() > 0 {
        law_diff_counts_add_up(ms.drop_last());
    }
}

pub open spec fn int_is(v: JsonValue, n: int) -> bool {
    v matches JsonValue::Number(JsonNumber::Int(i)) && i as int == n
}

pub open spec fn opt_num_is(v: JsonValue, o: Option<JsonNumber>) -> bool {
    match o {
        Some(n) => v == JsonValue::Number(n),
        None => v is Null,
    }
}

/// `v` is the summary object: `changed`, `identical`, `matched`,
/// `overall_confidence`, `overall_similarity`, `unmatched_computed`,
/// `unmatched_primary`, `unmatched_secondary`, in that order.
pub open spec fn summary_shows(
    v: JsonValue,
    prep: JsonValue,
    ms: Seq<DiffMatch>,
    similarity: Option<JsonNumber>,
    confidence: Option<JsonNumber>,
) -> bool {
    match v {
        JsonValue::Object(e) => {
            let s = e@;
            &&& s.len() == 8
            &&& s[0].0@ == "changed"@ && int_is(s[0].1, matched_count(ms) - identical_count(ms))
            &&& s[1].0@ == "identical"@ && int_is(s[1].1, identical_count(ms) as int)
            &&& s[2].0@ == "matched"@ && int_is(s[2].1, matched_count(ms) as int)
            &&& s[3].0@ == "overall_confidence"@ && opt_num_is(s[3].1, confidence)
            &&& s[4].0@ == "overall_similarity"@ && opt_num_is(s[4].1, similarity)
            &&& s[5].0@ == "unmatched_computed"@ && s[5].1 == JsonValue::Bool(
                fn_list(prep, "functions1"@) is Some && fn_list(prep, "functions2"@) is Some,
            )
            &&& s[6].0@ == "unmatched_primary"@ && int_is(
                s[6].1,
                lone_of(fn_list(prep, "functions1"@), ms, true).len() as int,
            )
            &&& s[7].0@ == "unmatched_secondary"@ && int_is(
                s[7].1,
                lone_of(fn_list(prep, "functions2"@), ms, false).len() as int,
            )
        },
        _ => false,
    }
}

/// `v` is the result of `diff programs`: an object with `matches` (the
/// shown rows), `method` (`bindiff`), `program1` and `program2` (as the
/// bridge sent them, `null` when missing), `status` (`ok`), `summary` and
/// `truncated`, in that order.
pub open spec fn envelope_shows(
    v: JsonValue,
    prep: JsonValue,
    ms: Seq<DiffMatch>,
    args: DiffProgramsArgs,
    default_limit: Option<usize>,
    similarity: Option<JsonNumber>,
    confidence: Option<JsonNumber>,
) -> bool {
    let rows = all_rows(prep, ms, args);
    let cap = row_cap(args, default_limit);
    match v {
        JsonValue::Object(e) => {
            let s = e@;
            &&& s.len() == 7
            &&& s[0].0@ == "matches"@ && s[0].1 is Array && rows_show(
                s[0].1->Array_0@,
                shown_rows(rows, cap),
                fn_list(prep, "functions1"@),
                fn_list(prep, "functions2"@),
            )
            &&& s[1].0@ == "method"@ && str_is(s[1].1, "bindiff"@)
            &&& s[2].0@ == "program1"@ && s[2].1 == member(prep, "program1"@).unwrap_or(
                JsonValue::Null,
            )
            &&& s[3].0@ == "program2"@ && s[3].1 == member(prep, "program2"@).unwrap_or(
                JsonValue::Null,
            )
            &&& s[4].0@ == "status"@ && str_is(s[4].1, "ok"@)
            &&& s[5].0@ == "summary"@ && summary_shows(s[5].1, prep, ms, similarity, confidence)
            &&& s[6].0@ == "truncated"@ && s[6].1 == JsonValue::Bool(cut_off(rows.len(), cap))
        },
        _ => false,
    }
}

fn count_pairs(ms: &Vec<DiffMatch>) -> (r: (usize, usize))
    ensures
        r.0 == matched_count(ms@),
        r.1 == identical_count(ms@),
{
    let mut matched: usize = 0;
    let mut identical: usize = 0;
    let mut i: usize = 0;
    while i < ms.len()
        invariant
            0 <= i <= ms.len(),
            matched == matched_count(ms@.take(i as int)),
            identical == identical_count(ms@.take(i as int)),
        decreases ms.len() - i,
    {
        assert(ms@.take(i + 1).drop_last() =~= ms@.take(i as int));
        assert(ms@.take(i + 1).last() == ms@[i as int]);
        proof {
            law_diff_counts_add_up(ms@.take(i as int));
        }
        if ms[i].address2.is_some() {
            matched = matched + 1;
            if identical_exec(&ms[i]) {
                identical = identical + 1;
            }
        }
        i = i + 1;
    }
    assert(ms@.take(ms.len() as int) =~= ms@);
    (matched, identical)
}

/// Takes the member `key` out of an object (`null` when it has none).
fn take_member(entries: &mut Vec<(String, JsonValue)>, key: &str) -> (r: JsonValue)
    ensures
        r == crate::json::lookup(old(entries)@, key@).unwrap_or(JsonValue::Null),
        final(entries)@.len() <= old(entries)@.len(),
        forall|k: Seq<char>|
            k != key@ ==> crate::json::lookup(final(entries)@, k) == crate::json::lookup(
                old(entries)@,
                k,
            ),
{
    match crate::json::find_entry(entries, key) {
        Some(i) => {
            let ghost pre = entries@;
            proof {
                crate::json::lemma_entry_index_bounds(pre, key@);
            }
            let (_, v) = entries.remove(i);
            proof {
                assert forall|k: Seq<char>| k != key@ implies crate::json::lookup(entries@, k)
                    == crate::json::lookup(pre, k) by {
                    crate::json::lemma_entry_index_bounds(pre, k);
                    crate::json::lemma_entry_index_bounds(entries@, k);
                    if let Some(j) = crate::json::entry_index(pre, k) {
                        if j < i {
                            assert(entries@[j] == pre[j]);
                        } else {
                            assert(entries@[j - 1] == pre[j]);
                            assert forall|t: int| 0 <= t < j - 1 implies entries@[t].0@ != k by {
                                if t < i {
                                    assert(entries@[t] == pre[t]);
                                } else {
                                    assert(entries@[t] == pre[t + 1]);
                                }
                            }
                        }
                    } else {
                        assert forall|t: int| 0 <= t < entries@.len() implies entries@[t].0@ != k by {
                            if t < i {
                                assert(entries@[t] == pre[t]);
                            } else {
                                assert(entries@[t] == pre[t + 1]);
                            }
                        }
                    }
                }
            }
            v
        },
        None => JsonValue::Null,
    }
}

/// The result envelope of `diff programs` (see [`envelope_shows`]): the
/// bridge's export answer `prep` (with its function lists), the pairs of
/// the database in its order, the command's arguments, the configured row
/// cap, and the overall similarity and confidence as shown. Similarities
/// are tested exactly; the envelope is stated where every pair's tests are
/// those of `f64` (see [`similarities_agree`]).
pub fn diff_result(
    prep: JsonValue,
    matches: &Vec<DiffMatch>,
    args: &DiffProgramsArgs,
    default_limit: Option<usize>,
    similarity: Option<JsonNumber>,
    confidence: Option<JsonNumber>,
) -> (r: JsonValue)
    ensures
        similarities_agree(matches@, *args) ==> envelope_shows(
            r,
            prep,
            matches@,
            *args,
            default_limit,
            similarity,
            confidence,
        ),
{
    let ghost g1 = fn_list(prep, "functions1"@);
    let ghost g2 = fn_list(prep, "functions2"@);
    let ghost ms = matches@;
    let ghost model = all_rows(prep, ms, *args);
    let (lone1, lone2, computed, mut rows) = {
        let f1 = functions_of(&prep, "functions1");
        let f2 = functions_of(&prep, "functions2");
        let lone1 = lone_list(f1, matches, true);
        let lone2 = lone_list(f2, matches, false);
        let computed = f1.is_some() && f2.is_some();
        let mut pairs: Vec<JsonValue> = Vec::new();
        let mut i: usize = 0;
        assert(ms.take(0) =~= Seq::<DiffMatch>::empty());
        while i < matches.len()
            invariant
                0 <= i <= matches.len(),
                ms == matches@,
                g1 == deref_list(f1),
                g2 == deref_list(f2),
                rows_show(
                    pairs@,
                    selected_pairs(ms.take(i as int), *args).map_values(|m: DiffMatch| DiffRowM::Pair(m)),
                    g1,
                    g2,
                ),
            decreases matches.len() - i,
        {
            assert(ms.take(i + 1).drop_last() =~= ms.take(i as int));
            assert(ms.take(i + 1).last() == ms[i as int]);
            if similarity_passes_exec(&matches[i], args.changed, &args.min_sim) && name_passes(
                &matches[i],
                &args.name,
            ) {
                let row = pair_row(&matches[i], f1, f2);
                pairs.push(row);
            }
            proof {
                let f = |m: DiffMatch| DiffRowM::Pair(m);
                let before = selected_pairs(ms.take(i as int), *args);
                let after = selected_pairs(ms.take(i + 1), *args);
                if after.len() > before.len() {
                    assert(after.map_values(f) =~= before.map_values(f).push(
                        DiffRowM::Pair(ms[i as int]),
                    ));
                }
            }
            i = i + 1;
        }
        assert(ms.take(matches.len() as int) =~= ms);
        let ghost pair_model = selected_pairs(ms, *args).map_values(
            |m: DiffMatch| DiffRowM::Pair(m),
        );
        if args.unmatched {
            let mut rows: Vec<JsonValue> = Vec::new();
            let ghost m1 = lone_of(g1, ms, true).map_values(
                |p: (Seq<char>, Seq<char>)| DiffRowM::First(p.0, p.1),
            );
            let ghost m2 = lone_of(g2, ms, false).map_values(
                |p: (Seq<char>, Seq<char>)| DiffRowM::Second(p.0, p.1),
            );
            let mut k: usize = 0;
            while k < lone1.len()
                invariant
                    0 <= k <= lone1.len(),
                    pair_views(lone1@) == lone_of(g1, ms, true),
                    m1 == lone_of(g1, ms, true).map_values(
                        |p: (Seq<char>, Seq<char>)| DiffRowM::First(p.0, p.1),
                    ),
                    rows@.len() == k,
                    forall|t: int| 0 <= t < k ==> row_shows(#[trigger] rows@[t], m1[t], g1, g2),
                decreases lone1.len() - k,
            {
                let row = lone_row(lone1[k].0.as_str(), lone1[k].1.as_str(), true);
                assert(pair_views(lone1@)[k as int] == (lone1@[k as int].0@, lone1@[k as int].1@));
                rows.push(row);
                k = k + 1;
            }
            let mut k: usize = 0;
            while k < lone2.len()
                invariant
                    0 <= k <= lone2.len(),
                    pair_views(lone2@) == lone_of(g2, ms, false),
                    m2 == lone_of(g2, ms, false).map_values(
                        |p: (Seq<char>, Seq<char>)| DiffRowM::Second(p.0, p.1),
                    ),
                    m1.len() == lone1@.len(),
                    rows@.len() == m1.len() + k,
                    forall|t: int|
                        0 <= t < rows@.len() ==> row_shows(#[trigger] rows@[t], (m1 + m2)[t], g1, g2),
                decreases lone2.len() - k,
            {
                let row = lone_row(lone2[k].0.as_str(), lone2[k].1.as_str(), false);
                assert(pair_views(lone2@)[k as int] == (lone2@[k as int].0@, lone2@[k as int].1@));
                rows.push(row);
                k = k + 1;
            }
            let ghost front = rows@;
            let ghost pv = pairs@;
            rows.append(&mut pairs);
            assert(rows@ =~= front + pv);
            assert(model =~= m1 + m2 + pair_model);
            assert forall|t: int| 0 <= t < rows@.len() implies row_shows(
                #[trigger] rows@[t],
                model[t],
                g1,
                g2,
            ) by {
                if t < front.len() {
                    assert(rows@[t] == front[t]);
                    assert(model[t] == (m1 + m2)[t]);
                } else {
                    assert(rows@[t] == pv[t - front.len()]);
                    assert(model[t] == pair_model[t - front.len()]);
                }
            }
            (lone1, lone2, computed, rows)
        } else {
            (lone1, lone2, computed, pairs)
        }
    };
    let (matched, identical) = count_pairs(matches);
    proof {
        law_diff_counts_add_up(ms);
    }
    let cap = match args.limit {
        Some(l) => Some(l),
        None => default_limit,
    };
    let truncated = match cap {
        Some(c) => c != 0 && rows.len() > c,
        None => false,
    };
    assert(rows_show(rows@, model, g1, g2));
    let ghost full = rows@;
    if truncated {
        rows.truncate(cap.unwrap());
        assert(rows@ =~= full.take(cap.unwrap() as int));
        assert(shown_rows(model, cap) =~= model.take(cap.unwrap() as int));
        assert forall|t: int| 0 <= t < rows@.len() implies row_shows(
            #[trigger] rows@[t],
            shown_rows(model, cap)[t],
            g1,
            g2,
        ) by {
            assert(rows@[t] == full[t]);
        }
    }
    assert(rows_show(rows@, shown_rows(model, cap), g1, g2));
    let mut summary: Vec<(String, JsonValue)> = Vec::new();
    summary.push(entry("changed", JsonValue::Number(JsonNumber::Int((matched - identical) as i128))));
    summary.push(entry("identical", JsonValue::Number(JsonNumber::Int(identical as i128))));
    summary.push(entry("matched", JsonValue::Number(JsonNumber::Int(matched as i128))));
    summary.push(
        entry(
            "overall_confidence",
            match confidence {
                Some(c) => JsonValue::Number(c),
                None => JsonValue::Null,
            },
        ),
    );
    summary.push(
        entry(
            "overall_similarity",
            match similarity {
                Some(c) => JsonValue::Number(c),
                None => JsonValue::Null,
            },
        ),
    );
    summary.push(entry("unmatched_computed", JsonValue::Bool(computed)));
    summary.push(entry("unmatched_primary", JsonValue::Number(JsonNumber::Int(lone1.len() as i128))));
    summary.push(
        entry("unmatched_secondary", JsonValue::Number(JsonNumber::Int(lone2.len() as i128))),
    );
    let ghost prep0 = prep;
    proof {
        reveal_strlit("program1");
        reveal_strlit("program2");
        assert("program1"@ != "program2"@) by {
            assert("program1"@[7] != "program2"@[7]);
        }
    }
    let (p1, p2) = match prep {
        JsonValue::Object(mut entries) => {
            let p1 = take_member(&mut entries, "program1");
            let p2 = take_member(&mut entries, "program2");
            (p1, p2)
        },
        _ => (JsonValue::Null, JsonValue::Null),
    };
    let mut e: Vec<(String, JsonValue)> = Vec::new();
    e.push(entry("matches", JsonValue::Array(rows)));
    e.push(entry("method", text_value("bindiff")));
    e.push(entry("program1", p1));
    e.push(entry("program2", p2));
    e.push(entry("status", text_value("ok")));
    e.push(entry("summary", JsonValue::Object(summary)));
    e.push(entry("truncated", JsonValue::Bool(truncated)));
    assert(p1 == member(prep0, "program1"@).unwrap_or(JsonValue::Null));
    assert(p2 == member(prep0, "program2"@).unwrap_or(JsonValue::Null));
    assert(summary_shows(JsonValue::Object(summary), prep0, ms, similarity, confidence));
    assert(truncated == cut_off(model.len(), row_cap(*args, default_limit)));
    JsonValue::Object(e)
}

/// The rows shown are the first rows of the result, no more than a nonzero
/// cap; the result says it was truncated exactly when rows were left out.
pub proof fn law_diff_rows_are_capped(rows: Seq<DiffRowM>, cap: Option<usize>)
    ensures
        shown_rows(rows, cap) == rows.take(shown_rows(rows, cap).len() as int),
        shown_rows(rows, cap).len() <= rows.len(),
        (cap matches Some(c) && c != 0) ==> shown_rows(rows, cap).len() <= cap->0,
        cut_off(rows.len(), cap) <==> shown_rows(rows, cap).len() < rows.len(),
{
    assert(rows.take(rows.len() as int) =~= rows);
}

/// A function listed as unmatched is one that no pair covers: its address
/// is not the start of a pair in its program (or does not read as an
/// address at all).
pub proof fn law_unmatched_functions_are_uncovered(
    items: Seq<JsonValue>,
    ms: Seq<DiffMatch>,
    first: bool,
)
    ensures
        forall|i: int|
            0 <= i < lone_functions(items, ms, first).len() ==> match ghidra_addr(
                #[trigger] lone_functions(items, ms, first)[i].0,
            ) {
                Some(a) => !(if first {
                    matched_first(ms, a)
                } else {
                    matched_second(ms, a)
                }),
                None => true,
            },
        lone_functions(items, ms, first).len() <= items.len(),
    decreases items.len(),
{
    if items.len() > 0 {
        law_unmatched_functions_are_uncovered(items.drop_last(), ms, first);
        let r = lone_functions(items.drop_last(), ms, first);
        let l = lone_functions(items, ms, first);
        assert forall|i: int| 0 <= i < l.len() implies match ghidra_addr(#[trigger] l[i].0) {
            Some(a) => !(if first {
                matched_first(ms, a)
            } else {
                matched_second(ms, a)
            }),
            None => true,
        } by {
            if i < r.len() {
                assert(l[i] == r[i]);
            }
        }
    }
}

proof fn lemma_hex_char(d: int)
    requires
        0 <= d < 16,
    ensures
        crate::run::hex_digit_value(crate::json::hex_char(d)) == d,
        !crate::text::is_ws(crate::json::hex_char(d)),
        crate::json::hex_char(d) != 'x' && crate::json::hex_char(d) != 'X',
        crate::json::hex_char(d) != '+',
{
    let c = crate::json::hex_char(d);
    if d < 10 {
        assert(c as u32 == 48 + d);
    } else {
        assert(c as u32 == 87 + d);
    }
}

proof fn lemma_hex_text(n: nat)
    ensures
        crate::run::all_hex(hex_text(n)),
        crate::run::hex_value(hex_text(n)) == n,
        hex_text(n).len() > 0,
        forall|i: int|
            0 <= i < hex_text(n).len() ==> !crate::text::is_ws(#[trigger] hex_text(n)[i])
                && hex_text(n)[i] != 'x' && hex_text(n)[i] != 'X' && hex_text(n)[i] != '+',
    decreases n,
{
    if n < 16 {
        lemma_hex_char(n as int);
        let t = hex_text(n);
        assert(t.drop_last() =~= Seq::<char>::empty());
        assert(t.last() == crate::json::hex_char(n as int));
        assert(crate::run::hex_value(t.drop_last()) == 0);
        assert(crate::run::hex_value(t) == crate::run::hex_value(t.drop_last()) * 16
            + crate::run::hex_digit_value(t.last()));
    } else {
        lemma_hex_text(n / 16);
        lemma_hex_char((n % 16) as int);
        let t = hex_text(n);
        assert(t.drop_last() =~= hex_text(n / 16));
        assert(t.last() == crate::json::hex_char((n % 16) as int));
        assert(crate::run::hex_value(t) == crate::run::hex_value(hex_text(n / 16)) * 16
            + crate::run::hex_digit_value(t.last()));
        assert((n / 16) * 16 + n % 16 == n) by (nonlinear_arith);
        assert forall|i: int| 0 <= i < t.len() implies !crate::text::is_ws(#[trigger] t[i]) && t[i]
            != 'x' && t[i] != 'X' && t[i] != '+' by {
            if i < t.len() - 1 {
                assert(t[i] == hex_text(n / 16)[i]);
            }
        }
    }
}

proof fn lemma_zeros_value(z: Seq<char>, s: Seq<char>)
    requires
        forall|i: int| 0 <= i < z.len() ==> z[i] == '0',
    ensures
        crate::run::hex_value(z + s) == crate::run::hex_value(s),
    decreases s.len(),
{
    if s.len() == 0 {
        lemma_zeros_zero(z);
        assert(z + s =~= z);
    } else {
        lemma_zeros_value(z, s.drop_last());
        assert((z + s).drop_last() =~= z + s.drop_last());
    }
}

proof fn lemma_zeros_zero(z: Seq<char>)
    requires
        forall|i: int| 0 <= i < z.len() ==> z[i] == '0',
    ensures
        crate::run::hex_value(z) == 0,
    decreases z.len(),
{
    if z.len() > 0 {
        lemma_zeros_zero(z.drop_last());
    }
}

/// An address written as eight or more hexadecimal digits, as `diff
/// programs` writes the addresses it has no text for, reads back as the
/// same address.
pub proof fn law_hex_address_reads_back(a: u64)
    ensures
        ghidra_addr(hex8(a)) == Some(a),
{
    let h = hex_text(a as nat);
    lemma_hex_text(a as nat);
    let z = Seq::new(
        if h.len() < 8 {
            (8 - h.len()) as nat
        } else {
            0
        },
        |i: int| '0',
    );
    let s = hex8(a);
    assert(s == z + h);
    lemma_zeros_value(z, h);
    assert forall|i: int| 0 <= i < s.len() implies !crate::text::is_ws(#[trigger] s[i]) && s[i] != 'x'
        && s[i] != 'X' && s[i] != '+' && crate::run::hex_digit_value(s[i]) >= 0 by {
        if i < z.len() {
            assert(s[i] == '0');
        } else {
            assert(s[i] == h[i - z.len()]);
        }
    }
    assert(crate::text::trim_start(s) == s);
    assert(crate::text::trim_end(s) == s);
    assert(crate::text::trim(s) == s);
    assert(crate::run::all_hex(s));
}


/// A pair's first name, a space, and its second name (if any).
pub open spec fn both_names(m: DiffMatch) -> Seq<char> {
    m.name1@ + seq![' '] + match m.name2 {
        Some(n) => n@,
        None => Seq::<char>::empty(),
    }
}

/// `--name` keeps a pair exactly when the text filtered for, lowercased,
/// occurs in the pair's first name, a space and its second name (if any),
/// lowercased together: a name found in either program's function keeps
/// the pair. Without `--name` only the similarity tests decide.
pub proof fn law_name_filter_searches_both_names(m: DiffMatch, args: DiffProgramsArgs)
    ensures
        args.name matches Some(nf) ==> pair_passes(m, args) == (similarity_passes(
            m,
            args.changed,
            opt_view(args.min_sim),
        ) && exists|i: int|
            0 <= i && i + lowercase(nf@).len() <= lowercase(both_names(m)).len() && #[trigger] lowercase(
                both_names(m),
            ).subrange(i, i + lowercase(nf@).len()) == lowercase(nf@)),
        args.name is None ==> pair_passes(m, args) == similarity_passes(
            m,
            args.changed,
            opt_view(args.min_sim),
        ),
{
    if let Some(nf) = args.name {
        let h = lowercase(both_names(m));
        let p = lowercase(nf@);
        assert(both_names(m) == m.name1@ + seq![' '] + match opt_view(m.name2) {
            Some(n) => n,
            None => seq![],
        });
        if crate::text::contains_seq(h, p) {
            let i = choose|i: int| crate::text::occurs_at(h, p, i);
            assert(h.subrange(i, i + p.len()) == p);
        }
        if exists|i: int| 0 <= i && i + p.len() <= h.len() && #[trigger] h.subrange(i, i + p.len()) == p {
            let i = choose|i: int| 0 <= i && i + p.len() <= h.len() && #[trigger] h.subrange(i, i + p.len()) == p;
            assert(crate::text::occurs_at(h, p, i));
        }
    }
}

} // verus!
