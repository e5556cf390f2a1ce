//! The JSON data model that rows and bridge responses are held in, with the
//! compact and pretty renderings used by the output formats.
use vstd::prelude::*;
use crate::text::string_push;
use vstd::string::*;

verus! {

/// A JSON number: an integer, or a non-integer held by its rendering.
#[derive(Debug, Clone)]
pub enum JsonNumber {
    Int(i128),
    Float(String),
}

/// A JSON value. Object entries are kept in the order given (the bridge's
/// objects arrive with their keys in ascending order). As in any JSON
/// object, no two entries of an object share a key ([`keys_unique`]): the
/// objects read from the bridge have this from serde_json's map, and the
/// objects the library reshapes keep it (see
/// `query::pipeline::law_selected_keys_are_unique`).
#[derive(Debug)]
pub enum JsonValue {
    Null,
    Bool(bool),
    Number(JsonNumber),
    String(String),
    Array(Vec<JsonValue>),
    Object(Vec<(String, JsonValue)>),
}

// ---------------------------------------------------------------------------
// Lookup
// ---------------------------------------------------------------------------

/// No two entries share a key.
pub open spec fn keys_unique(entries: Seq<(String, JsonValue)>) -> bool {
    forall|i: int, j: int| 0 <= i < j < entries.len() ==> entries[i].0@ != entries[j].0@
}

/// Index of the first entry whose key is `key`, if any.
pub open spec fn entry_index(entries: Seq<(String, JsonValue)>, key: Seq<char>) -> Option<int>
    decreases entries.len(),
{
    if entries.len() == 0 {
        None
    } else {
        match entry_index(entries.drop_last(), key) {
            Some(i) => Some(i),
            None => if entries.last().0@ == key { Some(entries.len() - 1) } else { None },
        }
    }
}

/// The value stored under `key` (its first occurrence).
pub open spec fn lookup(entries: Seq<(String, JsonValue)>, key: Seq<char>) -> Option<JsonValue> {
    match entry_index(entries, key) {
        Some(i) => Some(entries[i].1),
        None => None,
    }
}

/// `value.get(key)`: the member `key` of an object, `None` for other values.
pub open spec fn member(v: JsonValue, key: Seq<char>) -> Option<JsonValue> {
    match v {
        JsonValue::Object(entries) => lookup(entries@, key),
        _ => None,
    }
}

pub proof fn lemma_entry_index_bounds(entries: Seq<(String, JsonValue)>, key: Seq<char>)
    ensures
        entry_index(entries, key) matches Some(i) ==> 0 <= i < entries.len() && entries[i].0@
            == key && forall|j: int| 0 <= j < i ==> entries[j].0@ != key,
        entry_index(entries, key) is None ==> forall|j: int|
            0 <= j < entries.len() ==> entries[j].0@ != key,
    decreases entries.len(),
{
    if entries.len() > 0 {
        lemma_entry_index_bounds(entries.drop_last(), key);
        assert forall|j: int| 0 <= j < entries.len() - 1 implies entries.drop_last()[j]
            == entries[j] by {}
    }
}

/// Position of the first entry with key `key`.
pub fn find_entry(entries: &Vec<(String, JsonValue)>, key: &str) -> (r: Option<usize>)
    ensures
        r matches Some(i) ==> i < entries.len() && entry_index(entries@, key@) == Some(i as int),
        r is None ==> entry_index(entries@, key@) is None,
{
    let mut i: usize = 0;
    while i < entries.len()
        invariant
            0 <= i <= entries.len(),
            forall|j: int| 0 <= j < i ==> entries@[j].0@ != key@,
        decreases entries.len() - i,
    {
        if str_eq(entries[i].0.as_str(), key) {
            proof {
                lemma_entry_index_bounds(entries@, key@);
            }
            return Some(i);
        }
        i = i + 1;
    }
    proof {
        lemma_entry_index_bounds(entries@, key@);
    }
    None
}

/// `&str` equality.
pub fn str_eq(a: &str, b: &str) -> (r: bool)
    ensures
        r == (a@ == b@),
{
    let x = crate::text::chars_of(a);
    let y = crate::text::chars_of(b);
    if x.len() != y.len() {
        return false;
    }
    let mut i: usize = 0;
    while i < x.len()
        invariant
            x@ == a@,
            y@ == b@,
            x.len() == y.len(),
            0 <= i <= x.len(),
            forall|j: int| 0 <= j < i ==> x@[j] == y@[j],
        decreases x.len() - i,
    {
        if x[i] != y[i] {
            return false;
        }
        i = i + 1;
    }
    assert(x@ =~= y@);
    true
}

/// The first value stored under `key`.
pub fn obj_get<'a>(entries: &'a Vec<(String, JsonValue)>, key: &str) -> (r: Option<&'a JsonValue>)
    ensures
        r matches Some(v) ==> lookup(entries@, key@) == Some(*v),
        r is None ==> lookup(entries@, key@) is None,
{
    match find_entry(entries, key) {
        Some(i) => Some(&entries[i].1),
        None => None,
    }
}

impl JsonValue {
    /// The member `key` of an object; `None` for other values.
    pub fn get(&self, key: &str) -> (r: Option<&JsonValue>)
        ensures
            r matches Some(v) ==> member(*self, key@) == Some(*v),
            r is None ==> member(*self, key@) is None,
    {
        match self {
            JsonValue::Object(entries) => obj_get(entries, key),
            _ => None,
        }
    }

    /// The text of a string value.
    pub fn as_str(&self) -> (r: Option<&str>)
        ensures
            r matches Some(s) ==> *self matches JsonValue::String(t) && s@ == t@,
            r is None ==> !(*self is String),
    {
        match self {
            JsonValue::String(s) => Some(s.as_str()),
            _ => None,
        }
    }

    /// A non-negative integer value that fits in `u64`.
    pub fn as_u64(&self) -> (r: Option<u64>)
        ensures
            r == spec_as_u64(*self),
    {
        match self {
            JsonValue::Number(JsonNumber::Int(i)) => {
                if 0 <= *i && *i <= 0xffff_ffff_ffff_ffffi128 {
                    Some(*i as u64)
                } else {
                    None
                }
            },
            _ => None,
        }
    }

    /// The elements of an array value.
    pub fn as_array(&self) -> (r: Option<&Vec<JsonValue>>)
        ensures
            r matches Some(a) ==> *self == JsonValue::Array(*a),
            r is None ==> !(*self is Array),
    {
        match self {
            JsonValue::Array(a) => Some(a),
            _ => None,
        }
    }
}

pub open spec fn spec_as_u64(v: JsonValue) -> Option<u64> {
    match v {
        JsonValue::Number(JsonNumber::Int(i)) => if 0 <= i <= u64::MAX {
            Some(i as u64)
        } else {
            None
        },
        _ => None,
    }
}

// ---------------------------------------------------------------------------
// Rendering
// ---------------------------------------------------------------------------

/// The decimal digit `d` (0..9) as a character.
pub open spec fn digit_char(d: int) -> char {
    (48 + d) as char
}

/// A lowercase hexadecimal digit.
pub open spec fn hex_char(d: int) -> char {
    if d < 10 { (48 + d) as char } else { (87 + d) as char }
}

/// Decimal rendering of a natural number.
pub open spec fn nat_text(n: nat) -> Seq<char>
    decreases n,
{
    if n < 10 {
        seq![digit_char(n as int)]
    } else {
        nat_text(n / 10).push(digit_char((n % 10) as int))
    }
}

/// Decimal rendering of an integer, with a leading `-` when negative.
pub open spec fn int_text(i: int) -> Seq<char> {
    if i < 0 { seq!['-'] + nat_text((-i) as nat) } else { nat_text(i as nat) }
}

/// The rendering of a number.
pub open spec fn number_text(n: JsonNumber) -> Seq<char> {
    match n {
        JsonNumber::Int(i) => int_text(i as int),
        JsonNumber::Float(t) => t@,
    }
}

/// How one character of a string is written inside JSON quotes.
pub open spec fn escape_char(c: char) -> Seq<char> {
    if c == '"' {
        seq!['\\', '"']
    } else if c == '\\' {
        seq!['\\', '\\']
    } else if c == '\n' {
        seq!['\\', 'n']
    } else if c == '\r' {
        seq!['\\', 'r']
    } else if c == '\t' {
        seq!['\\', 't']
    } else if (c as u32) == 8 {
        seq!['\\', 'b']
    } else if (c as u32) == 12 {
        seq!['\\', 'f']
    } else if (c as u32) < 32 {
        seq!['\\', 'u', '0', '0', hex_char(((c as u32) / 16) as int), hex_char(((c as u32) % 16) as int)]
    } else {
        seq![c]
    }
}

pub open spec fn escape_text(s: Seq<char>) -> Seq<char>
    decreases s.len(),
{
    if s.len() == 0 {
        seq![]
    } else {
        escape_text(s.drop_last()) + escape_char(s.last())
    }
}

/// A string as a JSON string literal.
pub open spec fn quoted(s: Seq<char>) -> Seq<char> {
    seq!['"'] + escape_text(s) + seq!['"']
}

/// Compact JSON rendering (no whitespace), keys in stored order.
pub open spec fn compact(v: JsonValue) -> Seq<char>
    decreases v, 0nat,
{
    match v {
        JsonValue::Null => seq!['n', 'u', 'l', 'l'],
        JsonValue::Bool(b) => if b { seq!['t', 'r', 'u', 'e'] } else { seq!['f', 'a', 'l', 's', 'e'] },
        JsonValue::Number(n) => number_text(n),
        JsonValue::String(s) => quoted(s@),
        JsonValue::Array(a) => seq!['['] + compact_items(a@) + seq![']'],
        JsonValue::Object(e) => seq!['{'] + compact_entries(e@) + seq!['}'],
    }
}

/// Comma-separated compact renderings of a sequence of values.
pub open spec fn compact_items(s: Seq<JsonValue>) -> Seq<char>
    decreases s, 1nat,
{
    if s.len() == 0 {
        seq![]
    } else if s.len() == 1 {
        compact(s[0])
    } else {
        compact_items(s.subrange(0, s.len() - 1)) + seq![','] + compact(s[s.len() - 1])
    }
}

/// Comma-separated `"key":value` members.
pub open spec fn compact_entries(s: Seq<(String, JsonValue)>) -> Seq<char>
    decreases s, 1nat,
{
    if s.len() == 0 {
        seq![]
    } else if s.len() == 1 {
        quoted(s[0].0@) + seq![':'] + compact(s[0].1)
    } else {
        compact_entries(s.subrange(0, s.len() - 1)) + seq![','] + quoted(s[s.len() - 1].0@)
            + seq![':'] + compact(s[s.len() - 1].1)
    }
}


/// Appends `s`.
pub fn push_str(out: &mut String, s: &str)
    ensures
        final(out)@ == old(out)@ + s@,
{
    out.append(s);
}

/// The character for decimal digit `d`.
pub fn digit(d: u8) -> (c: char)
    requires
        d < 10,
    ensures
        c == digit_char(d as int),
{
    let c = (48u8 + d) as char;
    c
}

/// The character for hexadecimal digit `d` (lowercase).
pub fn hex_digit(d: u8) -> (c: char)
    requires
        d < 16,
    ensures
        c == hex_char(d as int),
{
    if d < 10 {
        (48u8 + d) as char
    } else {
        (87u8 + d) as char
    }
}

/// Appends the decimal rendering of `n`.
pub fn write_nat(n: u128, out: &mut String)
    ensures
        final(out)@ == old(out)@ + nat_text(n as nat),
    decreases n,
{
    if n >= 10 {
        write_nat(n / 10, out);
    }
    let d = (n % 10) as u8;
    string_push(out, digit(d));
    proof {
        if n >= 10 {
            assert(old(out)@ + nat_text(n as nat) =~= old(out)@ + nat_text((n / 10) as nat) + seq![
                digit_char(d as int)]);
        } else {
            assert(old(out)@ + nat_text(n as nat) =~= old(out)@ + seq![digit_char(d as int)]);
        }
    }
}

/// Appends the decimal rendering of `i`.
pub fn write_int(i: i128, out: &mut String)
    ensures
        final(out)@ == old(out)@ + int_text(i as int),
{
    if i < 0 {
        string_push(out, '-');
        let m: u128 = ((0 - (i + 1)) as u128) + 1;
        write_nat(m, out);
        assert(old(out)@ + int_text(i as int) =~= old(out)@.push('-') + nat_text(m as nat));
    } else {
        write_nat(i as u128, out);
    }
}

/// Appends the JSON escape of one character.
pub fn write_escaped_char(c: char, out: &mut String)
    ensures
        final(out)@ == old(out)@ + escape_char(c),
{
    let u = c as u32;
    if c == '"' {
        push_str(out, "\\\"");
        proof { reveal_strlit("\\\""); }
    } else if c == '\\' {
        push_str(out, "\\\\");
        proof { reveal_strlit("\\\\"); }
    } else if c == '\n' {
        push_str(out, "\\n");
        proof { reveal_strlit("\\n"); }
    } else if c == '\r' {
        push_str(out, "\\r");
        proof { reveal_strlit("\\r"); }
    } else if c == '\t' {
        push_str(out, "\\t");
        proof { reveal_strlit("\\t"); }
    } else if u == 8 {
        push_str(out, "\\b");
        proof { reveal_strlit("\\b"); }
    } else if u == 12 {
        push_str(out, "\\f");
        proof { reveal_strlit("\\f"); }
    } else if u < 32 {
        push_str(out, "\\u00");
        proof { reveal_strlit("\\u00"); }
        string_push(out, hex_digit((u / 16) as u8));
        string_push(out, hex_digit((u % 16) as u8));
    } else {
        string_push(out, c);
    }
    assert(final(out)@ =~= old(out)@ + escape_char(c));
}

/// Appends the characters of `s` escaped for a JSON string literal.
pub fn write_escaped(s: &str, out: &mut String)
    ensures
        final(out)@ == old(out)@ + escape_text(s@),
{
    let ghost start = out@;
    for c in it: s.chars()
        invariant
            it.seq() == s@,
            out@ == start + escape_text(it.seq().take(it.index() as int)),
    {
        let ghost k = it.index() as int;
        proof {
            assert(s@.take(k + 1).drop_last() =~= s@.take(k));
            assert(s@.take(k + 1).last() == c);
        }
        write_escaped_char(c, out);
        assert(out@ =~= start + escape_text(s@.take(k + 1)));
    }
    assert(s@.take(s@.len() as int) =~= s@);
}

/// Appends `s` as a JSON string literal.
pub fn write_quoted(s: &str, out: &mut String)
    ensures
        final(out)@ == old(out)@ + quoted(s@),
{
    string_push(out, '"');
    write_escaped(s, out);
    string_push(out, '"');
    assert(final(out)@ =~= old(out)@ + quoted(s@));
}

/// Appends the rendering of a number.
pub fn write_number(n: &JsonNumber, out: &mut String)
    ensures
        final(out)@ == old(out)@ + number_text(*n),
{
    match n {
        JsonNumber::Int(i) => write_int(*i, out),
        JsonNumber::Float(t) => push_str(out, t.as_str()),
    }
}

/// Appends the compact JSON rendering of `v`.
#[verifier::loop_isolation(false)]
#[verifier::spinoff_prover]
#[verifier::rlimit(40)]
pub fn write_compact(v: &JsonValue, out: &mut String)
    ensures
        final(out)@ == old(out)@ + compact(*v),
    decreases v,
{
    match v {
        JsonValue::Null => {
            push_str(out, "null");
            proof { reveal_strlit("null"); }
        },
        JsonValue::Bool(b) => {
            if *b {
                push_str(out, "true");
                proof { reveal_strlit("true"); }
            } else {
                push_str(out, "false");
                proof { reveal_strlit("false"); }
            }
        },
        JsonValue::Number(n) => write_number(n, out),
        JsonValue::String(s) => write_quoted(s.as_str(), out),
        JsonValue::Array(a) => {
            let ghost start = out@;
            string_push(out, '[');
            let mut i: usize = 0;
            while i < a.len()
                invariant
                    0 <= i <= a.len(),
                    out@ == start + seq!['['] + compact_items(a@.subrange(0, i as int)),
                decreases a.len() - i,
            {
                let ghost pre = out@;
                if i > 0 {
                    string_push(out, ',');
                }
                assert((*v)->Array_0 == *a);
                assert(decreases_to!(*v => (*v)->Array_0));
                assert(decreases_to!(*a => a@));
                assert(decreases_to!(a@ => a@[i as int]));
                assert(decreases_to!(*v => a@[i as int]));
                write_compact(&a[i], out);
                proof {
                    let s2 = a@.subrange(0, i + 1);
                    assert(s2.subrange(0, s2.len() - 1) =~= a@.subrange(0, i as int));
                    assert(s2[s2.len() - 1] == a@[i as int]);
                    if i == 0 {
                        assert(a@.subrange(0, 0) =~= Seq::<JsonValue>::empty());
                    }
                    assert(out@ =~= start + seq!['['] + compact_items(s2));
                }
                i = i + 1;
            }
            string_push(out, ']');
            assert(a@.subrange(0, a.len() as int) =~= a@);
            assert(out@ =~= old(out)@ + compact(*v));
        },
        JsonValue::Object(e) => {
            let ghost start = out@;
            string_push(out, '{');
            let mut i: usize = 0;
            while i < e.len()
                invariant
                    0 <= i <= e.len(),
                    out@ == start + seq!['{'] + compact_entries(e@.subrange(0, i as int)),
                decreases e.len() - i,
            {
                if i > 0 {
                    string_push(out, ',');
                }
                write_quoted(e[i].0.as_str(), out);
                string_push(out, ':');
                assert((*v)->Object_0 == *e);
                assert(decreases_to!(*v => (*v)->Object_0));
                assert(decreases_to!(*e => e@));
                assert(decreases_to!(e@ => e@[i as int]));
                assert(decreases_to!(e@[i as int] => e@[i as int].1));
                assert(decreases_to!(*v => e@[i as int].1));
                write_compact(&e[i].1, out);
                proof {
                    let s2 = e@.subrange(0, i + 1);
                    assert(s2.subrange(0, s2.len() - 1) =~= e@.subrange(0, i as int));
                    assert(s2[s2.len() - 1] == e@[i as int]);
                    if i == 0 {
                        assert(e@.subrange(0, 0) =~= Seq::<(String, JsonValue)>::empty());
                    }
                    assert(out@ =~= start + seq!['{'] + compact_entries(s2));
                }
                i = i + 1;
            }
            string_push(out, '}');
            assert(e@.subrange(0, e.len() as int) =~= e@);
            assert(out@ =~= old(out)@ + compact(*v));
        },
    }
}


/// `level` levels of two-space indentation.
pub open spec fn indent(level: nat) -> Seq<char> {
    Seq::new(2 * level, |i: int| ' ')
}

/// Pretty JSON rendering (two-space indentation, `": "` after keys), the
/// layout of `serde_json::to_string_pretty`.
pub open spec fn pretty(v: JsonValue, level: nat) -> Seq<char>
    decreases v, 0nat,
{
    match v {
        JsonValue::Array(a) => if a@.len() == 0 {
            seq!['[', ']']
        } else {
            seq!['[', '\n'] + pretty_items(a@, level + 1) + seq!['\n'] + indent(level) + seq![']']
        },
        JsonValue::Object(e) => if e@.len() == 0 {
            seq!['{', '}']
        } else {
            seq!['{', '\n'] + pretty_entries(e@, level + 1) + seq!['\n'] + indent(level) + seq![
                '}']
        },
        _ => compact(v),
    }
}

/// Indented pretty renderings of a sequence of values, joined by `",\n"`.
pub open spec fn pretty_items(s: Seq<JsonValue>, level: nat) -> Seq<char>
    decreases s, 1nat,
{
    if s.len() == 0 {
        seq![]
    } else if s.len() == 1 {
        indent(level) + pretty(s[0], level)
    } else {
        pretty_items(s.subrange(0, s.len() - 1), level) + seq![',', '\n'] + indent(level) + pretty(
            s[s.len() - 1],
            level,
        )
    }
}

/// Indented `"key": value` members, joined by `",\n"`.
pub open spec fn pretty_entries(s: Seq<(String, JsonValue)>, level: nat) -> Seq<char>
    decreases s, 1nat,
{
    if s.len() == 0 {
        seq![]
    } else if s.len() == 1 {
        indent(level) + quoted(s[0].0@) + seq![':', ' '] + pretty(s[0].1, level)
    } else {
        pretty_entries(s.subrange(0, s.len() - 1), level) + seq![',', '\n'] + indent(level)
            + quoted(s[s.len() - 1].0@) + seq![':', ' '] + pretty(s[s.len() - 1].1, level)
    }
}

/// Appends `level` levels of indentation.
fn deeper(pad: &str, Ghost(level): Ghost<nat>) -> (r: String)
    requires
        pad@ == indent(level),
    ensures
        r@ == indent(level + 1),
{
    let mut r = String::new();
    push_str(&mut r, pad);
    push_str(&mut r, "  ");
    proof { reveal_strlit("  "); }
    assert(r@ =~= indent(level + 1));
    r
}

/// Appends the pretty JSON rendering of `v` at nesting depth `level`.
#[verifier::loop_isolation(false)]
#[verifier::spinoff_prover]
#[verifier::rlimit(40)]
fn write_pretty(v: &JsonValue, pad: &str, Ghost(level): Ghost<nat>, out: &mut String)
    requires
        pad@ == indent(level),
    ensures
        final(out)@ == old(out)@ + pretty(*v, level),
    decreases v,
{
    match v {
        JsonValue::Array(a) => {
            if a.len() == 0 {
                push_str(out, "[]");
                proof { reveal_strlit("[]"); }
                return;
            }
            let ghost start = out@;
            push_str(out, "[\n");
            proof { reveal_strlit("[\n"); }
            let inner = deeper(pad, Ghost(level));
            let mut i: usize = 0;
            while i < a.len()
                invariant
                    0 <= i <= a.len(),
                    out@ == start + seq!['[', '\n'] + pretty_items(
                        a@.subrange(0, i as int),
                        level + 1,
                    ),
                decreases a.len() - i,
            {
                if i > 0 {
                    push_str(out, ",\n");
                    proof { reveal_strlit(",\n"); }
                }
                push_str(out, inner.as_str());
                assert((*v)->Array_0 == *a);
                assert(decreases_to!(*v => (*v)->Array_0));
                assert(decreases_to!(*a => a@));
                assert(decreases_to!(a@ => a@[i as int]));
                write_pretty(&a[i], inner.as_str(), Ghost(level + 1), out);
                proof {
                    let s2 = a@.subrange(0, i + 1);
                    assert(s2.subrange(0, s2.len() - 1) =~= a@.subrange(0, i as int));
                    assert(s2[s2.len() - 1] == a@[i as int]);
                    if i == 0 {
                        assert(a@.subrange(0, 0) =~= Seq::<JsonValue>::empty());
                    }
                    assert(out@ =~= start + seq!['[', '\n'] + pretty_items(s2, level + 1));
                }
                i = i + 1;
            }
            string_push(out, '\n');
            push_str(out, pad);
            string_push(out, ']');
            assert(a@.subrange(0, a.len() as int) =~= a@);
            assert(out@ =~= old(out)@ + pretty(*v, level));
        },
        JsonValue::Object(e) => {
            if e.len() == 0 {
                push_str(out, "{}");
                proof { reveal_strlit("{}"); }
                return;
            }
            let ghost start = out@;
            push_str(out, "{\n");
            proof { reveal_strlit("{\n"); }
            let inner = deeper(pad, Ghost(level));
            let mut i: usize = 0;
            while i < e.len()
                invariant
                    0 <= i <= e.len(),
                    out@ == start + seq!['{', '\n'] + pretty_entries(
                        e@.subrange(0, i as int),
                        level + 1,
                    ),
                decreases e.len() - i,
            {
                if i > 0 {
                    push_str(out, ",\n");
                    proof { reveal_strlit(",\n"); }
                }
                push_str(out, inner.as_str());
                write_quoted(e[i].0.as_str(), out);
                push_str(out, ": ");
                proof { reveal_strlit(": "); }
                assert((*v)->Object_0 == *e);
                assert(decreases_to!(*v => (*v)->Object_0));
                assert(decreases_to!(*e => e@));
                assert(decreases_to!(e@ => e@[i as int]));
                assert(decreases_to!(e@[i as int] => e@[i as int].1));
                write_pretty(&e[i].1, inner.as_str(), Ghost(level + 1), out);
                proof {
                    let s2 = e@.subrange(0, i + 1);
                    assert(s2.subrange(0, s2.len() - 1) =~= e@.subrange(0, i as int));
                    assert(s2[s2.len() - 1] == e@[i as int]);
                    if i == 0 {
                        assert(e@.subrange(0, 0) =~= Seq::<(String, JsonValue)>::empty());
                    }
                    assert(out@ =~= start + seq!['{', '\n'] + pretty_entries(s2, level + 1));
                }
                i = i + 1;
            }
            string_push(out, '\n');
            push_str(out, pad);
            string_push(out, '}');
            assert(e@.subrange(0, e.len() as int) =~= e@);
            assert(out@ =~= old(out)@ + pretty(*v, level));
        },
        _ => write_compact(v, out),
    }
}

/// `serde_json::to_string` of a value.
pub fn to_compact_string(v: &JsonValue) -> (s: String)
    ensures
        s@ == compact(*v),
{
    let mut s = String::new();
    write_compact(v, &mut s);
    assert(s@ =~= compact(*v));
    s
}

/// `serde_json::to_string_pretty` of a value.
pub fn to_pretty_string(v: &JsonValue) -> (s: String)
    ensures
        s@ == pretty(*v, 0),
{
    let mut s = String::new();
    let pad = String::new();
    assert(pad@ =~= indent(0));
    write_pretty(v, pad.as_str(), Ghost(0), &mut s);
    assert(s@ =~= pretty(*v, 0));
    s
}

/// `serde_json::to_string_pretty` of an array holding `s`.
pub open spec fn pretty_list(s: Seq<JsonValue>) -> Seq<char> {
    if s.len() == 0 {
        seq!['[', ']']
    } else {
        seq!['[', '\n'] + pretty_items(s, 1) + seq!['\n', ']']
    }
}

/// `serde_json::to_string` of an array holding `s`.
pub open spec fn compact_list(s: Seq<JsonValue>) -> Seq<char> {
    seq!['['] + compact_items(s) + seq![']']
}

/// The pretty JSON array of `data`.
pub fn to_pretty_list(data: &[JsonValue]) -> (r: String)
    ensures
        r@ == pretty_list(data@),
{
    let mut out = String::new();
    if data.len() == 0 {
        push_str(&mut out, "[]");
        proof { reveal_strlit("[]"); }
        assert(out@ =~= pretty_list(data@));
        return out;
    }
    push_str(&mut out, "[\n");
    proof { reveal_strlit("[\n"); }
    let ghost start = out@;
    let pad = String::new();
    assert(pad@ =~= indent(0));
    let inner = deeper(pad.as_str(), Ghost(0));
    let mut i: usize = 0;
    while i < data.len()
        invariant
            0 <= i <= data.len(),
            inner@ == indent(1),
            out@ == start + pretty_items(data@.subrange(0, i as int), 1),
        decreases data.len() - i,
    {
        if i > 0 {
            push_str(&mut out, ",\n");
            proof { reveal_strlit(",\n"); }
        }
        push_str(&mut out, inner.as_str());
        write_pretty(&data[i], inner.as_str(), Ghost(1), &mut out);
        proof {
            let s2 = data@.subrange(0, i + 1);
            assert(s2.subrange(0, s2.len() - 1) =~= data@.subrange(0, i as int));
            assert(s2[s2.len() - 1] == data@[i as int]);
            if i == 0 {
                assert(data@.subrange(0, 0) =~= Seq::<JsonValue>::empty());
            }
            assert(out@ =~= start + pretty_items(s2, 1));
        }
        i = i + 1;
    }
    string_push(&mut out, '\n');
    string_push(&mut out, ']');
    assert(data@.subrange(0, data.len() as int) =~= data@);
    assert(out@ =~= pretty_list(data@));
    out
}

/// The compact JSON array of `data`.
pub fn to_compact_list(data: &[JsonValue]) -> (r: String)
    ensures
        r@ == compact_list(data@),
{
    let mut out = String::new();
    string_push(&mut out, '[');
    let ghost start = out@;
    let mut i: usize = 0;
    while i < data.len()
        invariant
            0 <= i <= data.len(),
            out@ == start + compact_items(data@.subrange(0, i as int)),
        decreases data.len() - i,
    {
        if i > 0 {
            string_push(&mut out, ',');
        }
        write_compact(&data[i], &mut out);
        proof {
            let s2 = data@.subrange(0, i + 1);
            assert(s2.subrange(0, s2.len() - 1) =~= data@.subrange(0, i as int));
            assert(s2[s2.len() - 1] == data@[i as int]);
            if i == 0 {
                assert(data@.subrange(0, 0) =~= Seq::<JsonValue>::empty());
            }
            assert(out@ =~= start + compact_items(s2));
        }
        i = i + 1;
    }
    string_push(&mut out, ']');
    assert(data@.subrange(0, data.len() as int) =~= data@);
    assert(out@ =~= compact_list(data@));
    out
}

} // verus!
