//! Text renderings of single JSON values, and the layout helpers (joins,
//! padding, byte lengths) that the human-readable formats share.
use vstd::prelude::*;
use vstd::string::*;
use crate::json::{compact, number_text, push_str, write_compact, write_number, JsonValue};
use crate::query::strs;
use crate::text::string_push;

verus! {

broadcast use vstd::string::group_string_axioms;

/// The parts one after the other.
pub open spec fn concat(parts: Seq<Seq<char>>) -> Seq<char>
    decreases parts.len(),
{
    if parts.len() == 0 {
        seq![]
    } else {
        concat(parts.drop_last()) + parts.last()
    }
}

/// The parts with `sep` between neighbours.
pub open spec fn join(parts: Seq<Seq<char>>, sep: Seq<char>) -> Seq<char>
    decreases parts.len(),
{
    if parts.len() == 0 {
        seq![]
    } else if parts.len() == 1 {
        parts[0]
    } else {
        join(parts.drop_last(), sep) + sep + parts.last()
    }
}

/// `n` spaces (none when `n` is not positive).
pub open spec fn spaces(n: int) -> Seq<char> {
    Seq::new(if n > 0 { n as nat } else { 0 }, |i: int| ' ')
}

/// `format!("{:<width$}", s)`: `s` filled with spaces to `width` characters.
pub open spec fn pad_right(s: Seq<char>, width: int) -> Seq<char> {
    s + spaces(width - s.len())
}

/// The length in bytes of the UTF-8 encoding of `s` (`str::len`).
pub open spec fn byte_len(s: Seq<char>) -> nat {
    vstd::utf8::encode_utf8(s).len()
}

/// How a value reads in the human formats: strings bare, arrays as
/// `[a, b]`, objects as compact JSON.
pub open spec fn value_text(v: JsonValue) -> Seq<char>
    decreases v, 0nat,
{
    match v {
        JsonValue::Null => seq!['n', 'u', 'l', 'l'],
        JsonValue::Bool(b) => if b {
            seq!['t', 'r', 'u', 'e']
        } else {
            seq!['f', 'a', 'l', 's', 'e']
        },
        JsonValue::Number(n) => number_text(n),
        JsonValue::String(s) => s@,
        JsonValue::Array(a) => seq!['['] + value_texts(a@) + seq![']'],
        JsonValue::Object(_) => compact(v),
    }
}

/// The texts of `s` joined by `", "`.
pub open spec fn value_texts(s: Seq<JsonValue>) -> Seq<char>
    decreases s, 1nat,
{
    if s.len() == 0 {
        seq![]
    } else if s.len() == 1 {
        value_text(s[0])
    } else {
        value_texts(s.subrange(0, s.len() - 1)) + seq![',', ' '] + value_text(s[s.len() - 1])
    }
}

/// A CSV cell: arrays joined by `;` (never by the delimiter), other values
/// as [`value_text`].
pub open spec fn csv_text(v: JsonValue) -> Seq<char>
    decreases v, 0nat,
{
    match v {
        JsonValue::Array(a) => csv_texts(a@),
        _ => value_text(v),
    }
}

/// The CSV texts of `s` joined by `;`.
pub open spec fn csv_texts(s: Seq<JsonValue>) -> Seq<char>
    decreases s, 1nat,
{
    if s.len() == 0 {
        seq![]
    } else if s.len() == 1 {
        csv_text(s[0])
    } else {
        csv_texts(s.subrange(0, s.len() - 1)) + seq![';'] + csv_text(s[s.len() - 1])
    }
}

pub proof fn lemma_join_push(parts: Seq<Seq<char>>, sep: Seq<char>, p: Seq<char>)
    ensures
        join(parts.push(p), sep) == if parts.len() == 0 {
            p
        } else {
            join(parts, sep) + sep + p
        },
{
    assert(parts.push(p).drop_last() =~= parts);
}

pub proof fn lemma_concat_push(parts: Seq<Seq<char>>, p: Seq<char>)
    ensures
        concat(parts.push(p)) == concat(parts) + p,
{
    assert(parts.push(p).drop_last() =~= parts);
}

/// Appends `n` spaces.
pub fn push_spaces(out: &mut String, n: usize)
    ensures
        final(out)@ == old(out)@ + spaces(n as int),
{
    let mut i: usize = 0;
    while i < n
        invariant
            0 <= i <= n,
            out@ == old(out)@ + spaces(i as int),
        decreases n - i,
    {
        string_push(out, ' ');
        i = i + 1;
        assert(out@ =~= old(out)@ + spaces(i as int));
    }
}

/// The number of characters of `s`.
pub fn char_count(s: &str) -> (n: usize)
    ensures
        n == s@.len(),
{
    let v = crate::text::chars_of(s);
    v.len()
}

/// Appends `s` filled with spaces to `width` characters.
pub fn push_padded(out: &mut String, s: &str, width: usize)
    ensures
        final(out)@ == old(out)@ + pad_right(s@, width as int),
{
    let n = char_count(s);
    push_str(out, s);
    let fill: usize = if width > n { width - n } else { 0 };
    push_spaces(out, fill);
    assert(final(out)@ =~= old(out)@ + pad_right(s@, width as int));
}

/// Appends the parts joined by `sep`.
pub fn push_joined(out: &mut String, parts: &Vec<String>, sep: &str)
    ensures
        final(out)@ == old(out)@ + join(strs(parts@), sep@),
{
    let ghost start = out@;
    let mut i: usize = 0;
    while i < parts.len()
        invariant
            0 <= i <= parts.len(),
            out@ == start + join(strs(parts@.subrange(0, i as int)), sep@),
        decreases parts.len() - i,
    {
        if i > 0 {
            push_str(out, sep);
        }
        push_str(out, parts[i].as_str());
        proof {
            let pre = strs(parts@.subrange(0, i as int));
            assert(strs(parts@.subrange(0, i + 1)) =~= pre.push(parts@[i as int]@));
            lemma_join_push(pre, sep@, parts@[i as int]@);
        }
        i = i + 1;
    }
    assert(parts@.subrange(0, parts.len() as int) =~= parts@);
}

/// Appends [`value_text`] of `v`.
#[verifier::loop_isolation(false)]
#[verifier::spinoff_prover]
#[verifier::rlimit(40)]
pub fn write_value_text(v: &JsonValue, out: &mut String)
    ensures
        final(out)@ == old(out)@ + value_text(*v),
    decreases v,
{
    match v {
        JsonValue::Null => {
            push_str(out, "null");
            proof { reveal_strlit("null"); }
        },
        JsonValue::Bool(b) => {
            if *b {
                push_str(out, "true");
                proof { reveal_strlit("true"); }
            } else {
                push_str(out, "false");
                proof { reveal_strlit("false"); }
            }
        },
        JsonValue::Number(n) => write_number(n, out),
        JsonValue::String(s) => push_str(out, s.as_str()),
        JsonValue::Array(a) => {
            let ghost start = out@;
            string_push(out, '[');
            let mut i: usize = 0;
            while i < a.len()
                invariant
                    0 <= i <= a.len(),
                    out@ == start + seq!['['] + value_texts(a@.subrange(0, i as int)),
                decreases a.len() - i,
            {
                if i > 0 {
                    push_str(out, ", ");
                    proof { reveal_strlit(", "); }
                }
                assert((*v)->Array_0 == *a);
                assert(decreases_to!(*v => (*v)->Array_0));
                assert(decreases_to!(*a => a@));
                assert(decreases_to!(a@ => a@[i as int]));
                write_value_text(&a[i], out);
                proof {
                    let s2 = a@.subrange(0, i + 1);
                    assert(s2.subrange(0, s2.len() - 1) =~= a@.subrange(0, i as int));
                    assert(s2[s2.len() - 1] == a@[i as int]);
                    if i == 0 {
                        assert(a@.subrange(0, 0) =~= Seq::<JsonValue>::empty());
                    }
                    assert(out@ =~= start + seq!['['] + value_texts(s2));
                }
                i = i + 1;
            }
            string_push(out, ']');
            assert(a@.subrange(0, a.len() as int) =~= a@);
            assert(out@ =~= old(out)@ + value_text(*v));
        },
        JsonValue::Object(_) => write_compact(v, out),
    }
}

/// Appends [`csv_text`] of `v`.
#[verifier::loop_isolation(false)]
#[verifier::spinoff_prover]
#[verifier::rlimit(40)]
pub fn write_csv_text(v: &JsonValue, out: &mut String)
    ensures
        final(out)@ == old(out)@ + csv_text(*v),
    decreases v,
{
    match v {
        JsonValue::Array(a) => {
            let ghost start = out@;
            let mut i: usize = 0;
            while i < a.len()
                invariant
                    0 <= i <= a.len(),
                    out@ == start + csv_texts(a@.subrange(0, i as int)),
                decreases a.len() - i,
            {
                if i > 0 {
                    string_push(out, ';');
                }
                assert((*v)->Array_0 == *a);
                assert(decreases_to!(*v => (*v)->Array_0));
                assert(decreases_to!(*a => a@));
                assert(decreases_to!(a@ => a@[i as int]));
                write_csv_text(&a[i], out);
                proof {
                    let s2 = a@.subrange(0, i + 1);
                    assert(s2.subrange(0, s2.len() - 1) =~= a@.subrange(0, i as int));
                    assert(s2[s2.len() - 1] == a@[i as int]);
                    if i == 0 {
                        assert(a@.subrange(0, 0) =~= Seq::<JsonValue>::empty());
                    }
                    assert(out@ =~= start + csv_texts(s2));
                }
                i = i + 1;
            }
            assert(a@.subrange(0, a.len() as int) =~= a@);
            assert(out@ =~= old(out)@ + csv_text(*v));
        },
        _ => write_value_text(v, out),
    }
}

/// How a value reads in the human formats (see [`value_text`]).
pub fn format_json_value(v: &JsonValue) -> (r: String)
    ensures
        r@ == value_text(*v),
{
    let mut r = String::new();
    write_value_text(v, &mut r);
    assert(r@ =~= value_text(*v));
    r
}

/// A CSV cell (see [`csv_text`]).
pub fn format_csv_value(v: &JsonValue) -> (r: String)
    ensures
        r@ == csv_text(*v),
{
    let mut r = String::new();
    write_csv_text(v, &mut r);
    assert(r@ =~= csv_text(*v));
    r
}

} // verus!
