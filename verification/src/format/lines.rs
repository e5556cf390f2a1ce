//! The line structure of the JSON stream format: one line per row.
use vstd::prelude::*;
use crate::filter::numbers::{digit_run, lemma_nat_text};
use crate::json::{
    compact, compact_entries, compact_items, escape_char, escape_text, hex_char, int_text, nat_text,
    number_text, quoted, JsonNumber, JsonValue,
};
use super::stream_text;
use super::values::concat;

verus! {

/// No newline in `s`.
pub open spec fn no_newline(s: Seq<char>) -> bool {
    forall|i: int| 0 <= i < s.len() ==> s[i] != '\n'
}

/// How many newlines `s` holds.
pub open spec fn newline_count(s: Seq<char>) -> nat
    decreases s.len(),
{
    if s.len() == 0 {
        0
    } else {
        newline_count(s.drop_last()) + if s.last() == '\n' {
            1nat
        } else {
            0nat
        }
    }
}

/// Every number written as text in `v` is written on one line (true of
/// every number read from JSON).
pub open spec fn numbers_one_line(v: JsonValue) -> bool
    decreases v, 0nat,
{
    match v {
        JsonValue::Number(JsonNumber::Float(t)) => no_newline(t@),
        JsonValue::Array(a) => items_one_line(a@),
        JsonValue::Object(e) => entries_one_line(e@),
        _ => true,
    }
}

pub open spec fn items_one_line(s: Seq<JsonValue>) -> bool
    decreases s, 1nat,
{
    if s.len() == 0 {
        true
    } else {
        items_one_line(s.subrange(0, s.len() - 1)) && numbers_one_line(s[s.len() - 1])
    }
}

pub open spec fn entries_one_line(s: Seq<(String, JsonValue)>) -> bool
    decreases s, 1nat,
{
    if s.len() == 0 {
        true
    } else {
        entries_one_line(s.subrange(0, s.len() - 1)) && numbers_one_line(s[s.len() - 1].1)
    }
}

proof fn lemma_join(a: Seq<char>, b: Seq<char>)
    requires
        no_newline(a),
        no_newline(b),
    ensures
        no_newline(a + b),
{
    assert forall|i: int| 0 <= i < (a + b).len() implies (a + b)[i] != '\n' by {
        if i < a.len() {
            assert((a + b)[i] == a[i]);
        } else {
            assert((a + b)[i] == b[i - a.len()]);
        }
    }
}

proof fn lemma_escape_char(c: char)
    ensures
        no_newline(escape_char(c)),
{
    if c != '"' && c != '\\' && c != '\n' && c != '\r' && c != '\t' && (c as u32) != 8 && (c as u32)
        != 12 && (c as u32) < 32 {
        let h = ((c as u32) / 16) as int;
        let l = ((c as u32) % 16) as int;
        assert((hex_char(h) as u32) == 48 + h);
        assert(l < 10 ==> (hex_char(l) as u32) == 48 + l);
        assert(l >= 10 ==> (hex_char(l) as u32) == 87 + l);
        let s = escape_char(c);
        assert(s[4] == hex_char(h));
        assert(s[5] == hex_char(l));
    }
}

proof fn lemma_escape_text(s: Seq<char>)
    ensures
        no_newline(escape_text(s)),
    decreases s.len(),
{
    if s.len() > 0 {
        lemma_escape_text(s.drop_last());
        lemma_escape_char(s.last());
        lemma_join(escape_text(s.drop_last()), escape_char(s.last()));
    }
}

proof fn lemma_quoted(s: Seq<char>)
    ensures
        no_newline(quoted(s)),
{
    lemma_escape_text(s);
    lemma_join(seq!['"'], escape_text(s));
    lemma_join(seq!['"'] + escape_text(s), seq!['"']);
}

proof fn lemma_number(n: JsonNumber)
    requires
        numbers_one_line(JsonValue::Number(n)),
    ensures
        no_newline(number_text(n)),
{
    match n {
        JsonNumber::Int(i) => {
            let m: nat = if i < 0 {
                (-i) as nat
            } else {
                i as nat
            };
            lemma_nat_text(m);
            assert(digit_run(nat_text(m)));
            if i < 0 {
                lemma_join(seq!['-'], nat_text(m));
            }
            assert(int_text(i as int) == number_text(n));
        },
        JsonNumber::Float(_) => {},
    }
}

proof fn lemma_compact(v: JsonValue)
    requires
        numbers_one_line(v),
    ensures
        no_newline(compact(v)),
    decreases v, 0nat,
{
    match v {
        JsonValue::Number(n) => lemma_number(n),
        JsonValue::String(s) => lemma_quoted(s@),
        JsonValue::Array(a) => {
            lemma_items(a@);
            lemma_join(seq!['['], compact_items(a@));
            lemma_join(seq!['['] + compact_items(a@), seq![']']);
        },
        JsonValue::Object(e) => {
            lemma_entries(e@);
            lemma_join(seq!['{'], compact_entries(e@));
            lemma_join(seq!['{'] + compact_entries(e@), seq!['}']);
        },
        _ => {},
    }
}

proof fn lemma_items(s: Seq<JsonValue>)
    requires
        items_one_line(s),
    ensures
        no_newline(compact_items(s)),
    decreases s, 1nat,
{
    if s.len() == 1 {
        assert(s.subrange(0, 0) =~= seq![]);
        lemma_compact(s[0]);
    } else if s.len() > 1 {
        let d = s.subrange(0, s.len() - 1);
        lemma_items(d);
        lemma_compact(s[s.len() - 1]);
        lemma_join(compact_items(d), seq![',']);
        lemma_join(compact_items(d) + seq![','], compact(s[s.len() - 1]));
    }
}

proof fn lemma_entries(s: Seq<(String, JsonValue)>)
    requires
        entries_one_line(s),
    ensures
        no_newline(compact_entries(s)),
    decreases s, 1nat,
{
    if s.len() == 1 {
        lemma_quoted(s[0].0@);
        lemma_compact(s[0].1);
        lemma_join(quoted(s[0].0@), seq![':']);
        lemma_join(quoted(s[0].0@) + seq![':'], compact(s[0].1));
    } else if s.len() > 1 {
        let d = s.subrange(0, s.len() - 1);
        let last = s[s.len() - 1];
        lemma_entries(d);
        lemma_quoted(last.0@);
        lemma_compact(last.1);
        lemma_join(compact_entries(d), seq![',']);
        lemma_join(compact_entries(d) + seq![','], quoted(last.0@));
        lemma_join(compact_entries(d) + seq![','] + quoted(last.0@), seq![':']);
        lemma_join(compact_entries(d) + seq![','] + quoted(last.0@) + seq![':'], compact(last.1));
    }
}

proof fn lemma_count_join(a: Seq<char>, b: Seq<char>)
    ensures
        newline_count(a + b) == newline_count(a) + newline_count(b),
    decreases b.len(),
{
    if b.len() == 0 {
        assert(a + b =~= a);
    } else {
        lemma_count_join(a, b.drop_last());
        assert((a + b).drop_last() =~= a + b.drop_last());
        assert((a + b).last() == b.last());
    }
}

proof fn lemma_count_none(s: Seq<char>)
    requires
        no_newline(s),
    ensures
        newline_count(s) == 0,
    decreases s.len(),
{
    if s.len() > 0 {
        assert(s.last() == s[s.len() - 1]);
        lemma_count_none(s.drop_last());
    }
}

/// The JSON stream format writes one line per row: row `i` as its
/// compact JSON text, which holds no newline, then one newline; so the
/// output holds exactly as many newlines as there are rows, and the text
/// between the `i`-th and the next is row `i`.
pub proof fn law_stream_is_one_line_per_row(data: Seq<JsonValue>)
    requires
        forall|i: int| 0 <= i < data.len() ==> numbers_one_line(#[trigger] data[i]),
    ensures
        stream_text(data) == concat(data.map_values(|v: JsonValue| compact(v) + seq!['\n'])),
        forall|i: int| 0 <= i < data.len() ==> no_newline(#[trigger] compact(data[i])),
        newline_count(stream_text(data)) == data.len(),
    decreases data.len(),
{
    assert forall|i: int| 0 <= i < data.len() implies no_newline(#[trigger] compact(data[i])) by {
        lemma_compact(data[i]);
    }
    if data.len() > 0 {
        let d = data.drop_last();
        assert forall|i: int| 0 <= i < d.len() implies numbers_one_line(#[trigger] d[i]) by {
            assert(d[i] == data[i]);
        }
        law_stream_is_one_line_per_row(d);
        let f = |v: JsonValue| compact(v) + seq!['\n'];
        assert(data.map_values(f).drop_last() =~= d.map_values(f));
        let last = compact(data.last()) + seq!['\n'];
        assert(data.map_values(f).last() == last);
        lemma_count_join(stream_text(d), last);
        lemma_compact(data.last());
        lemma_count_none(compact(data.last()));
        lemma_count_join(compact(data.last()), seq!['\n']);
        let nl: Seq<char> = seq!['\n'];
        assert(nl.drop_last() =~= Seq::<char>::empty());
        assert(nl.last() == '\n');
        assert(newline_count(nl.drop_last()) == 0);
        assert(newline_count(nl) == 1);
        assert(concat(data.map_values(f)) == concat(data.map_values(f).drop_last()) + data.map_values(f).last());
        assert(stream_text(data) == stream_text(d) + last);
    } else {
        assert(data.map_values(|v: JsonValue| compact(v) + seq!['\n']) =~= seq![]);
    }
}


/// Integers are written in decimal: the text is all digits after a `-`
/// that appears exactly when the integer is negative, and the digits read
/// back as the integer's magnitude. The count format writes the number of
/// rows that way.
pub proof fn law_integers_are_written_in_decimal(i: int, data: Seq<JsonValue>)
    ensures
        ({
            let t = int_text(i);
            let digits = if i < 0 {
                t.drop_first()
            } else {
                t
            };
            &&& (t.len() > 0 && t[0] == '-') <==> i < 0
            &&& digit_run(digits)
            &&& crate::text::digits_value(digits) == (if i < 0 {
                -i
            } else {
                i
            })
        }),
        ({
            let c = super::formatted(data, super::OutputFormat::Count)->0;
            &&& digit_run(c)
            &&& crate::text::digits_value(c) == data.len()
        }),
{
    let m: nat = if i < 0 {
        (-i) as nat
    } else {
        i as nat
    };
    lemma_nat_text(m);
    lemma_nat_text(data.len());
    if i < 0 {
        assert((seq!['-'] + nat_text(m)).drop_first() =~= nat_text(m));
    } else {
        assert(nat_text(m).len() > 0);
        assert(crate::text::is_digit(nat_text(m)[0]));
    }
}

} // verus!
