//! The compact (one line per item) and full (labelled block per item)
//! human-readable formats.
use vstd::prelude::*;
use vstd::string::*;
use crate::format::rows::{
    code_row_of, code_text, insn_of, str_of, CodeRow, CodeRowM, InsnRow,
};
use crate::format::values::{
    byte_len, char_count, concat, format_json_value, join, lemma_concat_push, lemma_join_push,
    pad_right, push_joined, push_padded, push_spaces, spaces, value_text, write_value_text,
};
use crate::json::{
    lookup, nat_text, obj_get, push_str, spec_as_u64, str_eq, write_nat, JsonValue,
};
use crate::query::strs;
use crate::text::string_push;

verus! {

broadcast use vstd::string::group_string_axioms;

/// What `str::len` reports for a string with these characters.
pub open spec fn str_len(s: Seq<char>) -> int {
    (byte_len(s) as usize) as int
}

/// The first 77 bytes of `v`, read back as characters.
pub open spec fn cut77(v: Seq<char>) -> Seq<char> {
    vstd::utf8::decode_utf8(vstd::utf8::encode_utf8(v).subrange(0, 77))
}

/// A `value` member as the compact format shows it: quoted, and cut to 77
/// bytes with `...` when longer than 80 bytes.
pub open spec fn quoted_value(v: Seq<char>) -> Seq<char> {
    if str_len(v) > 80 {
        seq!['"'] + cut77(v) + "...\""@
    } else {
        seq!['"'] + v + seq!['"']
    }
}

/// The primary parts of a compact line: address, name, `(size)` and the
/// quoted value, each when present.
pub open spec fn primary_parts(e: Seq<(String, JsonValue)>) -> Seq<Seq<char>> {
    let p0: Seq<Seq<char>> = seq![];
    let p1 = match str_of(lookup(e, "address"@)) {
        Some(a) => p0.push(a),
        None => p0,
    };
    let p2 = match str_of(lookup(e, "name"@)) {
        Some(n) => p1.push(n),
        None => p1,
    };
    let p3 = match lookup(e, "size"@) {
        Some(x) => match spec_as_u64(x) {
            Some(s) => p2.push(seq!['('] + nat_text(s as nat) + seq![')']),
            None => p2,
        },
        None => p2,
    };
    match str_of(lookup(e, "value"@)) {
        Some(v) => p3.push(quoted_value(v)),
        None => p3,
    }
}

/// `key=value` for every member.
pub open spec fn kv_parts(e: Seq<(String, JsonValue)>) -> Seq<Seq<char>> {
    e.map_values(|p: (String, JsonValue)| p.0@ + seq!['='] + value_text(p.1))
}

/// The keys that the primary parts or the special rows already show.
pub open spec fn compact_excluded(k: Seq<char>) -> bool {
    k == "address"@ || k == "name"@ || k == "size"@ || k == "value"@ || k == "mnemonic"@ || k
        == "bytes"@ || k == "operands"@ || k == "code"@ || k == "signature"@
}

/// Whether a member's text is worth showing as extra context.
pub open spec fn shown(s: Seq<char>) -> bool {
    !(s.len() == 0 || s == "null"@ || s == "\"\""@)
}

/// `key=value` for the other members whose text is worth showing.
pub open spec fn secondary_parts(e: Seq<(String, JsonValue)>) -> Seq<Seq<char>>
    decreases e.len(),
{
    if e.len() == 0 {
        seq![]
    } else {
        let r = secondary_parts(e.drop_last());
        let k = e.last().0@;
        let s = value_text(e.last().1);
        if compact_excluded(k) || !shown(s) {
            r
        } else {
            r.push(k + seq!['='] + s)
        }
    }
}

/// The compact line of an object that is neither code nor an instruction.
pub open spec fn compact_object_line(e: Seq<(String, JsonValue)>) -> Seq<char> {
    (if primary_parts(e).len() == 0 {
        join(kv_parts(e), "  "@)
    } else {
        join(primary_parts(e), "  "@)
    }) + (if secondary_parts(e).len() > 0 {
        "  "@ + join(secondary_parts(e), "  "@)
    } else {
        seq![]
    }) + seq!['\n']
}

/// One item of the compact format.
pub open spec fn compact_item(v: JsonValue) -> Seq<char> {
    match v {
        JsonValue::Object(e) => match code_row_of(e@) {
            Some(row) => (match row.signature {
                Some(sig) => sig + seq!['\n'],
                None => seq![],
            }) + code_text(row.code),
            None => match insn_of(e@) {
                Some(r) => pad_right(r.address, 12) + seq![' '] + pad_right(r.bytes, 16) + seq![
                    ' ',
                ] + r.mnemonic + seq![' '] + join(r.operands, ", "@) + seq!['\n'],
                None => compact_object_line(e@),
            },
        },
        _ => value_text(v) + seq!['\n'],
    }
}

pub open spec fn compact_text(data: Seq<JsonValue>) -> Seq<char> {
    if data.len() == 0 {
        "No results"@
    } else {
        concat(data.map_values(|v: JsonValue| compact_item(v)))
    }
}

/// The inputs the compact format can render: a long `value` is cut at byte
/// 77, which must fall between two characters.
pub open spec fn compact_cut_ok(v: JsonValue) -> bool {
    match v {
        JsonValue::Object(e) => (code_row_of(e@) is None && insn_of(e@) is None) ==> match str_of(
            lookup(e@, "value"@),
        ) {
            Some(s) => str_len(s) > 80 ==> vstd::utf8::is_char_boundary(
                vstd::utf8::encode_utf8(s),
                77,
            ),
            None => true,
        },
        _ => true,
    }
}

pub open spec fn compact_renderable(data: Seq<JsonValue>) -> bool {
    forall|i: int| 0 <= i < data.len() ==> #[trigger] compact_cut_ok(data[i])
}

fn is_compact_excluded(k: &str) -> (r: bool)
    ensures
        r == compact_excluded(k@),
{
    str_eq(k, "address") || str_eq(k, "name") || str_eq(k, "size") || str_eq(k, "value")
        || str_eq(k, "mnemonic") || str_eq(k, "bytes") || str_eq(k, "operands") || str_eq(
        k,
        "code",
    ) || str_eq(k, "signature")
}

fn quote_value(v: &str) -> (r: String)
    requires
        str_len(v@) > 80 ==> vstd::utf8::is_char_boundary(vstd::utf8::encode_utf8(v@), 77),
    ensures
        r@ == quoted_value(v@),
{
    let mut r = String::new();
    string_push(&mut r, '"');
    if v.len() > 80 {
        let (head, _) = v.split_at(77);
        proof {
            vstd::utf8::encode_utf8_decode_utf8(head@);
        }
        push_str(&mut r, head);
        push_str(&mut r, "...\"");
    } else {
        push_str(&mut r, v);
        string_push(&mut r, '"');
    }
    assert(r@ =~= quoted_value(v@));
    r
}

fn primary_list(e: &Vec<(String, JsonValue)>) -> (r: Vec<String>)
    requires
        match str_of(lookup(e@, "value"@)) {
            Some(s) => str_len(s) > 80 ==> vstd::utf8::is_char_boundary(
                vstd::utf8::encode_utf8(s),
                77,
            ),
            None => true,
        },
    ensures
        strs(r@) == primary_parts(e@),
{
    let mut parts: Vec<String> = Vec::new();
    let ghost p0 = strs(parts@);
    if let Some(JsonValue::String(a)) = obj_get(e, "address") {
        parts.push(a.as_str().to_owned());
    }
    let ghost p1 = strs(parts@);
    assert(p1 =~= match str_of(lookup(e@, "address"@)) {
        Some(a) => p0.push(a),
        None => p0,
    });
    if let Some(JsonValue::String(n)) = obj_get(e, "name") {
        parts.push(n.as_str().to_owned());
    }
    let ghost p2 = strs(parts@);
    assert(p2 =~= match str_of(lookup(e@, "name"@)) {
        Some(n) => p1.push(n),
        None => p1,
    });
    if let Some(x) = obj_get(e, "size") {
        if let Some(s) = x.as_u64() {
            let mut t = String::new();
            string_push(&mut t, '(');
            write_nat(s as u128, &mut t);
            string_push(&mut t, ')');
            assert(t@ =~= seq!['('] + nat_text(s as nat) + seq![')']);
            parts.push(t);
        }
    }
    let ghost p3 = strs(parts@);
    assert(p3 =~= match lookup(e@, "size"@) {
        Some(x) => match spec_as_u64(x) {
            Some(s) => p2.push(seq!['('] + nat_text(s as nat) + seq![')']),
            None => p2,
        },
        None => p2,
    });
    if let Some(JsonValue::String(v)) = obj_get(e, "value") {
        parts.push(quote_value(v.as_str()));
    }
    assert(strs(parts@) =~= primary_parts(e@));
    parts
}

fn secondary_list(e: &Vec<(String, JsonValue)>) -> (r: Vec<String>)
    ensures
        strs(r@) == secondary_parts(e@),
{
    let mut parts: Vec<String> = Vec::new();
    let mut i: usize = 0;
    while i < e.len()
        invariant
            0 <= i <= e.len(),
            strs(parts@) == secondary_parts(e@.subrange(0, i as int)),
        decreases e.len() - i,
    {
        proof {
            assert(e@.subrange(0, i + 1).drop_last() =~= e@.subrange(0, i as int));
        }
        let s = format_json_value(&e[i].1);
        let k = e[i].0.as_str();
        assert(e@.subrange(0, i + 1).last() == e@[i as int]);
        if !(is_compact_excluded(k) || s.as_str().is_empty() || str_eq(s.as_str(), "null")
            || str_eq(s.as_str(), "\"\"")) {
            let mut t = String::new();
            push_str(&mut t, k);
            string_push(&mut t, '=');
            push_str(&mut t, s.as_str());
            assert(t@ =~= k@ + seq!['='] + s@);
            let ghost pre = parts@;
            parts.push(t);
            assert(strs(parts@) =~= strs(pre).push(t@));
        }
        i = i + 1;
    }
    assert(e@.subrange(0, e.len() as int) =~= e@);
    parts
}

fn kv_list(e: &Vec<(String, JsonValue)>) -> (r: Vec<String>)
    ensures
        strs(r@) == kv_parts(e@),
{
    let mut parts: Vec<String> = Vec::new();
    let mut i: usize = 0;
    while i < e.len()
        invariant
            0 <= i <= e.len(),
            strs(parts@) == kv_parts(e@.subrange(0, i as int)),
        decreases e.len() - i,
    {
        let mut t = String::new();
        push_str(&mut t, e[i].0.as_str());
        string_push(&mut t, '=');
        write_value_text(&e[i].1, &mut t);
        assert(t@ =~= e@[i as int].0@ + seq!['='] + value_text(e@[i as int].1));
        let ghost pre = parts@;
        parts.push(t);
        assert(strs(parts@) =~= strs(pre).push(t@));
        assert(kv_parts(e@.subrange(0, i + 1)) =~= kv_parts(e@.subrange(0, i as int)).push(
            e@[i as int].0@ + seq!['='] + value_text(e@[i as int].1),
        ));
        i = i + 1;
    }
    assert(e@.subrange(0, e.len() as int) =~= e@);
    parts
}

fn write_compact_item(v: &JsonValue, out: &mut String)
    requires
        compact_cut_ok(*v),
    ensures
        final(out)@ == old(out)@ + compact_item(*v),
{
    match v {
        JsonValue::Object(e) => {
            if let Some(row) = CodeRow::parse(e) {
                if let Some(sig) = &row.signature {
                    push_str(out, sig.as_str());
                    string_push(out, '\n');
                }
                let t = row.code_text();
                push_str(out, t.as_str());
                assert(final(out)@ =~= old(out)@ + compact_item(*v));
                return ;
            }
            if let Some(row) = InsnRow::parse(e) {
                push_padded(out, row.address.as_str(), 12);
                string_push(out, ' ');
                push_padded(out, row.bytes.as_str(), 16);
                string_push(out, ' ');
                push_str(out, row.mnemonic.as_str());
                string_push(out, ' ');
                push_joined(out, &row.operands, ", ");
                string_push(out, '\n');
                assert(final(out)@ =~= old(out)@ + compact_item(*v));
                return ;
            }
            let parts = primary_list(e);
            if parts.len() == 0 {
                let kv = kv_list(e);
                push_joined(out, &kv, "  ");
            } else {
                push_joined(out, &parts, "  ");
            }
            let secondary = secondary_list(e);
            if secondary.len() > 0 {
                push_str(out, "  ");
                push_joined(out, &secondary, "  ");
            }
            string_push(out, '\n');
            assert(final(out)@ =~= old(out)@ + compact_item(*v));
        },
        _ => {
            write_value_text(v, out);
            string_push(out, '\n');
            assert(final(out)@ =~= old(out)@ + compact_item(*v));
        },
    }
}

/// One line per item with its key fields (see [`compact_item`]).
pub fn format_compact(data: &[JsonValue]) -> (r: String)
    requires
        compact_renderable(data@),
    ensures
        r@ == compact_text(data@),
{
    if data.len() == 0 {
        return "No results".to_owned();
    }
    let mut out = String::new();
    let mut i: usize = 0;
    while i < data.len()
        invariant
            0 <= i <= data.len(),
            compact_renderable(data@),
            out@ == concat(
                data@.subrange(0, i as int).map_values(|v: JsonValue| compact_item(v)),
            ),
        decreases data.len() - i,
    {
        assert(compact_cut_ok(data@[i as int]));
        write_compact_item(&data[i], &mut out);
        proof {
            let f = |v: JsonValue| compact_item(v);
            assert(data@.subrange(0, i + 1).map_values(f) =~= data@.subrange(0, i as int).map_values(
                f,
            ).push(compact_item(data@[i as int])));
            lemma_concat_push(
                data@.subrange(0, i as int).map_values(f),
                compact_item(data@[i as int]),
            );
        }
        i = i + 1;
    }
    assert(data@.subrange(0, data.len() as int) =~= data@);
    out
}

// ---------------------------------------------------------------------------
// Full format
// ---------------------------------------------------------------------------

/// `  type name (storage)`, one line.
pub open spec fn named_line(t: (Seq<char>, Seq<char>, Seq<char>)) -> Seq<char> {
    "  "@ + t.1 + seq![' '] + t.0 + " ("@ + t.2 + ")\n"@
}

/// A titled list of named lines, or nothing when the list is empty.
pub open spec fn named_section(title: Seq<char>, ps: Seq<(Seq<char>, Seq<char>, Seq<char>)>) -> Seq<
    char,
> {
    if ps.len() > 0 {
        title + concat(ps.map_values(|t: (Seq<char>, Seq<char>, Seq<char>)| named_line(t)))
    } else {
        seq![]
    }
}

/// Signature and function lines, a blank line, the code.
pub open spec fn full_code_head(row: CodeRowM) -> Seq<char> {
    (match row.signature {
        Some(sig) => "Signature: "@ + sig + seq!['\n'],
        None => seq![],
    }) + (match row.name {
        Some(n) => "Function:  "@ + n + seq!['\n'],
        None => seq![],
    }) + seq!['\n'] + code_text(row.code)
}

/// The labelled block of a decompile item.
pub open spec fn full_code_block(row: CodeRowM) -> Seq<char> {
    full_code_head(row) + named_section("\nParameters:\n"@, row.params) + named_section(
        "\nVariables:\n"@,
        row.variables,
    )
}

/// The widest key, in bytes.
pub open spec fn key_width(e: Seq<(String, JsonValue)>) -> int
    decreases e.len(),
{
    if e.len() == 0 {
        0
    } else {
        let w = key_width(e.drop_last());
        let k = str_len(e.last().0@);
        if k > w {
            k
        } else {
            w
        }
    }
}

/// `key:` padded to `width + 1`, two spaces, the value's text.
pub open spec fn full_line(p: (String, JsonValue), width: int) -> Seq<char> {
    pad_right(p.0@ + seq![':'], width + 1) + "  "@ + value_text(p.1) + seq!['\n']
}

pub open spec fn full_lines(e: Seq<(String, JsonValue)>, width: int) -> Seq<char> {
    concat(e.map_values(|p: (String, JsonValue)| full_line(p, width)))
}

pub open spec fn full_item(v: JsonValue) -> Seq<char> {
    match v {
        JsonValue::Object(e) => match code_row_of(e@) {
            Some(row) => full_code_block(row),
            None => full_lines(e@, key_width(e@)),
        },
        _ => value_text(v) + seq!['\n'],
    }
}

/// The blocks of all items separated by `---` lines.
pub open spec fn full_text(data: Seq<JsonValue>) -> Seq<char> {
    if data.len() == 0 {
        "No results"@
    } else {
        join(data.map_values(|v: JsonValue| full_item(v)), "---\n"@)
    }
}

fn write_named_section(title: &str, ps: &Vec<(String, String, String)>, out: &mut String)
    ensures
        final(out)@ == old(out)@ + named_section(title@, crate::format::rows::triples(ps@)),
{
    if ps.len() == 0 {
        assert(final(out)@ =~= old(out)@ + named_section(
            title@,
            crate::format::rows::triples(ps@),
        ));
        return ;
    }
    push_str(out, title);
    let ghost start = out@;
    let ghost tr = crate::format::rows::triples(ps@);
    let mut i: usize = 0;
    while i < ps.len()
        invariant
            0 <= i <= ps.len(),
            tr == crate::format::rows::triples(ps@),
            out@ == start + concat(
                tr.subrange(0, i as int).map_values(
                    |t: (Seq<char>, Seq<char>, Seq<char>)| named_line(t),
                ),
            ),
        decreases ps.len() - i,
    {
        let ghost pre = out@;
        push_str(out, "  ");
        push_str(out, ps[i].1.as_str());
        string_push(out, ' ');
        push_str(out, ps[i].0.as_str());
        push_str(out, " (");
        push_str(out, ps[i].2.as_str());
        push_str(out, ")\n");
        proof {
            let f = |t: (Seq<char>, Seq<char>, Seq<char>)| named_line(t);
            assert(tr[i as int] == (ps@[i as int].0@, ps@[i as int].1@, ps@[i as int].2@));
            assert(out@ =~= pre + named_line(tr[i as int]));
            assert(tr.subrange(0, i + 1).map_values(f) =~= tr.subrange(0, i as int).map_values(
                f,
            ).push(named_line(tr[i as int])));
            lemma_concat_push(tr.subrange(0, i as int).map_values(f), named_line(tr[i as int]));
        }
        i = i + 1;
    }
    assert(tr.subrange(0, ps.len() as int) =~= tr);
    assert(final(out)@ =~= old(out)@ + named_section(title@, tr));
}

fn write_full_code(row: &CodeRow, out: &mut String)
    ensures
        final(out)@ == old(out)@ + full_code_block(row@),
{
    if let Some(sig) = &row.signature {
        push_str(out, "Signature: ");
        push_str(out, sig.as_str());
        string_push(out, '\n');
    }
    if let Some(n) = &row.name {
        push_str(out, "Function:  ");
        push_str(out, n.as_str());
        string_push(out, '\n');
    }
    string_push(out, '\n');
    let t = row.code_text();
    push_str(out, t.as_str());
    assert(out@ =~= old(out)@ + full_code_head(row@));
    let ghost s1 = out@;
    write_named_section("\nParameters:\n", &row.params, out);
    write_named_section("\nVariables:\n", &row.variables, out);
    assert(final(out)@ =~= old(out)@ + full_code_block(row@));
}

fn widest_key(e: &Vec<(String, JsonValue)>) -> (w: usize)
    ensures
        w as int == key_width(e@),
{
    let mut w: usize = 0;
    let mut i: usize = 0;
    while i < e.len()
        invariant
            0 <= i <= e.len(),
            w as int == key_width(e@.subrange(0, i as int)),
        decreases e.len() - i,
    {
        proof {
            assert(e@.subrange(0, i + 1).drop_last() =~= e@.subrange(0, i as int));
        }
        let k = e[i].0.as_str().len();
        if k > w {
            w = k;
        }
        i = i + 1;
    }
    assert(e@.subrange(0, e.len() as int) =~= e@);
    w
}

fn write_full_lines(e: &Vec<(String, JsonValue)>, out: &mut String)
    ensures
        final(out)@ == old(out)@ + full_lines(e@, key_width(e@)),
{
    let w = widest_key(e);
    let mut i: usize = 0;
    while i < e.len()
        invariant
            0 <= i <= e.len(),
            w as int == key_width(e@),
            out@ == old(out)@ + concat(
                e@.subrange(0, i as int).map_values(|p: (String, JsonValue)| full_line(p, w as int)),
            ),
        decreases e.len() - i,
    {
        let ghost pre = out@;
        let k = e[i].0.as_str();
        let n = char_count(k);
        push_str(out, k);
        string_push(out, ':');
        let fill: usize = if w > n { w - n } else { 0 };
        push_spaces(out, fill);
        push_str(out, "  ");
        write_value_text(&e[i].1, out);
        string_push(out, '\n');
        proof {
            let f = |p: (String, JsonValue)| full_line(p, w as int);
            assert(spaces(fill as int) =~= spaces(w + 1 - (k@ + seq![':']).len()));
            assert(out@ =~= pre + full_line(e@[i as int], w as int));
            assert(e@.subrange(0, i + 1).map_values(f) =~= e@.subrange(0, i as int).map_values(
                f,
            ).push(full_line(e@[i as int], w as int)));
            lemma_concat_push(e@.subrange(0, i as int).map_values(f), full_line(e@[i as int], w as int));
        }
        i = i + 1;
    }
    assert(e@.subrange(0, e.len() as int) =~= e@);
}

fn write_full_item(v: &JsonValue, out: &mut String)
    ensures
        final(out)@ == old(out)@ + full_item(*v),
{
    match v {
        JsonValue::Object(e) => {
            match CodeRow::parse(e) {
                Some(row) => write_full_code(&row, out),
                None => write_full_lines(e, out),
            }
        },
        _ => {
            write_value_text(v, out);
            string_push(out, '\n');
            assert(final(out)@ =~= old(out)@ + full_item(*v));
        },
    }
}

/// A labelled block per item (see [`full_item`]).
pub fn format_full(data: &[JsonValue]) -> (r: String)
    ensures
        r@ == full_text(data@),
{
    if data.len() == 0 {
        return "No results".to_owned();
    }
    let mut out = String::new();
    let mut i: usize = 0;
    while i < data.len()
        invariant
            0 <= i <= data.len(),
            out@ == join(
                data@.subrange(0, i as int).map_values(|v: JsonValue| full_item(v)),
                "---\n"@,
            ),
        decreases data.len() - i,
    {
        if i > 0 {
            push_str(&mut out, "---\n");
        }
        write_full_item(&data[i], &mut out);
        proof {
            let f = |v: JsonValue| full_item(v);
            assert(data@.subrange(0, i + 1).map_values(f) =~= data@.subrange(0, i as int).map_values(
                f,
            ).push(full_item(data@[i as int])));
            lemma_join_push(
                data@.subrange(0, i as int).map_values(f),
                "---\n"@,
                full_item(data@[i as int]),
            );
        }
        i = i + 1;
    }
    assert(data@.subrange(0, data.len() as int) =~= data@);
    out
}

/// Whether one row can be shown in the compact format (see
/// [`compact_cut_ok`]).
pub fn compact_row_safe(v: &JsonValue) -> (r: bool)
    ensures
        r == compact_cut_ok(*v),
{
    match v {
        JsonValue::Object(e) => {
            if CodeRow::parse(e).is_some() || InsnRow::parse(e).is_some() {
                return true;
            }
            match obj_get(e, "value") {
                Some(JsonValue::String(s)) => {
                    let t = s.as_str();
                    if t.len() > 80 {
                        t.is_char_boundary(77)
                    } else {
                        true
                    }
                },
                _ => true,
            }
        },
        _ => true,
    }
}

/// Whether every row can be shown in the compact format (see
/// [`compact_renderable`]).
pub fn compact_safe(data: &[JsonValue]) -> (r: bool)
    ensures
        r == compact_renderable(data@),
{
    let mut i: usize = 0;
    while i < data.len()
        invariant
            0 <= i <= data.len(),
            forall|j: int| 0 <= j < i ==> #[trigger] compact_cut_ok(data@[j]),
        decreases data.len() - i,
    {
        if !compact_row_safe(&data[i]) {
            return false;
        }
        i = i + 1;
    }
    true
}

} // verus!
