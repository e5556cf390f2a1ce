//! The two row shapes that get their own layout (decompiled code and
//! disassembled instructions), and the C, assembly and minimal formats.
use vstd::prelude::*;
use vstd::string::*;
use crate::format::values::{
    concat, format_json_value, join, lemma_concat_push, pad_right, push_joined, push_padded,
    value_text, write_value_text,
};
use crate::json::{lookup, member, obj_get, pretty, push_str, to_pretty_string, JsonValue};
use crate::query::planner::opt_view;
use crate::query::strs;
use crate::text::string_push;

verus! {

broadcast use vstd::string::group_string_axioms;

/// The text of a string value, if the value is one.
pub open spec fn str_of(v: Option<JsonValue>) -> Option<Seq<char>> {
    match v {
        Some(JsonValue::String(s)) => Some(s@),
        _ => None,
    }
}

/// The text of a string value, or `d`.
pub open spec fn str_or(v: Option<JsonValue>, d: Seq<char>) -> Seq<char> {
    match str_of(v) {
        Some(s) => s,
        None => d,
    }
}

pub open spec fn deref_opt(o: Option<&JsonValue>) -> Option<JsonValue> {
    match o {
        Some(v) => Some(*v),
        None => None,
    }
}

pub open spec fn triples(v: Seq<(String, String, String)>) -> Seq<(Seq<char>, Seq<char>, Seq<char>)> {
    v.map_values(|t: (String, String, String)| (t.0@, t.1@, t.2@))
}

/// `(name, type, storage)` of each object in a list of parameters or
/// variables; a missing or non-string member reads `?`.
pub open spec fn named_items(s: Seq<JsonValue>) -> Seq<(Seq<char>, Seq<char>, Seq<char>)>
    decreases s.len(),
{
    if s.len() == 0 {
        seq![]
    } else {
        let r = named_items(s.drop_last());
        match s.last() {
            JsonValue::Object(o) => r.push(
                (
                    str_or(lookup(o@, "name"@), "?"@),
                    str_or(lookup(o@, "type"@), "?"@),
                    str_or(lookup(o@, "storage"@), "?"@),
                ),
            ),
            _ => r,
        }
    }
}

/// The named items of an array value; nothing for anything else.
pub open spec fn named_of(v: Option<JsonValue>) -> Seq<(Seq<char>, Seq<char>, Seq<char>)> {
    match v {
        Some(JsonValue::Array(a)) => named_items(a@),
        _ => seq![],
    }
}

/// A decompile item: its `code` and the optional companions.
pub struct CodeRow {
    pub code: String,
    pub signature: Option<String>,
    pub name: Option<String>,
    pub entry: Option<String>,
    /// `(name, type, storage)`
    pub params: Vec<(String, String, String)>,
    /// `(name, type, storage)`
    pub variables: Vec<(String, String, String)>,
}

pub struct CodeRowM {
    pub code: Seq<char>,
    pub signature: Option<Seq<char>>,
    pub name: Option<Seq<char>>,
    pub entry: Option<Seq<char>>,
    pub params: Seq<(Seq<char>, Seq<char>, Seq<char>)>,
    pub variables: Seq<(Seq<char>, Seq<char>, Seq<char>)>,
}

impl View for CodeRow {
    type V = CodeRowM;

    open spec fn view(&self) -> CodeRowM {
        CodeRowM {
            code: self.code@,
            signature: opt_view(self.signature),
            name: opt_view(self.name),
            entry: opt_view(self.entry),
            params: triples(self.params@),
            variables: triples(self.variables@),
        }
    }
}

/// The code row of an object, present exactly when it has a string `code`.
pub open spec fn code_row_of(e: Seq<(String, JsonValue)>) -> Option<CodeRowM> {
    match str_of(lookup(e, "code"@)) {
        Some(c) => Some(
            CodeRowM {
                code: c,
                signature: str_of(lookup(e, "signature"@)),
                name: str_of(lookup(e, "name"@)),
                entry: str_of(lookup(e, "entry"@)),
                params: named_of(lookup(e, "params"@)),
                variables: named_of(lookup(e, "variables"@)),
            },
        ),
        None => None,
    }
}

/// The code row of a value (objects only).
pub open spec fn code_row_in(v: JsonValue) -> Option<CodeRowM> {
    match v {
        JsonValue::Object(e) => code_row_of(e@),
        _ => None,
    }
}

/// The code with a trailing newline guaranteed.
pub open spec fn code_text(code: Seq<char>) -> Seq<char> {
    if code.len() > 0 && code.last() == '\n' {
        code
    } else {
        code.push('\n')
    }
}

/// A disassembled instruction.
pub struct InsnRow {
    pub address: String,
    pub bytes: String,
    pub mnemonic: String,
    pub operands: Vec<String>,
    pub loaded: Option<String>,
}

pub struct InsnRowM {
    pub address: Seq<char>,
    pub bytes: Seq<char>,
    pub mnemonic: Seq<char>,
    pub operands: Seq<Seq<char>>,
    pub loaded: Option<Seq<char>>,
}

impl View for InsnRow {
    type V = InsnRowM;

    open spec fn view(&self) -> InsnRowM {
        InsnRowM {
            address: self.address@,
            bytes: self.bytes@,
            mnemonic: self.mnemonic@,
            operands: strs(self.operands@),
            loaded: opt_view(self.loaded),
        }
    }
}

/// The operand texts of an `operands` member that is an array.
pub open spec fn operand_texts(v: Option<JsonValue>) -> Seq<Seq<char>> {
    match v {
        Some(JsonValue::Array(a)) => a@.map_values(|x: JsonValue| value_text(x)),
        _ => seq![],
    }
}

/// The instruction row of an object, present exactly when it has a string
/// `mnemonic`.
pub open spec fn insn_of(e: Seq<(String, JsonValue)>) -> Option<InsnRowM> {
    match str_of(lookup(e, "mnemonic"@)) {
        Some(m) => Some(
            InsnRowM {
                address: str_or(lookup(e, "address"@), "?"@),
                bytes: str_or(lookup(e, "bytes"@), seq![]),
                mnemonic: m,
                operands: operand_texts(lookup(e, "operands"@)),
                loaded: match lookup(e, "loaded"@) {
                    Some(l) => str_of(member(l, "value"@)),
                    None => None,
                },
            },
        ),
        None => None,
    }
}

pub open spec fn insn_in(v: JsonValue) -> Option<InsnRowM> {
    match v {
        JsonValue::Object(e) => insn_of(e@),
        _ => None,
    }
}

/// The string stored under `key`, if it is a string.
pub fn get_str(entries: &Vec<(String, JsonValue)>, key: &str) -> (r: Option<String>)
    ensures
        opt_view(r) == str_of(lookup(entries@, key@)),
{
    match obj_get(entries, key) {
        Some(JsonValue::String(s)) => Some(s.as_str().to_owned()),
        _ => None,
    }
}

/// The string stored under `key`, or `d`.
pub fn get_str_or(entries: &Vec<(String, JsonValue)>, key: &str, d: &str) -> (r: String)
    ensures
        r@ == str_or(lookup(entries@, key@), d@),
{
    match obj_get(entries, key) {
        Some(JsonValue::String(s)) => s.as_str().to_owned(),
        _ => d.to_owned(),
    }
}

/// Appends `(name, type, storage)` of each object in an array `src`.
pub fn collect_named(src: Option<&JsonValue>, out: &mut Vec<(String, String, String)>)
    ensures
        triples(final(out)@) == triples(old(out)@) + named_of(deref_opt(src)),
{
    let items = match src {
        Some(JsonValue::Array(items)) => items,
        _ => {
            assert(triples(out@) =~= triples(old(out)@) + named_of(deref_opt(src)));
            return ;
        },
    };
    let mut i: usize = 0;
    while i < items.len()
        invariant
            0 <= i <= items.len(),
            deref_opt(src) == Some(JsonValue::Array(*items)),
            triples(out@) == triples(old(out)@) + named_items(items@.subrange(0, i as int)),
        decreases items.len() - i,
    {
        proof {
            assert(items@.subrange(0, i + 1).drop_last() =~= items@.subrange(0, i as int));
        }
        if let JsonValue::Object(obj) = &items[i] {
            let n = get_str_or(obj, "name", "?");
            let t = get_str_or(obj, "type", "?");
            let s = get_str_or(obj, "storage", "?");
            let ghost pre = out@;
            out.push((n, t, s));
            assert(triples(out@) =~= triples(pre).push((n@, t@, s@)));
        }
        i = i + 1;
    }
    assert(items@.subrange(0, items.len() as int) =~= items@);
}

impl CodeRow {
    /// Reads a decompile item; `None` when it has no string `code`.
    pub fn parse(entries: &Vec<(String, JsonValue)>) -> (r: Option<CodeRow>)
        ensures
            match r {
                Some(row) => code_row_of(entries@) == Some(row@),
                None => code_row_of(entries@) is None,
            },
    {
        let code = match get_str(entries, "code") {
            Some(c) => c,
            None => return None,
        };
        let mut params: Vec<(String, String, String)> = Vec::new();
        let mut variables: Vec<(String, String, String)> = Vec::new();
        collect_named(obj_get(entries, "params"), &mut params);
        collect_named(obj_get(entries, "variables"), &mut variables);
        let row = CodeRow {
            code,
            signature: get_str(entries, "signature"),
            name: get_str(entries, "name"),
            entry: get_str(entries, "entry"),
            params,
            variables,
        };
        assert(triples(Seq::<(String, String, String)>::empty()) =~= seq![]);
        assert(row@.params =~= named_of(lookup(entries@, "params"@)));
        assert(row@.variables =~= named_of(lookup(entries@, "variables"@)));
        Some(row)
    }

    /// The code with a trailing newline guaranteed.
    pub fn code_text(&self) -> (r: String)
        ensures
            r@ == code_text(self.code@),
    {
        let mut s = self.code.as_str().to_owned();
        let cs = crate::text::chars_of(self.code.as_str());
        if cs.len() == 0 || cs[cs.len() - 1] != '\n' {
            string_push(&mut s, '\n');
        }
        s
    }
}

impl InsnRow {
    /// Reads a disassembly item; `None` when it has no string `mnemonic`.
    pub fn parse(entries: &Vec<(String, JsonValue)>) -> (r: Option<InsnRow>)
        ensures
            match r {
                Some(row) => insn_of(entries@) == Some(row@),
                None => insn_of(entries@) is None,
            },
    {
        let mnemonic = match get_str(entries, "mnemonic") {
            Some(m) => m,
            None => return None,
        };
        let mut operands: Vec<String> = Vec::new();
        if let Some(JsonValue::Array(ops)) = obj_get(entries, "operands") {
            let mut i: usize = 0;
            while i < ops.len()
                invariant
                    0 <= i <= ops.len(),
                    strs(operands@) == ops@.subrange(0, i as int).map_values(
                        |x: JsonValue| value_text(x),
                    ),
                decreases ops.len() - i,
            {
                let ghost pre = operands@;
                let t = format_json_value(&ops[i]);
                operands.push(t);
                proof {
                    let f = |x: JsonValue| value_text(x);
                    assert(strs(operands@) =~= strs(pre).push(t@));
                    assert(ops@.subrange(0, i + 1).map_values(f) =~= ops@.subrange(
                        0,
                        i as int,
                    ).map_values(f).push(value_text(ops@[i as int])));
                }
                i = i + 1;
            }
            assert(ops@.subrange(0, ops.len() as int) =~= ops@);
        } else {
            assert(strs(operands@) =~= seq![]);
        }
        let loaded = match obj_get(entries, "loaded") {
            Some(l) => match l.get("value") {
                Some(JsonValue::String(s)) => Some(s.as_str().to_owned()),
                _ => None,
            },
            None => None,
        };
        let row = InsnRow {
            address: get_str_or(entries, "address", "?"),
            bytes: get_str_or(entries, "bytes", ""),
            mnemonic,
            operands,
            loaded,
        };
        proof {
            reveal_strlit("");
            assert(""@ =~= Seq::<char>::empty());
        }
        assert(row@.operands =~= operand_texts(lookup(entries@, "operands"@)));
        Some(row)
    }
}

// ---------------------------------------------------------------------------
// C, assembly and minimal formats
// ---------------------------------------------------------------------------

/// One item of the C format: an `error` item as a comment, a code row with
/// a `// name @ entry` header when it has both, anything else as pretty JSON.
pub open spec fn c_item(v: JsonValue) -> Seq<char> {
    match str_of(member(v, "error"@)) {
        Some(err) => "// error: "@ + err + "\n\n"@,
        None => match code_row_in(v) {
            Some(row) => (if row.name is Some && row.entry is Some {
                "// "@ + row.name->0 + " @ "@ + row.entry->0 + seq!['\n']
            } else {
                seq![]
            }) + code_text(row.code) + seq!['\n'],
            None => pretty(v, 0) + seq!['\n'],
        },
    }
}

pub open spec fn c_text(data: Seq<JsonValue>) -> Seq<char> {
    concat(data.map_values(|v: JsonValue| c_item(v)))
}

/// One line of the assembly format:
/// `address  bytes(12) mnemonic(8) operands[  ; loads value]`.
pub open spec fn asm_line(r: InsnRowM) -> Seq<char> {
    r.address + "  "@ + pad_right(r.bytes, 12) + seq![' '] + pad_right(r.mnemonic, 8) + seq![' ']
        + join(r.operands, ", "@) + (match r.loaded {
        Some(l) => "  ; loads "@ + l,
        None => seq![],
    }) + seq!['\n']
}

pub open spec fn asm_item(v: JsonValue) -> Seq<char> {
    match insn_in(v) {
        Some(r) => asm_line(r),
        None => pretty(v, 0) + seq!['\n'],
    }
}

pub open spec fn asm_text(data: Seq<JsonValue>) -> Seq<char> {
    concat(data.map_values(|v: JsonValue| asm_item(v)))
}

/// The value the minimal format shows for an object: `address`, else
/// `name`, else `id`, else the first member.
pub open spec fn minimal_pick(e: Seq<(String, JsonValue)>) -> Option<JsonValue> {
    if lookup(e, "address"@) is Some {
        lookup(e, "address"@)
    } else if lookup(e, "name"@) is Some {
        lookup(e, "name"@)
    } else if lookup(e, "id"@) is Some {
        lookup(e, "id"@)
    } else if e.len() > 0 {
        Some(e[0].1)
    } else {
        None
    }
}

pub open spec fn minimal_item(v: JsonValue) -> Seq<char> {
    match v {
        JsonValue::Object(e) => (match minimal_pick(e@) {
            Some(x) => value_text(x),
            None => seq![],
        }) + seq!['\n'],
        _ => value_text(v) + seq!['\n'],
    }
}

pub open spec fn minimal_text(data: Seq<JsonValue>) -> Seq<char> {
    concat(data.map_values(|v: JsonValue| minimal_item(v)))
}

fn write_c_item(v: &JsonValue, out: &mut String)
    ensures
        final(out)@ == old(out)@ + c_item(*v),
{
    if let Some(JsonValue::String(err)) = v.get("error") {
        push_str(out, "// error: ");
        push_str(out, err.as_str());
        push_str(out, "\n\n");
        assert(final(out)@ =~= old(out)@ + c_item(*v));
        return ;
    }
    let row = match v {
        JsonValue::Object(e) => CodeRow::parse(e),
        _ => None,
    };
    match row {
        Some(row) => {
            let ghost start = out@;
            if let (Some(name), Some(entry)) = (&row.name, &row.entry) {
                push_str(out, "// ");
                push_str(out, name.as_str());
                push_str(out, " @ ");
                push_str(out, entry.as_str());
                string_push(out, '\n');
            }
            let ghost mid = out@;
            let t = row.code_text();
            push_str(out, t.as_str());
            string_push(out, '\n');
            assert(final(out)@ =~= old(out)@ + c_item(*v));
        },
        None => {
            let p = to_pretty_string(v);
            push_str(out, p.as_str());
            string_push(out, '\n');
            assert(final(out)@ =~= old(out)@ + c_item(*v));
        },
    }
}

/// Decompiled C: each item's code verbatim (see [`c_item`]).
pub fn format_c(data: &[JsonValue]) -> (r: String)
    ensures
        r@ == c_text(data@),
{
    let mut out = String::new();
    let mut i: usize = 0;
    while i < data.len()
        invariant
            0 <= i <= data.len(),
            out@ == concat(data@.subrange(0, i as int).map_values(|v: JsonValue| c_item(v))),
        decreases data.len() - i,
    {
        write_c_item(&data[i], &mut out);
        proof {
            let f = |v: JsonValue| c_item(v);
            assert(data@.subrange(0, i + 1).map_values(f) =~= data@.subrange(0, i as int).map_values(
                f,
            ).push(c_item(data@[i as int])));
            lemma_concat_push(data@.subrange(0, i as int).map_values(f), c_item(data@[i as int]));
        }
        i = i + 1;
    }
    assert(data@.subrange(0, data.len() as int) =~= data@);
    out
}

fn write_asm_item(v: &JsonValue, out: &mut String)
    ensures
        final(out)@ == old(out)@ + asm_item(*v),
{
    let row = match v {
        JsonValue::Object(e) => InsnRow::parse(e),
        _ => None,
    };
    match row {
        Some(row) => {
            push_str(out, row.address.as_str());
            push_str(out, "  ");
            push_padded(out, row.bytes.as_str(), 12);
            string_push(out, ' ');
            push_padded(out, row.mnemonic.as_str(), 8);
            string_push(out, ' ');
            push_joined(out, &row.operands, ", ");
            if let Some(l) = &row.loaded {
                push_str(out, "  ; loads ");
                push_str(out, l.as_str());
            }
            string_push(out, '\n');
            assert(final(out)@ =~= old(out)@ + asm_item(*v));
        },
        None => {
            let p = to_pretty_string(v);
            push_str(out, p.as_str());
            string_push(out, '\n');
            assert(final(out)@ =~= old(out)@ + asm_item(*v));
        },
    }
}

/// Disassembly, one instruction per line (see [`asm_line`]).
pub fn format_asm(data: &[JsonValue]) -> (r: String)
    ensures
        r@ == asm_text(data@),
{
    let mut out = String::new();
    let mut i: usize = 0;
    while i < data.len()
        invariant
            0 <= i <= data.len(),
            out@ == concat(data@.subrange(0, i as int).map_values(|v: JsonValue| asm_item(v))),
        decreases data.len() - i,
    {
        write_asm_item(&data[i], &mut out);
        proof {
            let f = |v: JsonValue| asm_item(v);
            assert(data@.subrange(0, i + 1).map_values(f) =~= data@.subrange(0, i as int).map_values(
                f,
            ).push(asm_item(data@[i as int])));
            lemma_concat_push(data@.subrange(0, i as int).map_values(f), asm_item(data@[i as int]));
        }
        i = i + 1;
    }
    assert(data@.subrange(0, data.len() as int) =~= data@);
    out
}

fn write_minimal_item(v: &JsonValue, out: &mut String)
    ensures
        final(out)@ == old(out)@ + minimal_item(*v),
{
    match v {
        JsonValue::Object(e) => {
            let pick = match obj_get(e, "address") {
                Some(x) => Some(x),
                None => match obj_get(e, "name") {
                    Some(x) => Some(x),
                    None => match obj_get(e, "id") {
                        Some(x) => Some(x),
                        None => if e.len() > 0 {
                            Some(&e[0].1)
                        } else {
                            None
                        },
                    },
                },
            };
            if let Some(x) = pick {
                write_value_text(x, out);
            }
            string_push(out, '\n');
            assert(final(out)@ =~= old(out)@ + minimal_item(*v));
        },
        _ => {
            write_value_text(v, out);
            string_push(out, '\n');
            assert(final(out)@ =~= old(out)@ + minimal_item(*v));
        },
    }
}

/// One identifying value per line (see [`minimal_pick`]).
pub fn format_minimal(data: &[JsonValue]) -> (r: String)
    ensures
        r@ == minimal_text(data@),
{
    let mut out = String::new();
    let mut i: usize = 0;
    while i < data.len()
        invariant
            0 <= i <= data.len(),
            out@ == concat(
                data@.subrange(0, i as int).map_values(|v: JsonValue| minimal_item(v)),
            ),
        decreases data.len() - i,
    {
        write_minimal_item(&data[i], &mut out);
        proof {
            let f = |v: JsonValue| minimal_item(v);
            assert(data@.subrange(0, i + 1).map_values(f) =~= data@.subrange(0, i as int).map_values(
                f,
            ).push(minimal_item(data@[i as int])));
            lemma_concat_push(
                data@.subrange(0, i as int).map_values(f),
                minimal_item(data@[i as int]),
            );
        }
        i = i + 1;
    }
    assert(data@.subrange(0, data.len() as int) =~= data@);
    out
}


/// The minimal and ids formats show one line per row: for an object, its
/// address when it has one, else its name, else its id, else its first
/// member's value (an empty line for an empty object); any other row as
/// its own text.
pub proof fn law_minimal_shows_the_address_first(v: JsonValue)
    ensures
        v matches JsonValue::Object(e) ==> minimal_item(v) == (if lookup(e@, "address"@) is Some {
            value_text(lookup(e@, "address"@)->0)
        } else if lookup(e@, "name"@) is Some {
            value_text(lookup(e@, "name"@)->0)
        } else if lookup(e@, "id"@) is Some {
            value_text(lookup(e@, "id"@)->0)
        } else if e@.len() > 0 {
            value_text(e@[0].1)
        } else {
            Seq::<char>::empty()
        }).push('\n'),
        !(v is Object) ==> minimal_item(v) == value_text(v).push('\n'),
{
    if let JsonValue::Object(e) = v {
        let t = match minimal_pick(e@) {
            Some(x) => value_text(x),
            None => seq![],
        };
        assert(t + seq!['\n'] =~= t.push('\n'));
    } else {
        assert(value_text(v) + seq!['\n'] =~= value_text(v).push('\n'));
    }
}

} // verus!
