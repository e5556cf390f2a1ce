//! The tabular formats: a drawn table, CSV and TSV. Their columns are the
//! union of the object rows' keys in first-seen order.
use vstd::prelude::*;
use vstd::string::*;
use crate::format::values::{
    csv_text, join, push_joined, value_text, write_csv_text, write_value_text,
};
use crate::json::{lookup, nat_text, obj_get, push_str, str_eq, write_nat, JsonValue};
use crate::query::strs;
use crate::text::string_push;

verus! {

broadcast use vstd::string::group_string_axioms;

/// `acc` extended by the keys of `e` that it does not hold yet, in order.
pub open spec fn add_keys(acc: Seq<Seq<char>>, e: Seq<(String, JsonValue)>) -> Seq<Seq<char>>
    decreases e.len(),
{
    if e.len() == 0 {
        acc
    } else {
        let a = add_keys(acc, e.drop_last());
        if a.contains(e.last().0@) {
            a
        } else {
            a.push(e.last().0@)
        }
    }
}

/// The union of the keys of the object rows, in first-seen order.
pub open spec fn keys_of(rows: Seq<JsonValue>) -> Seq<Seq<char>>
    decreases rows.len(),
{
    if rows.len() == 0 {
        seq![]
    } else {
        match rows.last() {
            JsonValue::Object(e) => add_keys(keys_of(rows.drop_last()), e@),
            _ => keys_of(rows.drop_last()),
        }
    }
}

/// The cells of one object row under the given columns (empty where the
/// row lacks the key).
pub open spec fn cells(keys: Seq<Seq<char>>, e: Seq<(String, JsonValue)>, csv: bool) -> Seq<
    Seq<char>,
> {
    keys.map_values(
        |k: Seq<char>|
            match lookup(e, k) {
                Some(v) => if csv {
                    csv_text(v)
                } else {
                    value_text(v)
                },
                None => seq![],
            },
    )
}

/// The cell rows of the table (non-object rows are skipped).
pub open spec fn table_rows(keys: Seq<Seq<char>>, rows: Seq<JsonValue>) -> Seq<Seq<Seq<char>>>
    decreases rows.len(),
{
    if rows.len() == 0 {
        seq![]
    } else {
        let r = table_rows(keys, rows.drop_last());
        match rows.last() {
            JsonValue::Object(e) => r.push(cells(keys, e@, false)),
            _ => r,
        }
    }
}

/// The drawing of a table with this header and these rows in comfy-table's
/// UTF-8 full style.
pub uninterp spec fn table_text(header: Seq<Seq<char>>, rows: Seq<Seq<Seq<char>>>) -> Seq<char>;

/// The table format: `No results` for no rows, `N results` when no row is
/// an object with keys, else the drawn table.
pub open spec fn table_out(data: Seq<JsonValue>) -> Seq<char> {
    if data.len() == 0 {
        "No results"@
    } else if keys_of(data).len() == 0 {
        nat_text(data.len()) + " results"@
    } else {
        table_text(keys_of(data), table_rows(keys_of(data), data))
    }
}

/// The CSV data lines (non-object rows are skipped).
pub open spec fn csv_lines(keys: Seq<Seq<char>>, rows: Seq<JsonValue>, d: char) -> Seq<char>
    decreases rows.len(),
{
    if rows.len() == 0 {
        seq![]
    } else {
        csv_lines(keys, rows.drop_last(), d) + match rows.last() {
            JsonValue::Object(e) => join(cells(keys, e@, true), seq![d]) + seq!['\n'],
            _ => seq![],
        }
    }
}

/// The CSV (or TSV) format: a header line and one line per object row,
/// without quoting; empty when there are no columns.
pub open spec fn csv_out(data: Seq<JsonValue>, d: char) -> Seq<char> {
    if data.len() == 0 || keys_of(data).len() == 0 {
        seq![]
    } else {
        join(keys_of(data), seq![d]) + seq!['\n'] + csv_lines(keys_of(data), data, d)
    }
}

/// Draws the table with comfy-table.
///
/// Calls `Table::new`, `load_preset(UTF8_FULL)`, `set_header`, `add_rows` and
/// `to_string`. The result is named [`table_text`]: with the default
/// (disabled) content arrangement and no cell styling, comfy-table's source
/// lays the table out from the header and rows alone; nothing else of the
/// drawing is stated.
#[verifier::external_body]
fn render_table(header: &Vec<String>, rows: &Vec<Vec<String>>) -> (r: String)
    ensures
        r@ == table_text(strs(header@), rows@.map_values(|row: Vec<String>| strs(row@))),
{
    let mut table = comfy_table::Table::new();
    table.load_preset(comfy_table::presets::UTF8_FULL);
    table.set_header(header);
    table.add_rows(rows);
    table.to_string()
}

/// Whether `keys` holds `k`.
pub fn has_key(keys: &Vec<String>, k: &str) -> (r: bool)
    ensures
        r == strs(keys@).contains(k@),
{
    let mut i: usize = 0;
    while i < keys.len()
        invariant
            0 <= i <= keys.len(),
            forall|j: int| 0 <= j < i ==> keys@[j]@ != k@,
        decreases keys.len() - i,
    {
        if str_eq(keys[i].as_str(), k) {
            assert(strs(keys@)[i as int] == k@);
            return true;
        }
        i = i + 1;
    }
    assert forall|j: int| 0 <= j < strs(keys@).len() implies strs(keys@)[j] != k@ by {
        assert(strs(keys@)[j] == keys@[j]@);
    }
    false
}

fn add_entry_keys(keys: &mut Vec<String>, e: &Vec<(String, JsonValue)>)
    ensures
        strs(final(keys)@) == add_keys(strs(old(keys)@), e@),
{
    let mut i: usize = 0;
    while i < e.len()
        invariant
            0 <= i <= e.len(),
            strs(keys@) == add_keys(strs(old(keys)@), e@.subrange(0, i as int)),
        decreases e.len() - i,
    {
        proof {
            assert(e@.subrange(0, i + 1).drop_last() =~= e@.subrange(0, i as int));
            assert(e@.subrange(0, i + 1).last() == e@[i as int]);
        }
        let k = e[i].0.as_str();
        if !has_key(keys, k) {
            let ghost pre = keys@;
            keys.push(k.to_owned());
            assert(strs(keys@) =~= strs(pre).push(k@));
        }
        i = i + 1;
    }
    assert(e@.subrange(0, e.len() as int) =~= e@);
}

/// The columns for tabular output: the union of the object rows' keys in
/// first-seen order.
pub fn union_keys(data: &[JsonValue]) -> (r: Vec<String>)
    ensures
        strs(r@) == keys_of(data@),
{
    let mut keys: Vec<String> = Vec::new();
    let mut i: usize = 0;
    assert(strs(keys@) =~= seq![]);
    while i < data.len()
        invariant
            0 <= i <= data.len(),
            strs(keys@) == keys_of(data@.subrange(0, i as int)),
        decreases data.len() - i,
    {
        proof {
            assert(data@.subrange(0, i + 1).drop_last() =~= data@.subrange(0, i as int));
            assert(data@.subrange(0, i + 1).last() == data@[i as int]);
        }
        if let JsonValue::Object(e) = &data[i] {
            add_entry_keys(&mut keys, e);
        }
        i = i + 1;
    }
    assert(data@.subrange(0, data.len() as int) =~= data@);
    keys
}

fn row_cells(keys: &Vec<String>, e: &Vec<(String, JsonValue)>, csv: bool) -> (r: Vec<String>)
    ensures
        strs(r@) == cells(strs(keys@), e@, csv),
{
    let mut r: Vec<String> = Vec::new();
    let mut i: usize = 0;
    while i < keys.len()
        invariant
            0 <= i <= keys.len(),
            strs(r@) == cells(strs(keys@.subrange(0, i as int)), e@, csv),
        decreases keys.len() - i,
    {
        let mut t = String::new();
        match obj_get(e, keys[i].as_str()) {
            Some(v) => {
                if csv {
                    write_csv_text(v, &mut t);
                } else {
                    write_value_text(v, &mut t);
                }
            },
            None => {},
        }
        let ghost pre = r@;
        r.push(t);
        proof {
            assert(strs(keys@.subrange(0, i + 1)) =~= strs(keys@.subrange(0, i as int)).push(
                keys@[i as int]@,
            ));
            assert(strs(r@) =~= strs(pre).push(t@));
            assert(cells(strs(keys@.subrange(0, i + 1)), e@, csv) =~= cells(
                strs(keys@.subrange(0, i as int)),
                e@,
                csv,
            ).push(t@));
        }
        i = i + 1;
    }
    assert(keys@.subrange(0, keys.len() as int) =~= keys@);
    r
}

/// The drawn table (see [`table_out`]).
pub fn format_table(data: &[JsonValue]) -> (r: String)
    ensures
        r@ == table_out(data@),
{
    if data.len() == 0 {
        return "No results".to_owned();
    }
    let keys = union_keys(data);
    if keys.len() == 0 {
        let mut r = String::new();
        write_nat(data.len() as u128, &mut r);
        push_str(&mut r, " results");
        assert(r@ =~= table_out(data@));
        return r;
    }
    let mut rows: Vec<Vec<String>> = Vec::new();
    let ghost kv = strs(keys@);
    let mut i: usize = 0;
    while i < data.len()
        invariant
            0 <= i <= data.len(),
            kv == strs(keys@),
            rows@.map_values(|row: Vec<String>| strs(row@)) == table_rows(
                kv,
                data@.subrange(0, i as int),
            ),
        decreases data.len() - i,
    {
        proof {
            assert(data@.subrange(0, i + 1).drop_last() =~= data@.subrange(0, i as int));
            assert(data@.subrange(0, i + 1).last() == data@[i as int]);
        }
        if let JsonValue::Object(e) = &data[i] {
            let row = row_cells(&keys, e, false);
            let ghost pre = rows@;
            rows.push(row);
            assert(rows@.map_values(|row: Vec<String>| strs(row@)) =~= pre.map_values(
                |row: Vec<String>| strs(row@),
            ).push(strs(row@)));
        }
        i = i + 1;
    }
    assert(data@.subrange(0, data.len() as int) =~= data@);
    render_table(&keys, &rows)
}

/// CSV with delimiter `d` (see [`csv_out`]).
pub fn format_csv(data: &[JsonValue], d: char) -> (r: String)
    ensures
        r@ == csv_out(data@, d),
{
    if data.len() == 0 {
        return String::new();
    }
    let keys = union_keys(data);
    if keys.len() == 0 {
        return String::new();
    }
    let mut sep = String::new();
    string_push(&mut sep, d);
    let mut out = String::new();
    push_joined(&mut out, &keys, sep.as_str());
    string_push(&mut out, '\n');
    let ghost head = out@;
    let ghost kv = strs(keys@);
    let mut i: usize = 0;
    while i < data.len()
        invariant
            0 <= i <= data.len(),
            kv == strs(keys@),
            sep@ == seq![d],
            out@ == head + csv_lines(kv, data@.subrange(0, i as int), d),
        decreases data.len() - i,
    {
        proof {
            assert(data@.subrange(0, i + 1).drop_last() =~= data@.subrange(0, i as int));
            assert(data@.subrange(0, i + 1).last() == data@[i as int]);
        }
        let ghost pre = out@;
        if let JsonValue::Object(e) = &data[i] {
            let row = row_cells(&keys, e, true);
            push_joined(&mut out, &row, sep.as_str());
            string_push(&mut out, '\n');
        }
        assert(out@ =~= head + csv_lines(kv, data@.subrange(0, i + 1), d));
        i = i + 1;
    }
    assert(data@.subrange(0, data.len() as int) =~= data@);
    assert(out@ =~= csv_out(data@, d));
    out
}

proof fn lemma_add_keys(acc: Seq<Seq<char>>, e: Seq<(String, JsonValue)>)
    requires
        acc.no_duplicates(),
    ensures
        add_keys(acc, e).no_duplicates(),
        forall|k: Seq<char>|
            #[trigger] add_keys(acc, e).contains(k) <==> (acc.contains(k) || exists|j: int|
                0 <= j < e.len() && (#[trigger] e[j]).0@ == k),
    decreases e.len(),
{
    if e.len() > 0 {
        let init = e.drop_last();
        lemma_add_keys(acc, init);
        let a = add_keys(acc, init);
        assert forall|k: Seq<char>| #[trigger] add_keys(acc, e).contains(k) <==> (acc.contains(k)
            || exists|j: int| 0 <= j < e.len() && (#[trigger] e[j]).0@ == k) by {
            if add_keys(acc, e).contains(k) && !acc.contains(k) {
                if a.contains(k) {
                    let j = choose|j: int| 0 <= j < init.len() && (#[trigger] init[j]).0@ == k;
                    assert(e[j] == init[j]);
                } else {
                    assert(e[e.len() - 1].0@ == k);
                }
            }
            if exists|j: int| 0 <= j < e.len() && (#[trigger] e[j]).0@ == k {
                let j = choose|j: int| 0 <= j < e.len() && (#[trigger] e[j]).0@ == k;
                if j < init.len() {
                    assert(init[j] == e[j]);
                    assert(a.contains(k));
                } else {
                    assert(a.push(k).last() == k);
                }
            }
            if a.contains(k) && !a.contains(e.last().0@) {
                let w = choose|w: int| 0 <= w < a.len() && a[w] == k;
                assert(a.push(e.last().0@)[w] == k);
            }
        }
    }
}

/// Row `row` is an object whose `j`-th entry has key `k`.
pub open spec fn row_key_at(row: JsonValue, j: int, k: Seq<char>) -> bool {
    match row {
        JsonValue::Object(e) => 0 <= j < e@.len() && e@[j].0@ == k,
        _ => false,
    }
}

/// The columns of a table (or CSV) are every key of every object row, each
/// exactly once.
pub proof fn law_columns_are_every_key_once(rows: Seq<JsonValue>)
    ensures
        keys_of(rows).no_duplicates(),
        forall|k: Seq<char>|
            #[trigger] keys_of(rows).contains(k) <==> exists|i: int, j: int|
                0 <= i < rows.len() && #[trigger] row_key_at(rows[i], j, k),
    decreases rows.len(),
{
    if rows.len() > 0 {
        let init = rows.drop_last();
        law_columns_are_every_key_once(init);
        let prev = keys_of(init);
        match rows.last() {
            JsonValue::Object(e) => {
                lemma_add_keys(prev, e@);
            },
            _ => {},
        }
        assert forall|k: Seq<char>| #[trigger] keys_of(rows).contains(k) <==> exists|i: int, j: int|
            0 <= i < rows.len() && #[trigger] row_key_at(rows[i], j, k) by {
            if keys_of(rows).contains(k) {
                if prev.contains(k) {
                    let (i, j) = choose|i: int, j: int|
                        0 <= i < init.len() && #[trigger] row_key_at(init[i], j, k);
                    assert(rows[i] == init[i]);
                    assert(row_key_at(rows[i], j, k));
                } else {
                    let e = rows.last()->Object_0;
                    let j = choose|j: int| 0 <= j < e@.len() && (#[trigger] e@[j]).0@ == k;
                    assert(rows[rows.len() - 1] == rows.last());
                    assert(row_key_at(rows[rows.len() - 1], j, k));
                }
            }
            if exists|i: int, j: int|
                0 <= i < rows.len() && #[trigger] row_key_at(rows[i], j, k) {
                let (i, j) = choose|i: int, j: int|
                    0 <= i < rows.len() && #[trigger] row_key_at(rows[i], j, k);
                if i < init.len() {
                    assert(init[i] == rows[i]);
                    assert(prev.contains(k));
                } else {
                    let e = rows.last()->Object_0;
                    assert(e@[j].0@ == k);
                }
            }
        }
    }
}

} // verus!
