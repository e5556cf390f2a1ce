//! Ordering result rows by `--sort` keys: a stable merge sort under the
//! row comparison the keys define.
use vstd::prelude::*;
use crate::format::tree::{text_less, text_lt};
use crate::filter::numbers::{decimal_relation, f64_agrees, number_decimal, number_vs_number};
use crate::filter::CompareOp;
use crate::json::{member, JsonNumber, JsonValue};
use super::{keys_model, SortKey};

verus! {

/// The outcome of comparing two rows.
#[derive(Debug, Clone, Copy, PartialEq, Eq, Structural)]
pub enum RowOrder {
    Less,
    Equal,
    Greater,
}

pub open spec fn reversed(c: RowOrder) -> RowOrder {
    match c {
        RowOrder::Less => RowOrder::Greater,
        RowOrder::Equal => RowOrder::Equal,
        RowOrder::Greater => RowOrder::Less,
    }
}

/// Two rows compared on one field: integers by value, other numbers as
/// decimals (see [`decimal_relation`]), strings by code point, anything
/// else (a missing field, mixed types) as equal.
pub open spec fn field_order(a: JsonValue, b: JsonValue, field: Seq<char>) -> RowOrder {
    match (member(a, field), member(b, field)) {
        (Some(JsonValue::Number(JsonNumber::Int(x))), Some(JsonValue::Number(JsonNumber::Int(y)))) => {
            if x < y {
                RowOrder::Less
            } else if x > y {
                RowOrder::Greater
            } else {
                RowOrder::Equal
            }
        },
        (Some(JsonValue::Number(x)), Some(JsonValue::Number(y))) => {
            if decimal_relation(CompareOp::Less, number_decimal(x), number_decimal(y)) {
                RowOrder::Less
            } else if decimal_relation(CompareOp::Greater, number_decimal(x), number_decimal(y)) {
                RowOrder::Greater
            } else {
                RowOrder::Equal
            }
        },
        (Some(JsonValue::String(x)), Some(JsonValue::String(y))) => {
            if text_lt(x@, y@) {
                RowOrder::Less
            } else if x@ == y@ {
                RowOrder::Equal
            } else {
                RowOrder::Greater
            }
        },
        _ => RowOrder::Equal,
    }
}

/// Two rows compared on the keys in turn (a descending key reversed); the
/// first key that tells them apart decides.
pub open spec fn row_order(a: JsonValue, b: JsonValue, keys: Seq<(Seq<char>, bool)>) -> RowOrder
    decreases keys.len(),
{
    if keys.len() == 0 {
        RowOrder::Equal
    } else {
        let c = field_order(a, b, keys[0].0);
        let c2 = if keys[0].1 {
            reversed(c)
        } else {
            c
        };
        if c2 != RowOrder::Equal {
            c2
        } else {
            row_order(a, b, keys.drop_first())
        }
    }
}

/// The stable merge of two runs: the right run's head goes first only when
/// it is strictly less than the left's.
pub open spec fn merged(a: Seq<JsonValue>, b: Seq<JsonValue>, keys: Seq<(Seq<char>, bool)>) -> Seq<
    JsonValue,
>
    decreases a.len() + b.len(),
{
    if a.len() == 0 {
        b
    } else if b.len() == 0 {
        a
    } else if row_order(b[0], a[0], keys) == RowOrder::Less {
        seq![b[0]] + merged(a, b.drop_first(), keys)
    } else {
        seq![a[0]] + merged(a.drop_first(), b, keys)
    }
}

/// The rows stably sorted by the keys (top-down merge sort).
pub open spec fn sorted_rows(s: Seq<JsonValue>, keys: Seq<(Seq<char>, bool)>) -> Seq<JsonValue>
    decreases s.len(),
{
    if s.len() <= 1 {
        s
    } else {
        let mid = s.len() / 2;
        merged(sorted_rows(s.take(mid as int), keys), sorted_rows(s.skip(mid as int), keys), keys)
    }
}

fn field_compare(a: &JsonValue, b: &JsonValue, field: &str) -> (r: RowOrder)
    ensures
        r == field_order(*a, *b, field@),
{
    match (a.get(field), b.get(field)) {
        (Some(JsonValue::Number(JsonNumber::Int(x))), Some(JsonValue::Number(JsonNumber::Int(y)))) => {
            if *x < *y {
                RowOrder::Less
            } else if *x > *y {
                RowOrder::Greater
            } else {
                RowOrder::Equal
            }
        },
        (Some(JsonValue::Number(x)), Some(JsonValue::Number(y))) => {
            if number_vs_number(CompareOp::Less, x, y) {
                RowOrder::Less
            } else if number_vs_number(CompareOp::Greater, x, y) {
                RowOrder::Greater
            } else {
                RowOrder::Equal
            }
        },
        (Some(JsonValue::String(x)), Some(JsonValue::String(y))) => {
            if text_less(x.as_str(), y.as_str()) {
                RowOrder::Less
            } else if crate::json::str_eq(x.as_str(), y.as_str()) {
                RowOrder::Equal
            } else {
                RowOrder::Greater
            }
        },
        _ => RowOrder::Equal,
    }
}

/// Two rows' values under `field` are numbers whose exact order is their
/// `f64` order (see [`f64_agrees`]), or not both numbers.
pub open spec fn field_agrees(a: JsonValue, b: JsonValue, field: Seq<char>) -> bool {
    match (member(a, field), member(b, field)) {
        (Some(JsonValue::Number(x)), Some(JsonValue::Number(y))) => f64_agrees(
            number_decimal(x),
            number_decimal(y),
        ),
        _ => true,
    }
}

/// On every sort key, the two rows compare as `f64` compares them.
pub open spec fn keys_agree(a: JsonValue, b: JsonValue, keys: Seq<(Seq<char>, bool)>) -> bool {
    forall|k: int| 0 <= k < keys.len() ==> field_agrees(a, b, #[trigger] keys[k].0)
}

/// Every two rows compare on the keys as `f64` compares them.
pub open spec fn rows_keys_agree(rows: Seq<JsonValue>, keys: Seq<(Seq<char>, bool)>) -> bool {
    forall|i: int, j: int|
        0 <= i < rows.len() && 0 <= j < rows.len() ==> keys_agree(#[trigger] rows[i], #[trigger] rows[j], keys)
}

/// Compares two rows on the sort keys (see [`row_order`]). Numbers are
/// compared exactly, which is how `f64` compares them where the two agree
/// (see [`keys_agree`]); the order is stated there.
pub fn compare_rows(a: &JsonValue, b: &JsonValue, keys: &Vec<SortKey>) -> (r: RowOrder)
    ensures
        keys_agree(*a, *b, keys_model(keys@)) ==> r == row_order(*a, *b, keys_model(keys@)),
{
    order_rows(a, b, keys)
}

/// The exact order of two rows on the keys.
fn order_rows(a: &JsonValue, b: &JsonValue, keys: &Vec<SortKey>) -> (r: RowOrder)
    ensures
        r == row_order(*a, *b, keys_model(keys@)),
{
    let ghost km = keys_model(keys@);
    let mut i: usize = 0;
    assert(km.skip(0) =~= km);
    while i < keys.len()
        invariant
            0 <= i <= keys.len(),
            km == keys_model(keys@),
            row_order(*a, *b, km) == row_order(*a, *b, km.skip(i as int)),
        decreases keys.len() - i,
    {
        let c = field_compare(a, b, keys[i].field.as_str());
        let c2 = if keys[i].descending {
            match c {
                RowOrder::Less => RowOrder::Greater,
                RowOrder::Equal => RowOrder::Equal,
                RowOrder::Greater => RowOrder::Less,
            }
        } else {
            c
        };
        assert(km.skip(i as int)[0] == km[i as int]);
        assert(km.skip(i as int).drop_first() =~= km.skip(i + 1));
        if c2 != RowOrder::Equal {
            return c2;
        }
        i = i + 1;
    }
    assert(km.skip(keys.len() as int).len() == 0);
    RowOrder::Equal
}

/// The elements of `v` in reverse order.
pub fn reverse_vec<T>(v: Vec<T>) -> (r: Vec<T>)
    ensures
        r@ == v@.reverse(),
{
    let ghost orig = v@;
    let mut v = v;
    let mut r: Vec<T> = Vec::new();
    while v.len() > 0
        invariant
            orig == v@ + r@.reverse(),
        decreases v.len(),
    {
        let ghost pre_v = v@;
        let ghost pre_r = r@;
        let x = v.pop().unwrap();
        r.push(x);
        assert(r@.reverse() =~= seq![x] + pre_r.reverse());
        assert(pre_v =~= v@.push(x));
        assert(orig =~= v@ + r@.reverse());
    }
    assert(orig =~= r@.reverse());
    assert(r@ =~= r@.reverse().reverse());
    r
}

proof fn lemma_reverse_last<T>(s: Seq<T>)
    requires
        s.len() > 0,
    ensures
        s.reverse()[0] == s.last(),
        s.reverse().drop_first() == s.drop_last().reverse(),
{
    assert(s.reverse().drop_first() =~= s.drop_last().reverse());
}

/// Merges two runs sorted by the keys (see [`merged`]).
fn merge_rows(a: Vec<JsonValue>, b: Vec<JsonValue>, keys: &Vec<SortKey>) -> (r: Vec<JsonValue>)
    ensures
        r@ == merged(a@, b@, keys_model(keys@)),
{
    let ghost km = keys_model(keys@);
    let ghost total = merged(a@, b@, km);
    let mut ra = reverse_vec(a);
    let mut rb = reverse_vec(b);
    let mut out: Vec<JsonValue> = Vec::new();
    assert(ra@.reverse() =~= a@);
    assert(rb@.reverse() =~= b@);
    while ra.len() > 0 || rb.len() > 0
        invariant
            km == keys_model(keys@),
            total == out@ + merged(ra@.reverse(), rb@.reverse(), km),
        decreases ra.len() + rb.len(),
    {
        let ghost ga = ra@.reverse();
        let ghost gb = rb@.reverse();
        let take_b = if ra.len() == 0 {
            true
        } else if rb.len() == 0 {
            false
        } else {
            proof {
                lemma_reverse_last(ra@);
                lemma_reverse_last(rb@);
            }
            let c = order_rows(&rb[rb.len() - 1], &ra[ra.len() - 1], keys);
            c == RowOrder::Less
        };
        if take_b {
            proof {
                lemma_reverse_last(rb@);
            }
            let x = rb.pop().unwrap();
            proof {
                assert(gb[0] == x);
                assert(gb.drop_first() == rb@.reverse());
                assert(merged(ga, gb, km) == seq![x] + merged(ga, rb@.reverse(), km));
            }
            out.push(x);
            assert(total =~= out@ + merged(ra@.reverse(), rb@.reverse(), km));
        } else {
            proof {
                lemma_reverse_last(ra@);
            }
            let x = ra.pop().unwrap();
            proof {
                assert(ga[0] == x);
                assert(ga.drop_first() == ra@.reverse());
                assert(merged(ga, gb, km) == seq![x] + merged(ra@.reverse(), gb, km));
            }
            out.push(x);
            assert(total =~= out@ + merged(ra@.reverse(), rb@.reverse(), km));
        }
    }
    assert(ra@.reverse() =~= Seq::<JsonValue>::empty());
    assert(rb@.reverse() =~= Seq::<JsonValue>::empty());
    assert(out@ =~= total);
    out
}

/// Stably sorts the rows by the keys (see [`sorted_rows`]). Numbers are
/// compared exactly; the order is stated where every two rows compare on
/// the keys as `f64` compares them (see [`rows_keys_agree`]). Either way
/// the rows are only reordered.
pub fn sort_rows(rows: Vec<JsonValue>, keys: &Vec<SortKey>) -> (r: Vec<JsonValue>)
    ensures
        rows_keys_agree(rows@, keys_model(keys@)) ==> r@ == sorted_rows(rows@, keys_model(keys@)),
        r@.to_multiset() == rows@.to_multiset(),
{
    let r = sort_exact(rows, keys);
    proof {
        law_sort_keeps_every_row(rows@, keys_model(keys@));
    }
    r
}

/// The rows in the exact order of [`sorted_rows`].
fn sort_exact(rows: Vec<JsonValue>, keys: &Vec<SortKey>) -> (r: Vec<JsonValue>)
    ensures
        r@ == sorted_rows(rows@, keys_model(keys@)),
    decreases rows@.len(),
{
    if rows.len() <= 1 {
        return rows;
    }
    let ghost s = rows@;
    let mid = rows.len() / 2;
    let mut left = rows;
    let right = left.split_off(mid);
    assert(left@ =~= s.take(mid as int));
    assert(right@ =~= s.skip(mid as int));
    let l = sort_exact(left, keys);
    let r = sort_exact(right, keys);
    merge_rows(l, r, keys)
}

proof fn lemma_merged_multiset(a: Seq<JsonValue>, b: Seq<JsonValue>, keys: Seq<(Seq<char>, bool)>)
    ensures
        merged(a, b, keys).to_multiset() =~= (a + b).to_multiset(),
    decreases a.len() + b.len(),
{
    broadcast use vstd::seq_lib::lemma_multiset_commutative;

    if a.len() == 0 {
        assert(a + b =~= b);
    } else if b.len() == 0 {
        assert(a + b =~= a);
    } else if row_order(b[0], a[0], keys) == RowOrder::Less {
        let rest = merged(a, b.drop_first(), keys);
        lemma_merged_multiset(a, b.drop_first(), keys);
        assert(b =~= seq![b[0]] + b.drop_first());
        assert((seq![b[0]] + rest).to_multiset() =~= seq![b[0]].to_multiset().add(rest.to_multiset()));
        assert((a + b).to_multiset() =~= a.to_multiset().add(b.to_multiset()));
        assert(b.to_multiset() =~= seq![b[0]].to_multiset().add(b.drop_first().to_multiset()));
        assert((a + b.drop_first()).to_multiset() =~= a.to_multiset().add(
            b.drop_first().to_multiset(),
        ));
    } else {
        let rest = merged(a.drop_first(), b, keys);
        lemma_merged_multiset(a.drop_first(), b, keys);
        assert(a =~= seq![a[0]] + a.drop_first());
        assert((seq![a[0]] + rest).to_multiset() =~= seq![a[0]].to_multiset().add(rest.to_multiset()));
        assert((a + b).to_multiset() =~= a.to_multiset().add(b.to_multiset()));
        assert(a.to_multiset() =~= seq![a[0]].to_multiset().add(a.drop_first().to_multiset()));
        assert((a.drop_first() + b).to_multiset() =~= a.drop_first().to_multiset().add(
            b.to_multiset(),
        ));
    }
}

/// Sorting only reorders: the sorted rows are the input rows, each one as
/// often as before.
pub proof fn law_sort_keeps_every_row(rows: Seq<JsonValue>, keys: Seq<(Seq<char>, bool)>)
    ensures
        sorted_rows(rows, keys).to_multiset() == rows.to_multiset(),
        sorted_rows(rows, keys).len() == rows.len(),
    decreases rows.len(),
{
    broadcast use vstd::seq_lib::group_to_multiset_ensures;

    if rows.len() > 1 {
        let mid = rows.len() / 2;
        let l = rows.take(mid as int);
        let r = rows.skip(mid as int);
        law_sort_keeps_every_row(l, keys);
        law_sort_keeps_every_row(r, keys);
        lemma_merged_multiset(sorted_rows(l, keys), sorted_rows(r, keys), keys);
        vstd::seq_lib::lemma_multiset_commutative(sorted_rows(l, keys), sorted_rows(r, keys));
        vstd::seq_lib::lemma_multiset_commutative(l, r);
        assert(l + r =~= rows);
        assert(sorted_rows(rows, keys).to_multiset() =~= rows.to_multiset());
    }
    sorted_rows(rows, keys).to_multiset_ensures();
    rows.to_multiset_ensures();
}

proof fn lemma_merged_in_order(a: Seq<JsonValue>, b: Seq<JsonValue>, keys: Seq<(Seq<char>, bool)>)
    requires
        forall|i: int, j: int|
            0 <= i < b.len() && 0 <= j < a.len() ==> #[trigger] row_order(b[i], a[j], keys)
                != RowOrder::Less,
    ensures
        merged(a, b, keys) == a + b,
    decreases a.len() + b.len(),
{
    if a.len() == 0 {
        assert(a + b =~= b);
    } else if b.len() == 0 {
        assert(a + b =~= a);
    } else {
        assert(row_order(b[0], a[0], keys) != RowOrder::Less);
        let t = a.drop_first();
        assert forall|i: int, j: int| 0 <= i < b.len() && 0 <= j < t.len() implies #[trigger] row_order(
            b[i],
            t[j],
            keys,
        ) != RowOrder::Less by {
            assert(t[j] == a[j + 1]);
        }
        lemma_merged_in_order(t, b, keys);
        assert(seq![a[0]] + (t + b) =~= a + b);
    }
}

/// Rows that the keys do not tell apart keep the order they came in: when
/// every two rows compare equal, sorting leaves the rows as they are.
pub proof fn law_sort_is_stable(rows: Seq<JsonValue>, keys: Seq<(Seq<char>, bool)>)
    requires
        forall|i: int, j: int|
            0 <= i < rows.len() && 0 <= j < rows.len() ==> #[trigger] row_order(
                rows[i],
                rows[j],
                keys,
            ) == RowOrder::Equal,
    ensures
        sorted_rows(rows, keys) == rows,
    decreases rows.len(),
{
    if rows.len() > 1 {
        let mid = rows.len() / 2;
        let l = rows.take(mid as int);
        let r = rows.skip(mid as int);
        assert forall|i: int, j: int| 0 <= i < l.len() && 0 <= j < l.len() implies #[trigger] row_order(
            l[i],
            l[j],
            keys,
        ) == RowOrder::Equal by {
            assert(l[i] == rows[i] && l[j] == rows[j]);
        }
        assert forall|i: int, j: int| 0 <= i < r.len() && 0 <= j < r.len() implies #[trigger] row_order(
            r[i],
            r[j],
            keys,
        ) == RowOrder::Equal by {
            assert(r[i] == rows[i + mid] && r[j] == rows[j + mid]);
        }
        law_sort_is_stable(l, keys);
        law_sort_is_stable(r, keys);
        assert forall|i: int, j: int| 0 <= i < r.len() && 0 <= j < l.len() implies #[trigger] row_order(
            r[i],
            l[j],
            keys,
        ) != RowOrder::Less by {
            assert(r[i] == rows[i + mid] && l[j] == rows[j]);
        }
        lemma_merged_in_order(l, r, keys);
        assert(l + r =~= rows);
    }
}

/// The integer a row holds under `field`, if it holds one.
pub open spec fn int_field(row: JsonValue, field: Seq<char>) -> Option<i128> {
    match member(row, field) {
        Some(JsonValue::Number(JsonNumber::Int(x))) => Some(x),
        _ => None,
    }
}

/// `x` may stand before `y` when sorting on the integer field (ascending,
/// or descending when `desc`).
pub open spec fn in_key_order(x: JsonValue, y: JsonValue, field: Seq<char>, desc: bool) -> bool {
    let a = int_field(x, field)->0;
    let b = int_field(y, field)->0;
    if desc {
        a >= b
    } else {
        a <= b
    }
}

/// Every row holds an integer under `field`.
pub open spec fn all_int_keyed(rows: Seq<JsonValue>, field: Seq<char>) -> bool {
    forall|i: int| 0 <= i < rows.len() ==> (#[trigger] int_field(rows[i], field)) is Some
}

/// The rows are in order on the integer field.
pub open spec fn in_order_by(rows: Seq<JsonValue>, field: Seq<char>, desc: bool) -> bool {
    forall|i: int, j: int|
        0 <= i < j < rows.len() ==> #[trigger] in_key_order(rows[i], rows[j], field, desc)
}

proof fn lemma_single_key(x: JsonValue, y: JsonValue, field: Seq<char>, desc: bool)
    requires
        int_field(x, field) is Some,
        int_field(y, field) is Some,
    ensures
        (row_order(x, y, seq![(field, desc)]) == RowOrder::Less) <==> !in_key_order(y, x, field, desc),
{
    let k = seq![(field, desc)];
    assert(k.drop_first().len() == 0);
    assert(row_order(x, y, k.drop_first()) == RowOrder::Equal);
}

proof fn lemma_merged_in_key_order(
    a: Seq<JsonValue>,
    b: Seq<JsonValue>,
    field: Seq<char>,
    desc: bool,
)
    requires
        all_int_keyed(a, field),
        all_int_keyed(b, field),
        in_order_by(a, field, desc),
        in_order_by(b, field, desc),
    ensures
        ({
            let m = merged(a, b, seq![(field, desc)]);
            &&& all_int_keyed(m, field)
            &&& in_order_by(m, field, desc)
            &&& m.len() == a.len() + b.len()
            &&& m.len() > 0 ==> (a.len() > 0 && m[0] == a[0]) || (b.len() > 0 && m[0] == b[0])
        }),
    decreases a.len() + b.len(),
{
    let k = seq![(field, desc)];
    if a.len() == 0 || b.len() == 0 {
    } else {
        assert(int_field(a[0], field) is Some);
        assert(int_field(b[0], field) is Some);
        lemma_single_key(b[0], a[0], field, desc);
        if row_order(b[0], a[0], k) == RowOrder::Less {
            let t = b.drop_first();
            assert forall|i: int| 0 <= i < t.len() implies (#[trigger] int_field(t[i], field)) is Some by {
                assert(t[i] == b[i + 1]);
            }
            assert forall|i: int, j: int| 0 <= i < j < t.len() implies #[trigger] in_key_order(
                t[i],
                t[j],
                field,
                desc,
            ) by {
                assert(t[i] == b[i + 1] && t[j] == b[j + 1]);
            }
            lemma_merged_in_key_order(a, t, field, desc);
            let m = merged(a, t, k);
            let r = seq![b[0]] + m;
            assert(merged(a, b, k) == r);
            if t.len() > 0 {
                assert(in_key_order(b[0], b[1], field, desc));
                assert(int_field(b[1], field) is Some);
            }
            assert(in_key_order(b[0], m[0], field, desc));
            assert forall|i: int| 0 <= i < r.len() implies (#[trigger] int_field(r[i], field)) is Some by {
                if i > 0 {
                    assert(r[i] == m[i - 1]);
                }
            }
            assert forall|i: int, j: int| 0 <= i < j < r.len() implies #[trigger] in_key_order(
                r[i],
                r[j],
                field,
                desc,
            ) by {
                assert(r[j] == m[j - 1]);
                if i == 0 {
                    if j > 1 {
                        assert(in_key_order(m[0], m[j - 1], field, desc));
                        assert(int_field(m[0], field) is Some);
                        assert(int_field(m[j - 1], field) is Some);
                    }
                } else {
                    assert(r[i] == m[i - 1]);
                }
            }
        } else {
            let t = a.drop_first();
            assert forall|i: int| 0 <= i < t.len() implies (#[trigger] int_field(t[i], field)) is Some by {
                assert(t[i] == a[i + 1]);
            }
            assert forall|i: int, j: int| 0 <= i < j < t.len() implies #[trigger] in_key_order(
                t[i],
                t[j],
                field,
                desc,
            ) by {
                assert(t[i] == a[i + 1] && t[j] == a[j + 1]);
            }
            lemma_merged_in_key_order(t, b, field, desc);
            let m = merged(t, b, k);
            let r = seq![a[0]] + m;
            assert(merged(a, b, k) == r);
            if t.len() > 0 {
                assert(in_key_order(a[0], a[1], field, desc));
                assert(int_field(a[1], field) is Some);
            }
            assert(in_key_order(a[0], m[0], field, desc));
            assert forall|i: int| 0 <= i < r.len() implies (#[trigger] int_field(r[i], field)) is Some by {
                if i > 0 {
                    assert(r[i] == m[i - 1]);
                }
            }
            assert forall|i: int, j: int| 0 <= i < j < r.len() implies #[trigger] in_key_order(
                r[i],
                r[j],
                field,
                desc,
            ) by {
                assert(r[j] == m[j - 1]);
                if i == 0 {
                    if j > 1 {
                        assert(in_key_order(m[0], m[j - 1], field, desc));
                        assert(int_field(m[0], field) is Some);
                        assert(int_field(m[j - 1], field) is Some);
                    }
                } else {
                    assert(r[i] == m[i - 1]);
                }
            }
        }
    }
}

/// Sorting on one field that holds an integer of at most 2⁵³ in magnitude
/// in every row (integers that `f64` holds exactly, so that comparing them
/// as `f64` orders them as integers) puts the rows in ascending order of it
/// (descending with `desc`).
pub proof fn law_sort_orders_by_integer_key(rows: Seq<JsonValue>, field: Seq<char>, desc: bool)
    requires
        all_int_keyed(rows, field),
        forall|i: int|
            0 <= i < rows.len() ==> -0x20_0000_0000_0000 <= (#[trigger] int_field(rows[i], field))->0
                <= 0x20_0000_0000_0000,
    ensures
        in_order_by(sorted_rows(rows, seq![(field, desc)]), field, desc),
        all_int_keyed(sorted_rows(rows, seq![(field, desc)]), field),
{
    lemma_sorted_by_integer_key(rows, field, desc);
}

proof fn lemma_sorted_by_integer_key(rows: Seq<JsonValue>, field: Seq<char>, desc: bool)
    requires
        all_int_keyed(rows, field),
    ensures
        in_order_by(sorted_rows(rows, seq![(field, desc)]), field, desc),
        all_int_keyed(sorted_rows(rows, seq![(field, desc)]), field),
    decreases rows.len(),
{
    let k = seq![(field, desc)];
    if rows.len() > 1 {
        let mid = rows.len() / 2;
        let l = rows.take(mid as int);
        let r = rows.skip(mid as int);
        assert forall|i: int| 0 <= i < l.len() implies (#[trigger] int_field(l[i], field)) is Some by {
            assert(l[i] == rows[i]);
        }
        assert forall|i: int| 0 <= i < r.len() implies (#[trigger] int_field(r[i], field)) is Some by {
            assert(r[i] == rows[i + mid]);
        }
        lemma_sorted_by_integer_key(l, field, desc);
        lemma_sorted_by_integer_key(r, field, desc);
        lemma_merged_in_key_order(sorted_rows(l, k), sorted_rows(r, k), field, desc);
    } else {
        assert forall|i: int, j: int| 0 <= i < j < rows.len() implies #[trigger] in_key_order(
            rows[i],
            rows[j],
            field,
            desc,
        ) by {}
    }
}


// ---------------------------------------------------------------------------
// How texts are ordered
// ---------------------------------------------------------------------------

/// Where `x` first falls below `y`, when it does.
proof fn lt_witness(x: Seq<char>, y: Seq<char>) -> (k: int)
    requires
        text_lt(x, y),
    ensures
        0 <= k <= x.len(),
        k < y.len(),
        x.take(k) == y.take(k),
        k == x.len() || (x[k] as u32) < (y[k] as u32),
    decreases x.len(),
{
    if x.len() == 0 || x[0] != y[0] {
        assert(x.take(0) =~= y.take(0));
        0
    } else {
        let xs = x.drop_first();
        let ys = y.drop_first();
        let k = lt_witness(xs, ys);
        assert(x.take(k + 1) =~= seq![x[0]] + xs.take(k));
        assert(y.take(k + 1) =~= seq![y[0]] + ys.take(k));
        if k < xs.len() {
            assert(xs[k] == x[k + 1] && ys[k] == y[k + 1]);
        }
        k + 1
    }
}

proof fn lemma_witness_lt(x: Seq<char>, y: Seq<char>, k: int)
    requires
        0 <= k <= x.len(),
        k < y.len(),
        x.take(k) == y.take(k),
        k == x.len() || (x[k] as u32) < (y[k] as u32),
    ensures
        text_lt(x, y),
    decreases k,
{
    if k > 0 {
        assert(x.take(k)[0] == x[0]);
        assert(y.take(k)[0] == y[0]);
        assert(x[0] == y[0]);
        let xs = x.drop_first();
        let ys = y.drop_first();
        assert(xs.take(k - 1) =~= x.take(k).drop_first());
        assert(ys.take(k - 1) =~= y.take(k).drop_first());
        if k < x.len() {
            assert(xs[k - 1] == x[k] && ys[k - 1] == y[k]);
        }
        lemma_witness_lt(xs, ys, k - 1);
    } else if x.len() > 0 {
        vstd::utf8::char_u32_cast(x[0], x[0] as u32);
        vstd::utf8::char_u32_cast(y[0], y[0] as u32);
    }
}

proof fn lemma_text_irreflexive(x: Seq<char>)
    ensures
        !text_lt(x, x),
    decreases x.len(),
{
    if x.len() > 0 {
        lemma_text_irreflexive(x.drop_first());
    }
}

proof fn lemma_text_asymmetric(x: Seq<char>, y: Seq<char>)
    requires
        text_lt(y, x),
    ensures
        !text_lt(x, y),
    decreases x.len(),
{
    if x.len() > 0 && y.len() > 0 && x[0] == y[0] {
        lemma_text_asymmetric(x.drop_first(), y.drop_first());
    }
}

proof fn lemma_text_order(x: Seq<char>, y: Seq<char>)
    ensures
        text_lt(x, y) <==> exists|k: int|
            0 <= k <= x.len() && k < y.len() && #[trigger] x.take(k) == y.take(k) && (k == x.len() || (
            x[k] as u32) < (y[k] as u32)),
{
    if text_lt(x, y) {
        let k = lt_witness(x, y);
        assert(x.take(k) == y.take(k));
    }
    if exists|k: int|
        0 <= k <= x.len() && k < y.len() && #[trigger] x.take(k) == y.take(k) && (k == x.len() || (
        x[k] as u32) < (y[k] as u32)) {
        let k = choose|k: int|
            0 <= k <= x.len() && k < y.len() && #[trigger] x.take(k) == y.take(k) && (k == x.len() || (
            x[k] as u32) < (y[k] as u32));
        lemma_witness_lt(x, y, k);
    }
}

/// Sorting on a field that holds text in both rows puts `a` before `b`
/// exactly when `a`'s text comes first by code point: at the first place
/// where the texts differ `a`'s character has the smaller code point, or
/// `a`'s text is a proper prefix of `b`'s, whatever the lengths otherwise.
/// The rows tie exactly when the texts are equal, and a descending key
/// orders them the other way round.
pub proof fn law_texts_sort_by_code_point(a: JsonValue, b: JsonValue, field: Seq<char>)
    requires
        member(a, field) matches Some(JsonValue::String(_)),
        member(b, field) matches Some(JsonValue::String(_)),
    ensures
        ({
            let x = member(a, field)->0->String_0@;
            let y = member(b, field)->0->String_0@;
            &&& row_order(a, b, seq![(field, false)]) == RowOrder::Less <==> exists|k: int|
                0 <= k <= x.len() && k < y.len() && #[trigger] x.take(k) == y.take(k) && (k == x.len() || (
                x[k] as u32) < (y[k] as u32))
            &&& row_order(a, b, seq![(field, false)]) == RowOrder::Equal <==> x == y
            &&& row_order(a, b, seq![(field, true)]) == RowOrder::Less <==> exists|k: int|
                0 <= k <= y.len() && k < x.len() && #[trigger] y.take(k) == x.take(k) && (k == y.len() || (
                y[k] as u32) < (x[k] as u32))
        }),
{
    let x = member(a, field)->0->String_0@;
    let y = member(b, field)->0->String_0@;
    lemma_text_order(x, y);
    lemma_text_order(y, x);
    lemma_text_irreflexive(x);
    let k1 = seq![(field, false)];
    let k2 = seq![(field, true)];
    assert(k1.drop_first() =~= Seq::<(Seq<char>, bool)>::empty());
    assert(k2.drop_first() =~= Seq::<(Seq<char>, bool)>::empty());
    lemma_text_irreflexive(y);
    assert(field_order(a, b, field) == (if text_lt(x, y) {
        RowOrder::Less
    } else if x == y {
        RowOrder::Equal
    } else {
        RowOrder::Greater
    }));
    assert(row_order(a, b, Seq::<(Seq<char>, bool)>::empty()) == RowOrder::Equal);
    assert(row_order(a, b, k1.drop_first()) == RowOrder::Equal);
    assert(row_order(a, b, k2.drop_first()) == RowOrder::Equal);
    assert(k1[0] == (field, false) && k2[0] == (field, true));
    assert(row_order(a, b, k1) == field_order(a, b, field));
    assert(row_order(a, b, k2) == reversed(field_order(a, b, field)));
    if !text_lt(x, y) && x != y {
        lemma_sort_text_total(x, y);
    }
    if text_lt(y, x) {
        lemma_text_asymmetric(x, y);
    }
}

proof fn lemma_sort_text_total(x: Seq<char>, y: Seq<char>)
    requires
        x != y,
        !text_lt(x, y),
    ensures
        text_lt(y, x),
    decreases x.len(),
{
    if x.len() > 0 && y.len() > 0 {
        if x[0] == y[0] {
            if x.drop_first() == y.drop_first() {
                assert(x =~= seq![x[0]] + x.drop_first());
                assert(y =~= seq![y[0]] + y.drop_first());
            }
            lemma_sort_text_total(x.drop_first(), y.drop_first());
        } else {
            vstd::utf8::char_u32_cast(x[0], x[0] as u32);
            vstd::utf8::char_u32_cast(y[0], y[0] as u32);
        }
    } else if x.len() == 0 && y.len() == 0 {
        assert(x =~= y);
    }
}

} // verus!
