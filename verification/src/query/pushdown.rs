//! What the bridge answers for a pushed-down filter, and why pushing it
//! down changes nothing that is shown.
use vstd::prelude::*;
use crate::cli::QueryOptions;
use crate::filter::evaluator::{eval, field_at};
use crate::filter::parser::parse_filter;
use crate::filter::{ExprM, StringOp};
use crate::json::JsonValue;
use crate::text::{contains_seq, lowercase, occurs_at};
use super::pipeline::{kept_rows, page};
use super::planner::{planned, FetchM};

verus! {

/// A row's `field` holds text or nothing.
pub open spec fn text_or_absent(v: Option<JsonValue>) -> bool {
    v is None || v matches Some(JsonValue::String(_))
}

/// The bridge's `filter`: the row's `field` is text that contains `v`,
/// ignoring case.
pub open spec fn bridge_matches(row: JsonValue, field: Seq<char>, v: Seq<char>) -> bool {
    field_at(field, row) matches Some(JsonValue::String(s)) && contains_seq(lowercase(s@), lowercase(v))
}

/// The rows the bridge's `filter` keeps, in order.
pub open spec fn bridge_filtered(rows: Seq<JsonValue>, field: Seq<char>, v: Seq<char>) -> Seq<JsonValue>
    decreases rows.len(),
{
    if rows.len() == 0 {
        rows
    } else {
        let k = bridge_filtered(rows.drop_last(), field, v);
        if bridge_matches(rows.last(), field, v) {
            k.push(rows.last())
        } else {
            k
        }
    }
}

/// What a bridge that keeps its promise answers for `fetch` from the full
/// dataset `rows`: the rows its filter keeps (all without one), then the
/// page the fetch asks for.
pub open spec fn bridge_answer(rows: Seq<JsonValue>, field: Seq<char>, fetch: FetchM) -> Seq<JsonValue> {
    let matching = match fetch.filter {
        Some(v) => bridge_filtered(rows, field, v),
        None => rows,
    };
    page(matching, fetch.offset, fetch.limit)
}

proof fn lemma_one_row(row: JsonValue, field: Seq<char>, op: StringOp, v: Seq<char>)
    requires
        op != StringOp::Regex,
        text_or_absent(field_at(field, row)),
    ensures
        eval(ExprM::StrOp(field, op, v), row) is Ok,
        op == StringOp::Contains ==> eval(ExprM::StrOp(field, op, v), row) == Ok::<bool, ()>(
            bridge_matches(row, field, v),
        ),
        eval(ExprM::StrOp(field, op, v), row) == Ok::<bool, ()>(true) ==> bridge_matches(row, field, v),
{
    match field_at(field, row) {
        Some(JsonValue::String(s)) => {
            let t = lowercase(s@);
            let p = lowercase(v);
            if op == StringOp::StartsWith && occurs_at(t, p, 0) {
                assert(contains_seq(t, p));
            }
            if op == StringOp::EndsWith && occurs_at(t, p, t.len() - p.len()) {
                assert(contains_seq(t, p));
            }
        },
        _ => {},
    }
}

proof fn lemma_filtered_rows(rows: Seq<JsonValue>, field: Seq<char>, v: Seq<char>)
    ensures
        forall|i: int|
            0 <= i < bridge_filtered(rows, field, v).len() ==> bridge_matches(
                #[trigger] bridge_filtered(rows, field, v)[i],
                field,
                v,
            ),
    decreases rows.len(),
{
    if rows.len() > 0 {
        let d = rows.drop_last();
        lemma_filtered_rows(d, field, v);
        let k = bridge_filtered(d, field, v);
        if bridge_matches(rows.last(), field, v) {
            assert forall|i: int| 0 <= i < k.push(rows.last()).len() implies bridge_matches(
                #[trigger] k.push(rows.last())[i],
                field,
                v,
            ) by {
                if i < k.len() {
                    assert(k.push(rows.last())[i] == k[i]);
                }
            }
        }
    }
}

proof fn lemma_superset(rows: Seq<JsonValue>, field: Seq<char>, op: StringOp, v: Seq<char>)
    requires
        op != StringOp::Regex,
        forall|i: int| 0 <= i < rows.len() ==> text_or_absent(#[trigger] field_at(field, rows[i])),
    ensures
        kept_rows(rows, ExprM::StrOp(field, op, v)) is Ok,
        kept_rows(bridge_filtered(rows, field, v), ExprM::StrOp(field, op, v)) == kept_rows(
            rows,
            ExprM::StrOp(field, op, v),
        ),
        op == StringOp::Contains ==> kept_rows(rows, ExprM::StrOp(field, op, v)) == Ok::<
            Seq<JsonValue>,
            (),
        >(bridge_filtered(rows, field, v)),
    decreases rows.len(),
{
    let e = ExprM::StrOp(field, op, v);
    if rows.len() > 0 {
        let d = rows.drop_last();
        assert forall|i: int| 0 <= i < d.len() implies text_or_absent(#[trigger] field_at(field, d[i])) by {
            assert(d[i] == rows[i]);
        }
        lemma_superset(d, field, op, v);
        let last = rows.last();
        assert(text_or_absent(field_at(field, rows[rows.len() - 1])));
        lemma_one_row(last, field, op, v);
        let k = bridge_filtered(d, field, v);
        if bridge_matches(last, field, v) {
            assert(k.push(last).drop_last() =~= k);
            assert(k.push(last).last() == last);
            assert(bridge_filtered(rows, field, v) == k.push(last));
            assert(kept_rows(k.push(last), e) == match kept_rows(k, e) {
                Err(()) => Err(()),
                Ok(kk) => match eval(e, last) {
                    Err(()) => Err(()),
                    Ok(true) => Ok(kk.push(last)),
                    Ok(false) => Ok(kk),
                },
            });
        } else {
            assert(bridge_filtered(rows, field, v) == k);
        }
    } else {
        assert(rows =~= seq![]);
    }
}

proof fn lemma_all_kept(rows: Seq<JsonValue>, e: ExprM)
    requires
        forall|i: int| 0 <= i < rows.len() ==> eval(e, #[trigger] rows[i]) == Ok::<bool, ()>(true),
    ensures
        kept_rows(rows, e) == Ok::<Seq<JsonValue>, ()>(rows),
    decreases rows.len(),
{
    if rows.len() > 0 {
        let d = rows.drop_last();
        assert forall|i: int| 0 <= i < d.len() implies eval(e, #[trigger] d[i]) == Ok::<bool, ()>(true) by {
            assert(d[i] == rows[i]);
        }
        lemma_all_kept(d, e);
        assert(eval(e, rows[rows.len() - 1]) == Ok::<bool, ()>(true));
        assert(d.push(rows.last()) =~= rows);
        assert(kept_rows(rows, e) == Ok::<Seq<JsonValue>, ()>(d.push(rows.last())));
    } else {
        assert(rows =~= seq![]);
    }
}

/// Pushing a `~`, `^` or `$` filter down to the bridge changes nothing that
/// is shown: when the bridge answers the plan's fetch as its `filter`
/// promises (the rows whose field contains the text, ignoring case, then
/// the page asked for) and every row's field is text or missing, the rows
/// the client pass keeps and pages from that answer are exactly the rows a
/// client pass over the full dataset keeps and pages with the command's own
/// `--offset` and `--limit`. Field selection and output then act on the
/// same rows.
pub proof fn law_pushdown_keeps_the_result(
    o: QueryOptions,
    default_limit: Option<usize>,
    field: Seq<char>,
    rows: Seq<JsonValue>,
)
    requires
        o.filter matches Some(t) && parse_filter(t@) matches Some(ExprM::StrOp(f, op, _)) && f
            == field && op != StringOp::Regex,
        o.sort is None,
        !o.count,
        forall|i: int| 0 <= i < rows.len() ==> text_or_absent(#[trigger] field_at(field, rows[i])),
    ensures
        ({
            let e = parse_filter(o.filter->0@)->0;
            let plan = planned(Some(o), default_limit, Some(field));
            &&& plan is Ok
            &&& plan->Ok_0.1 matches Some(post) && {
                let answer = bridge_answer(rows, field, plan->Ok_0.0);
                &&& post.filter == Some(e)
                &&& kept_rows(answer, e) is Ok
                &&& kept_rows(rows, e) is Ok
                &&& page(kept_rows(answer, e)->Ok_0, post.offset, post.limit) == page(
                    kept_rows(rows, e)->Ok_0,
                    o.offset,
                    o.limit,
                )
            }
        }),
{
    let e = parse_filter(o.filter->0@)->0;
    let (f, op, v) = match e {
        ExprM::StrOp(f, op, v) => (f, op, v),
        _ => arbitrary(),
    };
    let plan = planned(Some(o), default_limit, Some(field));
    let fetch = plan->Ok_0.0;
    let post = plan->Ok_0.1->0;
    lemma_superset(rows, field, op, v);
    let bf = bridge_filtered(rows, field, v);
    if op == StringOp::Contains {
        lemma_filtered_rows(rows, field, v);
        let ans = bridge_answer(rows, field, fetch);
        assert(fetch.filter == Some(v));
        assert forall|i: int| 0 <= i < ans.len() implies eval(e, #[trigger] ans[i]) == Ok::<bool, ()>(
            true,
        ) by {
            let off = match fetch.offset {
                Some(k) => if k < bf.len() {
                    k as int
                } else {
                    bf.len() as int
                },
                None => 0,
            };
            assert(ans[i] == bf[i + off]);
            assert(bridge_matches(bf[i + off], field, v));
            lemma_one_row(ans[i], field, op, v);
        }
        lemma_all_kept(ans, e);
        assert(bf.skip(0) =~= bf);
        assert(ans.skip(0) =~= ans);
        assert(page(ans, post.offset, post.limit) =~= page(bf, o.offset, o.limit));
    } else {
        assert(bf.skip(0) =~= bf);
        assert(bridge_answer(rows, field, fetch) =~= bf);
        let kr = kept_rows(rows, e)->Ok_0;
        assert(kr.skip(0) =~= kr);
    }
}

} // verus!
