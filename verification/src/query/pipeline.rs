//! The client-side pipeline a plan's `post` runs on fetched rows:
//! filter, select fields, sort, page, then count or format.
use vstd::prelude::*;
use crate::error::GhidraError;
use crate::filter::evaluator::{eval, numbers_agree, paths_ok};
use crate::filter::{expr_model, ExprM, Filter};
use crate::format::human::{compact_renderable, compact_safe};
use crate::format::tabular::has_key;
use crate::format::tree::{text_less, text_lt};
use crate::format::{formatted, DefaultFormatter, OutputFormat};
use crate::json::{entry_index, find_entry, keys_unique, nat_text, write_nat, JsonValue};
use super::planner::PostProc;
use super::sorting::{reverse_vec, rows_keys_agree, sort_rows, sorted_rows};
use super::{keys_model, strs, FieldSelector};

verus! {

/// `out` with `p` stored under its key, keeping the keys in ascending
/// order: a key already present keeps its place and takes the new value.
pub open spec fn put_entry(out: Seq<(String, JsonValue)>, p: (String, JsonValue)) -> Seq<
    (String, JsonValue),
>
    decreases out.len(),
{
    if out.len() == 0 {
        seq![p]
    } else if out[0].0@ == p.0@ {
        seq![(out[0].0, p.1)] + out.drop_first()
    } else if text_lt(p.0@, out[0].0@) {
        seq![p] + out
    } else {
        seq![out[0]] + put_entry(out.drop_first(), p)
    }
}

/// Taking the listed fields out of `m` in turn: each one found moves,
/// under the listed name, into the ordered result.
pub open spec fn include_fold(m: Seq<(String, JsonValue)>, fields: Seq<String>) -> (
    Seq<(String, JsonValue)>,
    Seq<(String, JsonValue)>,
)
    decreases fields.len(),
{
    if fields.len() == 0 {
        (m, seq![])
    } else {
        let st = include_fold(m, fields.drop_last());
        let f = fields.last();
        match entry_index(st.0, f@) {
            Some(i) => (st.0.remove(i), put_entry(st.1, (f, st.0[i].1))),
            None => st,
        }
    }
}

/// The members of `m` whose keys are not excluded, ordered by key.
pub open spec fn exclude_fold(m: Seq<(String, JsonValue)>, ex: Seq<Seq<char>>) -> Seq<
    (String, JsonValue),
>
    decreases m.len(),
{
    if m.len() == 0 {
        seq![]
    } else {
        let out = exclude_fold(m.drop_last(), ex);
        if ex.contains(m.last().0@) {
            out
        } else {
            put_entry(out, m.last())
        }
    }
}

/// The members an object keeps under a field selection.
pub open spec fn projected_entries(m: Seq<(String, JsonValue)>, sel: FieldSelector) -> Seq<
    (String, JsonValue),
> {
    match sel.included {
        Some(inc) => include_fold(m, inc@).1,
        None => match sel.excluded {
            Some(ex) => exclude_fold(m, strs(ex@)),
            None => m,
        },
    }
}

/// `b` is `a` projected onto the selection: objects keep the selected
/// members, other values (and every value when nothing is selected) stay.
pub open spec fn projects_to(a: JsonValue, b: JsonValue, sel: FieldSelector) -> bool {
    match a {
        JsonValue::Object(m) => if sel.included is Some || sel.excluded is Some {
            b matches JsonValue::Object(o) && o@ == projected_entries(m@, sel)
        } else {
            b == a
        },
        _ => b == a,
    }
}

pub open spec fn rows_project_to(a: Seq<JsonValue>, b: Seq<JsonValue>, sel: FieldSelector) -> bool {
    a.len() == b.len() && forall|i: int| 0 <= i < a.len() ==> projects_to(a[i], b[i], sel)
}

/// The rows the filter keeps, in order; `Err` when evaluating it fails on
/// a row.
pub open spec fn kept_rows(rows: Seq<JsonValue>, e: ExprM) -> Result<Seq<JsonValue>, ()>
    decreases rows.len(),
{
    if rows.len() == 0 {
        Ok(seq![])
    } else {
        match kept_rows(rows.drop_last(), e) {
            Err(()) => Err(()),
            Ok(k) => match eval(e, rows.last()) {
                Err(()) => Err(()),
                Ok(true) => Ok(k.push(rows.last())),
                Ok(false) => Ok(k),
            },
        }
    }
}

/// The page: the first `offset` rows dropped, then at most `limit` kept
/// (`None` or `0`: all).
pub open spec fn page(rows: Seq<JsonValue>, offset: Option<usize>, limit: Option<usize>) -> Seq<
    JsonValue,
> {
    let off = match offset {
        Some(o) => if o < rows.len() {
            o as int
        } else {
            rows.len() as int
        },
        None => 0,
    };
    let rest = rows.skip(off);
    match limit {
        Some(n) => if n > 0 && n < rest.len() {
            rest.take(n as int)
        } else {
            rest
        },
        None => rest,
    }
}

/// The filter stage of a post-processing step.
pub open spec fn filter_stage(p: PostProc, rows: Seq<JsonValue>) -> Result<Seq<JsonValue>, ()> {
    match p.filter {
        Some(f) => kept_rows(rows, expr_model(f.expr)),
        None => Ok(rows),
    }
}

/// The rows shown after sorting and paging the projected rows.
pub open spec fn shown_rows(p: PostProc, projected: Seq<JsonValue>) -> Seq<JsonValue> {
    let sorted = match p.sort {
        Some(keys) => sorted_rows(projected, keys_model(keys@)),
        None => projected,
    };
    page(sorted, p.offset, p.limit)
}

/// The output for the shown rows: their number when counting, else their
/// rendering (`None` where the format does not fit).
pub open spec fn post_output(p: PostProc, shown: Seq<JsonValue>, format: OutputFormat) -> Option<
    Seq<char>,
> {
    if p.count_only {
        Some(nat_text(shown.len()))
    } else {
        formatted(shown, format)
    }
}

pub open spec fn selection_of(p: PostProc) -> FieldSelector {
    match p.fields {
        Some(sel) => sel,
        None => FieldSelector { included: None, excluded: None },
    }
}

// ---------------------------------------------------------------------------

proof fn lemma_put_entry_at(out: Seq<(String, JsonValue)>, p: (String, JsonValue), j: int)
    requires
        0 <= j <= out.len(),
        forall|k: int|
            0 <= k < j ==> (#[trigger] out[k]).0@ != p.0@ && !text_lt(p.0@, out[k].0@),
        j == out.len() || out[j].0@ == p.0@ || text_lt(p.0@, out[j].0@),
    ensures
        put_entry(out, p) == if j < out.len() && out[j].0@ == p.0@ {
            out.update(j, (out[j].0, p.1))
        } else {
            out.insert(j, p)
        },
    decreases j,
{
    if out.len() == 0 {
        assert(out.insert(j, p) =~= seq![p]);
    } else if j == 0 {
        if out[0].0@ == p.0@ {
            assert(out.update(0, (out[0].0, p.1)) =~= seq![(out[0].0, p.1)] + out.drop_first());
        } else {
            assert(out.insert(0, p) =~= seq![p] + out);
        }
    } else {
        let r = out.drop_first();
        assert forall|k: int| 0 <= k < j - 1 implies (#[trigger] r[k]).0@ != p.0@ && !text_lt(
            p.0@,
            r[k].0@,
        ) by {
            assert(r[k] == out[k + 1]);
        }
        if j < out.len() {
            assert(r[j - 1] == out[j]);
        }
        lemma_put_entry_at(r, p, j - 1);
        assert(out[0].0@ != p.0@);
        if j < out.len() && out[j].0@ == p.0@ {
            assert(out.update(j, (out[j].0, p.1)) =~= seq![out[0]] + r.update(
                j - 1,
                (r[j - 1].0, p.1),
            ));
        } else {
            assert(out.insert(j, p) =~= seq![out[0]] + r.insert(j - 1, p));
        }
    }
}

/// Stores `p` under its key (see [`put_entry`]).
fn put(out: &mut Vec<(String, JsonValue)>, p: (String, JsonValue))
    ensures
        final(out)@ == put_entry(old(out)@, p),
{
    let ghost pg = p;
    let mut j: usize = 0;
    while j < out.len()
        invariant
            0 <= j <= out.len(),
            out@ == old(out)@,
            pg == p,
            forall|k: int|
                0 <= k < j ==> (#[trigger] out@[k]).0@ != p.0@ && !text_lt(p.0@, out@[k].0@),
        ensures
            out@ == old(out)@,
            j == out.len() || out@[j as int].0@ == p.0@ || text_lt(p.0@, out@[j as int].0@),
        decreases out.len() - j,
    {
        if crate::json::str_eq(out[j].0.as_str(), p.0.as_str()) || text_less(
            p.0.as_str(),
            out[j].0.as_str(),
        ) {
            break;
        }
        j = j + 1;
    }
    proof {
        lemma_put_entry_at(out@, p, j as int);
    }
    let same = j < out.len() && crate::json::str_eq(out[j].0.as_str(), p.0.as_str());
    let (pk, pv) = p;
    if same {
        let (k, _) = out.remove(j);
        out.insert(j, (k, pv));
        assert(out@ =~= old(out)@.update(j as int, (old(out)@[j as int].0, pg.1)));
    } else {
        out.insert(j, (pk, pv));
    }
}

fn project_include(m: Vec<(String, JsonValue)>, fields: &Vec<String>) -> (r: Vec<(String, JsonValue)>)
    ensures
        r@ == include_fold(m@, fields@).1,
{
    let ghost m0 = m@;
    let mut rest = m;
    let mut out: Vec<(String, JsonValue)> = Vec::new();
    let mut i: usize = 0;
    assert(fields@.take(0) =~= Seq::<String>::empty());
    while i < fields.len()
        invariant
            0 <= i <= fields.len(),
            (rest@, out@) == include_fold(m0, fields@.take(i as int)),
        decreases fields.len() - i,
    {
        assert(fields@.take(i + 1).drop_last() =~= fields@.take(i as int));
        assert(fields@.take(i + 1).last() == fields@[i as int]);
        match find_entry(&rest, fields[i].as_str()) {
            Some(j) => {
                let (_, v) = rest.remove(j);
                let f = fields[i].clone();
                put(&mut out, (f, v));
            },
            None => {},
        }
        i = i + 1;
    }
    assert(fields@.take(fields.len() as int) =~= fields@);
    out
}

fn project_exclude(m: Vec<(String, JsonValue)>, ex: &Vec<String>) -> (r: Vec<(String, JsonValue)>)
    ensures
        r@ == exclude_fold(m@, strs(ex@)),
{
    let ghost m0 = m@;
    assert(m0.len() == m.len());
    let mut rev = reverse_vec(m);
    let mut out: Vec<(String, JsonValue)> = Vec::new();
    let mut i: usize = 0;
    assert(m0.take(0) =~= Seq::<(String, JsonValue)>::empty());
    assert(m0.skip(0) =~= m0);
    while rev.len() > 0
        invariant
            0 <= i <= m0.len(),
            rev@.reverse() == m0.skip(i as int),
            rev@.len() + i == m0.len(),
            m0.len() <= usize::MAX,
            out@ == exclude_fold(m0.take(i as int), strs(ex@)),
        decreases rev.len(),
    {
        let ghost pre = rev@;
        let p = rev.pop().unwrap();
        proof {
            assert(pre =~= rev@.push(p));
            assert(pre.reverse()[0] == p);
            assert(m0.skip(i as int)[0] == m0[i as int]);
            assert(m0.take(i + 1).drop_last() =~= m0.take(i as int));
            assert(m0.take(i + 1).last() == m0[i as int]);
            assert(rev@.reverse() =~= pre.reverse().drop_first());
            assert(m0.skip(i as int).drop_first() =~= m0.skip(i + 1));
        }
        if !has_key(ex, p.0.as_str()) {
            put(&mut out, p);
        }
        i = i + 1;
    }
    assert(m0.skip(i as int).len() == 0);
    assert(m0.take(i as int) =~= m0);
    out
}

/// Projects one row onto the selected fields (see [`projects_to`]),
/// moving the values.
pub fn project_row(row: JsonValue, fields: &FieldSelector) -> (r: JsonValue)
    ensures
        projects_to(row, r, *fields),
{
    match row {
        JsonValue::Object(map) => {
            if let Some(inc) = &fields.included {
                JsonValue::Object(project_include(map, inc))
            } else if let Some(ex) = &fields.excluded {
                JsonValue::Object(project_exclude(map, ex))
            } else {
                JsonValue::Object(map)
            }
        },
        other => other,
    }
}

/// Every number comparison the filter makes on any of the rows gives the
/// `f64` result exactly (see [`numbers_agree`]).
pub open spec fn rows_agree(rows: Seq<JsonValue>, e: ExprM) -> bool {
    forall|i: int| 0 <= i < rows.len() ==> numbers_agree(e, #[trigger] rows[i])
}

fn filter_rows(filter: &Filter, rows: Vec<JsonValue>) -> (r: Result<Vec<JsonValue>, GhidraError>)
    requires
        paths_ok(expr_model(filter.expr)),
    ensures
        rows_agree(rows@, expr_model(filter.expr)) ==> {
            &&& kept_rows(rows@, expr_model(filter.expr)) matches Ok(k) ==> (r matches Ok(v) && v@ == k)
            &&& kept_rows(rows@, expr_model(filter.expr)) is Err ==> (r matches Err(e) && e is InvalidFilter)
        },
        r matches Err(e) ==> e is InvalidFilter,
{
    let ghost all = rows@;
    assert(all.len() == rows.len());
    let ghost e = expr_model(filter.expr);
    let mut rev = reverse_vec(rows);
    let mut kept: Vec<JsonValue> = Vec::new();
    let mut i: usize = 0;
    assert(all.take(0) =~= Seq::<JsonValue>::empty());
    assert(all.skip(0) =~= all);
    while rev.len() > 0
        invariant
            0 <= i <= all.len(),
            paths_ok(e),
            e == expr_model(filter.expr),
            all == rows@,
            rev@.reverse() == all.skip(i as int),
            rev@.len() + i == all.len(),
            all.len() <= usize::MAX,
            rows_agree(all, e) ==> kept_rows(all.take(i as int), e) == Ok::<Seq<JsonValue>, ()>(kept@),
        decreases rev.len(),
    {
        let ghost pre = rev@;
        let row = rev.pop().unwrap();
        proof {
            assert(pre =~= rev@.push(row));
            assert(pre.reverse()[0] == row);
            assert(all.skip(i as int)[0] == all[i as int]);
            assert(all.take(i + 1).drop_last() =~= all.take(i as int));
            assert(all.take(i + 1).last() == all[i as int]);
            assert(rev@.reverse() =~= pre.reverse().drop_first());
            assert(all.skip(i as int).drop_first() =~= all.skip(i + 1));
            if rows_agree(all, e) {
                assert(numbers_agree(e, all[i as int]));
            }
        }
        match filter.evaluate(&row) {
            Ok(true) => kept.push(row),
            Ok(false) => {},
            Err(err) => {
                proof {
                    if rows_agree(all, e) {
                        assert(eval(e, all[i as int]) is Err);
                        assert(kept_rows(all.take(i + 1), e) is Err);
                        lemma_kept_rows_err(all, e, i + 1);
                        assert(kept_rows(all, e) is Err);
                    }
                    assert(err is InvalidFilter);
                }
                return Err(err);
            },
        }
        i = i + 1;
    }
    assert(all.skip(i as int).len() == 0);
    assert(all.take(i as int) =~= all);
    Ok(kept)
}

proof fn lemma_kept_rows_err(rows: Seq<JsonValue>, e: ExprM, k: int)
    requires
        0 <= k <= rows.len(),
        kept_rows(rows.take(k), e) is Err,
    ensures
        kept_rows(rows, e) is Err,
    decreases rows.len() - k,
{
    if k < rows.len() {
        assert(rows.take(k + 1).drop_last() =~= rows.take(k));
        lemma_kept_rows_err(rows, e, k + 1);
    } else {
        assert(rows.take(k) =~= rows);
    }
}

fn project_rows(rows: Vec<JsonValue>, fields: &FieldSelector) -> (r: Vec<JsonValue>)
    ensures
        rows_project_to(rows@, r@, *fields),
{
    let ghost all = rows@;
    assert(all.len() == rows.len());
    let mut rev = reverse_vec(rows);
    let mut out: Vec<JsonValue> = Vec::new();
    let mut i: usize = 0;
    assert(all.skip(0) =~= all);
    while rev.len() > 0
        invariant
            0 <= i <= all.len(),
            rev@.reverse() == all.skip(i as int),
            rev@.len() + i == all.len(),
            all.len() <= usize::MAX,
            out@.len() == i,
            forall|j: int| 0 <= j < i ==> projects_to(all[j], #[trigger] out@[j], *fields),
        decreases rev.len(),
    {
        let ghost pre = rev@;
        let row = rev.pop().unwrap();
        proof {
            assert(pre =~= rev@.push(row));
            assert(pre.reverse()[0] == row);
            assert(all.skip(i as int)[0] == all[i as int]);
            assert(rev@.reverse() =~= pre.reverse().drop_first());
            assert(all.skip(i as int).drop_first() =~= all.skip(i + 1));
        }
        let p = project_row(row, fields);
        out.push(p);
        i = i + 1;
    }
    assert(all.skip(i as int).len() == 0);
    out
}

fn paginate(rows: Vec<JsonValue>, offset: Option<usize>, limit: Option<usize>) -> (r: Vec<JsonValue>)
    ensures
        r@ == page(rows@, offset, limit),
{
    let off: usize = match offset {
        Some(o) => if o < rows.len() {
            o
        } else {
            rows.len()
        },
        None => 0,
    };
    let mut head = rows;
    let mut rest = head.split_off(off);
    match limit {
        Some(n) => {
            if n > 0 && n < rest.len() {
                rest.truncate(n);
            }
        },
        None => {},
    }
    rest
}

/// The filter's number comparisons on the rows are exact (see
/// [`rows_agree`]).
pub open spec fn filter_agrees(p: PostProc, rows: Seq<JsonValue>) -> bool {
    p.filter matches Some(f) ==> rows_agree(rows, expr_model(f.expr))
}

/// The sort keys compare the rows as `f64` does (see [`rows_keys_agree`]).
pub open spec fn sort_agrees(p: PostProc, rows: Seq<JsonValue>) -> bool {
    p.sort matches Some(keys) ==> rows_keys_agree(rows, keys_model(keys@))
}

/// `shown` are the rows shown from the projected rows `proj`, wherever the
/// sort's comparisons on them are exact.
pub open spec fn shows(p: PostProc, proj: Seq<JsonValue>, shown: Seq<JsonValue>) -> bool {
    sort_agrees(p, proj) ==> shown == shown_rows(p, proj)
}

impl PostProc {
    /// The rows the step shows: filtered, with the fields selected, sorted
    /// (stably), the first `offset` dropped and at most `limit` kept (`0` =
    /// all). A failing filter evaluation ends it with `InvalidFilter`.
    /// Numbers are compared exactly; what is shown is stated where the
    /// filter's and the sort's number comparisons are those of `f64` (see
    /// [`filter_agrees`] and [`sort_agrees`]).
    pub fn select(&self, rows: Vec<JsonValue>) -> (r: Result<Vec<JsonValue>, GhidraError>)
        requires
            self.filter matches Some(f) ==> paths_ok(expr_model(f.expr)),
        ensures
            filter_agrees(*self, rows@) ==> match filter_stage(*self, rows@) {
                Err(()) => r matches Err(e) && e is InvalidFilter,
                Ok(kept) => r matches Ok(shown) && exists|proj: Seq<JsonValue>|
                    rows_project_to(kept, proj, selection_of(*self)) && #[trigger] shows(
                        *self,
                        proj,
                        shown@,
                    ),
            },
            r matches Err(e) ==> e is InvalidFilter,
    {
        let ghost p = *self;
        let ghost input = rows@;
        let kept = match &self.filter {
            Some(f) => match filter_rows(f, rows) {
                Ok(k) => k,
                Err(e) => return Err(e),
            },
            None => rows,
        };
        let ghost kept_g = kept@;
        let projected = match &self.fields {
            Some(sel) => project_rows(kept, sel),
            None => {
                let ghost none = FieldSelector { included: None, excluded: None };
                assert(rows_project_to(kept@, kept@, none));
                kept
            },
        };
        assert(rows_project_to(kept_g, projected@, selection_of(p)));
        let ghost proj = projected@;
        let sorted = match &self.sort {
            Some(keys) => sort_rows(projected, keys),
            None => projected,
        };
        let shown = paginate(sorted, self.offset, self.limit);
        let ghost shown_g = shown@;
        let r: Result<Vec<JsonValue>, GhidraError> = Ok(shown);
        proof {
            if sort_agrees(p, proj) {
                assert(shown_g == shown_rows(p, proj));
            }
            if filter_agrees(p, input) {
                assert(filter_stage(p, input) == Ok::<Seq<JsonValue>, ()>(kept_g));
                assert(rows_project_to(kept_g, proj, selection_of(p)));
                assert(shows(p, proj, shown_g));
                assert(r->Ok_0@ == shown_g);
                assert(rows_project_to(kept_g, proj, selection_of(*self)) && shows(*self, proj, r->Ok_0@));
            }
        }
        r
    }

    /// The output for the rows shown: their number when counting, else
    /// their rendering in `format` (`InvalidFormat` where it does not fit).
    pub fn render(&self, shown: &[JsonValue], format: OutputFormat) -> (r: Result<String, GhidraError>)
        requires
            !self.count_only && format == OutputFormat::Compact ==> compact_renderable(shown@),
        ensures
            match post_output(*self, shown@, format) {
                Some(s) => r matches Ok(t) && t@ == s,
                None => r matches Err(e) && e is InvalidFormat,
            },
    {
        if self.count_only {
            let mut s = String::new();
            write_nat(shown.len() as u128, &mut s);
            assert(s@ =~= nat_text(shown@.len()));
            return Ok(s);
        }
        DefaultFormatter.format(shown, format)
    }

    /// Runs the pipeline: [`select`](Self::select), then
    /// [`render`](Self::render).
    pub fn process(self, rows: Vec<JsonValue>, format: OutputFormat) -> (r: Result<
        String,
        GhidraError,
    >)
        requires
            self.filter matches Some(f) ==> paths_ok(expr_model(f.expr)),
            forall|proj: Seq<JsonValue>|
                filter_stage(self, rows@) matches Ok(kept) && rows_project_to(
                    kept,
                    proj,
                    selection_of(self),
                ) && !self.count_only && format == OutputFormat::Compact ==> compact_renderable(
                    #[trigger] shown_rows(self, proj),
                ),
        ensures
            filter_agrees(self, rows@) ==> match filter_stage(self, rows@) {
                Err(()) => r matches Err(e) && e is InvalidFilter,
                Ok(kept) => exists|proj: Seq<JsonValue>|
                    rows_project_to(kept, proj, selection_of(self)) && (sort_agrees(self, proj)
                        ==> match post_output(self, #[trigger] shown_rows(self, proj), format) {
                        Some(s) => r matches Ok(t) && t@ == s,
                        None => r matches Err(e) && e is InvalidFormat,
                    }),
            },
    {
        let ghost all = rows@;
        let shown = match self.select(rows) {
            Ok(s) => s,
            Err(e) => return Err(e),
        };
        if !self.count_only && format == OutputFormat::Compact && !compact_safe(shown.as_slice()) {
            // Only where the exact comparisons are not `f64`'s can the rows
            // shown differ from the ones the `requires` speaks of.
            return Err(
                GhidraError::InvalidFormat(
                    "compact output cannot shorten a row on a character boundary".to_owned(),
                ),
            );
        }
        proof {
            if filter_agrees(self, all) && filter_stage(self, all) is Ok {
                let kept = filter_stage(self, all)->Ok_0;
                let proj = choose|proj: Seq<JsonValue>|
                    rows_project_to(kept, proj, selection_of(self)) && #[trigger] shows(self, proj, shown@);
                if sort_agrees(self, proj) {
                    assert(shown@ == shown_rows(self, proj));
                }
            }
        }
        self.render(shown.as_slice(), format)
    }
}

/// The filter keeps exactly the rows it matches, in their order: it fails
/// if and only if evaluating it fails on some row; otherwise every kept row
/// is a matching input row, every matching input row is kept, and no more
/// rows come out than went in.
pub proof fn law_filter_keeps_exactly_the_matches(rows: Seq<JsonValue>, e: ExprM)
    ensures
        kept_rows(rows, e) is Err <==> exists|i: int|
            0 <= i < rows.len() && (#[trigger] eval(e, rows[i])) is Err,
        kept_rows(rows, e) matches Ok(k) ==> {
            &&& k.len() <= rows.len()
            &&& forall|i: int|
                0 <= i < k.len() ==> eval(e, #[trigger] k[i]) == Ok::<bool, ()>(true) && rows.contains(k[i])
            &&& forall|i: int|
                0 <= i < rows.len() && eval(e, #[trigger] rows[i]) == Ok::<bool, ()>(true) ==> k.contains(
                    rows[i],
                )
        },
    decreases rows.len(),
{
    if rows.len() > 0 {
        let init = rows.drop_last();
        law_filter_keeps_exactly_the_matches(init, e);
        assert forall|i: int| 0 <= i < init.len() implies #[trigger] init[i] == rows[i] by {}
        if kept_rows(init, e) is Err {
            let w = choose|i: int| 0 <= i < init.len() && (#[trigger] eval(e, init[i])) is Err;
            assert(eval(e, rows[w]) is Err);
        } else {
            let k = kept_rows(init, e)->Ok_0;
            let last = rows.last();
            assert(rows[rows.len() - 1] == last);
            if eval(e, last) is Err {
            } else {
                assert forall|i: int| 0 <= i < rows.len() implies !((#[trigger] eval(e, rows[i])) is Err) by {
                    if i < init.len() {
                        assert(init[i] == rows[i]);
                    }
                }
                let k2 = kept_rows(rows, e)->Ok_0;
                assert forall|i: int| 0 <= i < k2.len() implies eval(e, #[trigger] k2[i]) == Ok::<bool, ()>(true)
                    && rows.contains(k2[i]) by {
                    if i < k.len() {
                        assert(k2[i] == k[i]);
                        assert(init.contains(k[i]));
                        let j = choose|j: int| 0 <= j < init.len() && init[j] == k[i];
                        assert(rows[j] == k[i]);
                    } else {
                        assert(k2[i] == last);
                        assert(rows[rows.len() - 1] == last);
                    }
                }
                assert forall|i: int| 0 <= i < rows.len() && eval(e, #[trigger] rows[i]) == Ok::<bool, ()>(true) implies k2.contains(rows[i]) by {
                    if i < init.len() {
                        assert(init[i] == rows[i]);
                        assert(k.contains(rows[i]));
                        let j = choose|j: int| 0 <= j < k.len() && k[j] == rows[i];
                        assert(k2[j] == rows[i]);
                    } else {
                        assert(k2[k2.len() - 1] == last);
                    }
                }
            }
        }
    }
}

/// Paging takes one window of the rows: the rows from the offset on (none
/// when the offset is past the end), at most `limit` of them when a
/// nonzero limit is given, all of them otherwise.
pub proof fn law_page_is_a_window(rows: Seq<JsonValue>, offset: Option<usize>, limit: Option<usize>)
    ensures
        ({
            let start: int = match offset {
                Some(o) => if o < rows.len() {
                    o as int
                } else {
                    rows.len() as int
                },
                None => 0,
            };
            let p = page(rows, offset, limit);
            &&& p == rows.subrange(start, start + p.len())
            &&& start + p.len() <= rows.len()
            &&& match limit {
                Some(n) => n > 0 ==> p.len() == if n < rows.len() - start {
                    n as int
                } else {
                    rows.len() - start
                },
                None => true,
            }
            &&& (limit is None || limit == Some(0usize)) ==> p.len() == rows.len() - start
        }),
{
}

/// `e` has the key and value of some member of `src`.
pub open spec fn entry_from(e: (String, JsonValue), src: Seq<(String, JsonValue)>) -> bool {
    exists|j: int| 0 <= j < src.len() && (#[trigger] src[j]).0@ == e.0@ && src[j].1 == e.1
}

proof fn lemma_put_entry_from(out: Seq<(String, JsonValue)>, p: (String, JsonValue))
    ensures
        forall|k: int|
            0 <= k < put_entry(out, p).len() ==> entry_from(#[trigger] put_entry(out, p)[k], out.push(p)),
    decreases out.len(),
{
    let r = put_entry(out, p);
    let src = out.push(p);
    assert(src[out.len() as int] == p);
    if out.len() == 0 {
        assert forall|k: int| 0 <= k < r.len() implies entry_from(#[trigger] r[k], src) by {
            assert(src[0] == p);
        }
    } else if out[0].0@ == p.0@ {
        assert forall|k: int| 0 <= k < r.len() implies entry_from(#[trigger] r[k], src) by {
            if k == 0 {
                assert(src[out.len() as int].0@ == r[0].0@ && src[out.len() as int].1 == r[0].1);
            } else {
                assert(r[k] == out[k]);
                assert(src[k] == out[k]);
            }
        }
    } else if text_lt(p.0@, out[0].0@) {
        assert forall|k: int| 0 <= k < r.len() implies entry_from(#[trigger] r[k], src) by {
            if k == 0 {
                assert(r[0] == p);
            } else {
                assert(r[k] == out[k - 1]);
                assert(src[k - 1] == out[k - 1]);
            }
        }
    } else {
        let t = out.drop_first();
        lemma_put_entry_from(t, p);
        let rt = put_entry(t, p);
        assert forall|k: int| 0 <= k < r.len() implies entry_from(#[trigger] r[k], src) by {
            if k == 0 {
                assert(r[0] == out[0]);
                assert(src[0] == out[0]);
            } else {
                assert(r[k] == rt[k - 1]);
                assert(entry_from(rt[k - 1], t.push(p)));
                let j = choose|j: int|
                    0 <= j < t.push(p).len() && (#[trigger] t.push(p)[j]).0@ == rt[k - 1].0@
                        && t.push(p)[j].1 == rt[k - 1].1;
                assert(t.push(p)[j] == src[j + 1]);
            }
        }
    }
}

proof fn lemma_exclude_fold(m: Seq<(String, JsonValue)>, ex: Seq<Seq<char>>)
    ensures
        forall|k: int|
            0 <= k < exclude_fold(m, ex).len() ==> entry_from(#[trigger] exclude_fold(m, ex)[k], m)
                && !ex.contains(exclude_fold(m, ex)[k].0@),
    decreases m.len(),
{
    if m.len() > 0 {
        let init = m.drop_last();
        lemma_exclude_fold(init, ex);
        let prev = exclude_fold(init, ex);
        let r = exclude_fold(m, ex);
        assert forall|j: int| 0 <= j < init.len() implies #[trigger] init[j] == m[j] by {}
        if ex.contains(m.last().0@) {
            assert forall|k: int| 0 <= k < r.len() implies entry_from(#[trigger] r[k], m) && !ex.contains(
                r[k].0@,
            ) by {
                let j = choose|j: int|
                    0 <= j < init.len() && (#[trigger] init[j]).0@ == r[k].0@ && init[j].1 == r[k].1;
                assert(m[j] == init[j]);
            }
        } else {
            lemma_put_entry_from(prev, m.last());
            assert(prev.push(m.last())[prev.len() as int] == m.last());
            assert forall|k: int| 0 <= k < r.len() implies entry_from(#[trigger] r[k], m) && !ex.contains(
                r[k].0@,
            ) by {
                let src = prev.push(m.last());
                let j = choose|j: int|
                    0 <= j < src.len() && (#[trigger] src[j]).0@ == r[k].0@ && src[j].1 == r[k].1;
                if j < prev.len() {
                    assert(src[j] == prev[j]);
                    let i = choose|i: int|
                        0 <= i < init.len() && (#[trigger] init[i]).0@ == prev[j].0@ && init[i].1
                            == prev[j].1;
                    assert(m[i] == init[i]);
                } else {
                    assert(m[m.len() - 1] == m.last());
                }
            }
        }
    }
}

proof fn lemma_include_fold_keys(m: Seq<(String, JsonValue)>, fields: Seq<String>)
    ensures
        forall|k: int|
            0 <= k < include_fold(m, fields).1.len() ==> strs(fields).contains(
                (#[trigger] include_fold(m, fields).1[k]).0@,
            ),
    decreases fields.len(),
{
    if fields.len() > 0 {
        let init = fields.drop_last();
        lemma_include_fold_keys(m, init);
        let st = include_fold(m, init);
        let f = fields.last();
        let r = include_fold(m, fields).1;
        assert forall|j: int| 0 <= j < init.len() implies strs(fields)[j] == strs(init)[j] by {}
        assert(strs(fields)[fields.len() - 1] == f@);
        match entry_index(st.0, f@) {
            Some(i) => {
                let p = (f, st.0[i].1);
                lemma_put_entry_from(st.1, p);
                assert forall|k: int| 0 <= k < r.len() implies strs(fields).contains(
                    (#[trigger] r[k]).0@,
                ) by {
                    let src = st.1.push(p);
                    let j = choose|j: int|
                        0 <= j < src.len() && (#[trigger] src[j]).0@ == r[k].0@ && src[j].1 == r[k].1;
                    if j < st.1.len() {
                        assert(src[j] == st.1[j]);
                        let w = choose|w: int| 0 <= w < strs(init).len() && strs(init)[w] == st.1[j].0@;
                        assert(strs(fields)[w] == strs(init)[w]);
                    } else {
                        assert(src[j] == p);
                    }
                }
            },
            None => {
                assert forall|k: int| 0 <= k < r.len() implies strs(fields).contains(
                    (#[trigger] r[k]).0@,
                ) by {
                    let w = choose|w: int| 0 <= w < strs(init).len() && strs(init)[w] == r[k].0@;
                    assert(strs(fields)[w] == strs(init)[w]);
                }
            },
        }
    }
}

/// `--fields` keeps only what it selects: with a list of fields every
/// member left is one of them; with a list of exclusions no excluded member
/// is left, and every member left is one the row had, with its value.
pub proof fn law_projection_keeps_only_the_selection(m: Seq<(String, JsonValue)>, sel: FieldSelector)
    ensures
        sel.included matches Some(inc) ==> forall|k: int|
            0 <= k < projected_entries(m, sel).len() ==> strs(inc@).contains(
                (#[trigger] projected_entries(m, sel)[k]).0@,
            ),
        sel.included is None && sel.excluded is Some ==> forall|k: int|
            0 <= k < projected_entries(m, sel).len() ==> entry_from(
                #[trigger] projected_entries(m, sel)[k],
                m,
            ) && !strs(sel.excluded->0@).contains(projected_entries(m, sel)[k].0@),
{
    match sel.included {
        Some(inc) => lemma_include_fold_keys(m, inc@),
        None => match sel.excluded {
            Some(ex) => lemma_exclude_fold(m, strs(ex@)),
            None => {},
        },
    }
}


// ---------------------------------------------------------------------------
// Keys of the selected members
// ---------------------------------------------------------------------------

proof fn lemma_text_lt_irreflexive(a: Seq<char>)
    ensures
        !text_lt(a, a),
    decreases a.len(),
{
    if a.len() > 0 {
        lemma_text_lt_irreflexive(a.drop_first());
    }
}

proof fn lemma_text_lt_transitive(a: Seq<char>, b: Seq<char>, c: Seq<char>)
    requires
        text_lt(a, b),
        text_lt(b, c),
    ensures
        text_lt(a, c),
    decreases a.len(),
{
    if a.len() > 0 && b.len() > 0 && c.len() > 0 && a[0] == b[0] && b[0] == c[0] {
        lemma_text_lt_transitive(a.drop_first(), b.drop_first(), c.drop_first());
    }
}

proof fn lemma_text_lt_total(a: Seq<char>, b: Seq<char>)
    requires
        a != b,
    ensures
        text_lt(a, b) || text_lt(b, a),
    decreases a.len(),
{
    if a.len() > 0 && b.len() > 0 {
        if a[0] == b[0] {
            if a.drop_first() == b.drop_first() {
                assert(a =~= seq![a[0]] + a.drop_first());
                assert(b =~= seq![b[0]] + b.drop_first());
            }
            lemma_text_lt_total(a.drop_first(), b.drop_first());
        } else {
            vstd::utf8::char_u32_cast(a[0], a[0] as u32);
            vstd::utf8::char_u32_cast(b[0], b[0] as u32);
            assert((a[0] as u32) != (b[0] as u32));
        }
    } else if a.len() == 0 && b.len() == 0 {
        assert(a =~= b);
    }
}

/// The keys strictly ascend.
pub open spec fn keys_ascending(s: Seq<(String, JsonValue)>) -> bool {
    forall|i: int, j: int| 0 <= i < j < s.len() ==> text_lt(#[trigger] s[i].0@, #[trigger] s[j].0@)
}

/// Every key lies above `lo`.
pub open spec fn keys_above(s: Seq<(String, JsonValue)>, lo: Seq<char>) -> bool {
    forall|i: int| 0 <= i < s.len() ==> text_lt(lo, #[trigger] s[i].0@)
}

proof fn lemma_ascending_unique(s: Seq<(String, JsonValue)>)
    requires
        keys_ascending(s),
    ensures
        keys_unique(s),
{
    assert forall|i: int, j: int| 0 <= i < j < s.len() implies s[i].0@ != s[j].0@ by {
        assert(text_lt(s[i].0@, s[j].0@));
        lemma_text_lt_irreflexive(s[i].0@);
    }
}

proof fn lemma_put_entry(out: Seq<(String, JsonValue)>, p: (String, JsonValue), lo: Seq<char>)
    requires
        keys_ascending(out),
    ensures
        keys_ascending(put_entry(out, p)),
        keys_above(out, lo) && text_lt(lo, p.0@) ==> keys_above(put_entry(out, p), lo),
    decreases out.len(),
{
    let r = put_entry(out, p);
    if out.len() == 0 {
    } else if out[0].0@ == p.0@ {
        assert forall|i: int, j: int| 0 <= i < j < r.len() implies text_lt(#[trigger] r[i].0@, #[trigger] r[j].0@) by {
            assert(r[j].0@ == out[j].0@);
            assert(r[i].0@ == out[i].0@);
        }
    } else if text_lt(p.0@, out[0].0@) {
        assert forall|i: int, j: int| 0 <= i < j < r.len() implies text_lt(#[trigger] r[i].0@, #[trigger] r[j].0@) by {
            assert(r[j] == out[j - 1]);
            if i == 0 {
                if j > 1 {
                    assert(text_lt(out[0].0@, out[j - 1].0@));
                    lemma_text_lt_transitive(p.0@, out[0].0@, out[j - 1].0@);
                }
            } else {
                assert(r[i] == out[i - 1]);
            }
        }
        if keys_above(out, lo) && text_lt(lo, p.0@) {
            assert forall|i: int| 0 <= i < r.len() implies text_lt(lo, #[trigger] r[i].0@) by {
                if i > 0 {
                    assert(r[i] == out[i - 1]);
                }
            }
        }
    } else {
        let rest = out.drop_first();
        let head = out[0];
        lemma_text_lt_total(head.0@, p.0@);
        assert(keys_ascending(rest)) by {
            assert forall|i: int, j: int| 0 <= i < j < rest.len() implies text_lt(#[trigger] rest[i].0@, #[trigger] rest[j].0@) by {
                assert(rest[i] == out[i + 1] && rest[j] == out[j + 1]);
            }
        }
        assert(keys_above(rest, head.0@)) by {
            assert forall|i: int| 0 <= i < rest.len() implies text_lt(head.0@, #[trigger] rest[i].0@) by {
                assert(rest[i] == out[i + 1]);
            }
        }
        lemma_put_entry(rest, p, head.0@);
        lemma_put_entry(rest, p, lo);
        let t = put_entry(rest, p);
        assert(r == seq![head] + t);
        assert forall|i: int, j: int| 0 <= i < j < r.len() implies text_lt(#[trigger] r[i].0@, #[trigger] r[j].0@) by {
            assert(r[j] == t[j - 1]);
            if i > 0 {
                assert(r[i] == t[i - 1]);
            }
        }
        if keys_above(out, lo) && text_lt(lo, p.0@) {
            assert(keys_above(rest, lo)) by {
                assert forall|i: int| 0 <= i < rest.len() implies text_lt(lo, #[trigger] rest[i].0@) by {
                    assert(rest[i] == out[i + 1]);
                }
            }
            assert forall|i: int| 0 <= i < r.len() implies text_lt(lo, #[trigger] r[i].0@) by {
                if i > 0 {
                    assert(r[i] == t[i - 1]);
                } else {
                    assert(text_lt(lo, out[0].0@));
                }
            }
        }
    }
}

proof fn lemma_include_fold_ascending(m: Seq<(String, JsonValue)>, fields: Seq<String>)
    ensures
        keys_ascending(include_fold(m, fields).1),
    decreases fields.len(),
{
    if fields.len() > 0 {
        lemma_include_fold_ascending(m, fields.drop_last());
        let st = include_fold(m, fields.drop_last());
        let f = fields.last();
        match entry_index(st.0, f@) {
            Some(i) => lemma_put_entry(st.1, (f, st.0[i].1), f@),
            None => {},
        }
    }
}

proof fn lemma_exclude_fold_ascending(m: Seq<(String, JsonValue)>, ex: Seq<Seq<char>>)
    ensures
        keys_ascending(exclude_fold(m, ex)),
    decreases m.len(),
{
    if m.len() > 0 {
        lemma_exclude_fold_ascending(m.drop_last(), ex);
        lemma_put_entry(exclude_fold(m.drop_last(), ex), m.last(), m.last().0@);
    }
}

/// Selecting fields keeps an object's keys distinct: with a list of fields
/// or of exclusions the members left are ordered by key, each key once;
/// with neither the object stays as it is, its keys as distinct as before.
pub proof fn law_selected_keys_are_unique(m: Seq<(String, JsonValue)>, sel: FieldSelector)
    ensures
        sel.included is Some || sel.excluded is Some ==> keys_ascending(projected_entries(m, sel)),
        keys_unique(m) ==> keys_unique(projected_entries(m, sel)),
{
    match sel.included {
        Some(inc) => {
            lemma_include_fold_ascending(m, inc@);
            lemma_ascending_unique(projected_entries(m, sel));
        },
        None => match sel.excluded {
            Some(ex) => {
                lemma_exclude_fold_ascending(m, strs(ex@));
                lemma_ascending_unique(projected_entries(m, sel));
            },
            None => {},
        },
    }
}

} // verus!
