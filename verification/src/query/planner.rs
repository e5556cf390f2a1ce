//! Query planning: the one place that decides what to ask the bridge for
//! (`fetch`) and what to do with the rows client-side (`post`).
//!
//! Sorting and counting need the full dataset; a filtered fetch ships only
//! matching rows when the filter can be pushed to the bridge, otherwise the
//! full dataset; `--limit 0` means all rows.
use vstd::prelude::*;
use crate::cli::QueryOptions;
use crate::error::GhidraError;
use crate::filter::{expr_model, CompareOp, ExprM, Filter, FilterExpr, StringOp, Value, ValueM};
use crate::filter::evaluator::regexes_ok;
use crate::filter::parser::parse_filter;
use super::{keys_model, opt_strs, selector_of, sort_key_of, comma_list, FieldSelector, SortKey};

verus! {

/// Server-side fetch parameters for a list command.
#[derive(Debug, Clone, Default, PartialEq, Eq)]
pub struct FetchParams {
    /// Row cap for the bridge (`None` = the full dataset).
    pub limit: Option<usize>,
    /// Server-side case-insensitive substring match on the command's
    /// primary field (`None` = no server-side filtering).
    pub filter: Option<String>,
    /// Server-side page start, set only when the client pipeline cannot
    /// change membership or order.
    pub offset: Option<usize>,
}

/// Client-side post-processing applied to fetched rows.
#[derive(Debug)]
pub struct PostProc {
    pub filter: Option<Filter>,
    pub fields: Option<FieldSelector>,
    pub sort: Option<Vec<SortKey>>,
    /// Client-side page limit; `Some(0)` means all rows.
    pub limit: Option<usize>,
    pub offset: Option<usize>,
    pub count_only: bool,
}

/// A full query plan.
#[derive(Debug)]
pub struct QueryPlan {
    pub fetch: FetchParams,
    /// `None`: no client-side post-processing; the result passes through.
    pub post: Option<PostProc>,
}

// ---------------------------------------------------------------------------
// Models
// ---------------------------------------------------------------------------

pub open spec fn opt_view(o: Option<String>) -> Option<Seq<char>> {
    match o {
        Some(s) => Some(s@),
        None => None,
    }
}

pub struct FetchM {
    pub limit: Option<usize>,
    pub filter: Option<Seq<char>>,
    pub offset: Option<usize>,
}

pub struct PostM {
    pub filter: Option<ExprM>,
    pub fields: Option<(Option<Seq<Seq<char>>>, Option<Seq<Seq<char>>>)>,
    pub sort: Option<Seq<(Seq<char>, bool)>>,
    pub limit: Option<usize>,
    pub offset: Option<usize>,
    pub count_only: bool,
}

pub enum PlanError {
    /// The filter text is not a filter expression.
    Parse,
    /// A regex in the filter does not compile.
    Regex,
}

pub open spec fn fetch_model(f: FetchParams) -> FetchM {
    FetchM { limit: f.limit, filter: opt_view(f.filter), offset: f.offset }
}

pub open spec fn post_model(p: PostProc) -> PostM {
    PostM {
        filter: match p.filter {
            Some(f) => Some(expr_model(f.expr)),
            None => None,
        },
        fields: match p.fields {
            Some(s) => Some((opt_strs(s.included), opt_strs(s.excluded))),
            None => None,
        },
        sort: match p.sort {
            Some(v) => Some(keys_model(v@)),
            None => None,
        },
        limit: p.limit,
        offset: p.offset,
        count_only: p.count_only,
    }
}

pub open spec fn plan_model(p: QueryPlan) -> (FetchM, Option<PostM>) {
    (
        fetch_model(p.fetch),
        match p.post {
            Some(q) => Some(post_model(q)),
            None => None,
        },
    )
}

/// What may be sent to the bridge's `filter` argument (a case-insensitive
/// substring match on `bridge_field`), and whether it is exact:
/// `field~v` is exact; `field^v`, `field$v` and `field=v` push `v` as a
/// superset; anything else is not pushed.
pub open spec fn pushdown(e: ExprM, bridge_field: Option<Seq<char>>) -> (Option<Seq<char>>, bool) {
    match bridge_field {
        None => (None, false),
        Some(field) => match e {
            ExprM::StrOp(f, StringOp::Contains, v) => if f == field { (Some(v), true) } else { (None, false) },
            ExprM::StrOp(f, StringOp::StartsWith, v) => if f == field { (Some(v), false) } else { (None, false) },
            ExprM::StrOp(f, StringOp::EndsWith, v) => if f == field { (Some(v), false) } else { (None, false) },
            ExprM::Compare(f, CompareOp::Equal, ValueM::Str(s)) => if f == field { (Some(s), false) } else { (None, false) },
            _ => (None, false),
        },
    }
}

/// `--limit` with `0` meaning "no cap", falling back to `dflt`.
pub open spec fn cap_of(limit: Option<usize>, dflt: Option<usize>) -> Option<usize> {
    match limit {
        Some(0) => None,
        Some(n) => Some(n),
        None => dflt,
    }
}

/// The plan for a command's options.
pub open spec fn planned(
    opts: Option<QueryOptions>,
    default_limit: Option<usize>,
    bridge_field: Option<Seq<char>>,
) -> Result<(FetchM, Option<PostM>), PlanError> {
    match opts {
        None => Ok((FetchM { limit: default_limit, filter: None, offset: None }, None)),
        Some(o) => {
            let parsed = match o.filter {
                Some(f) => Some(parse_filter(f@)),
                None => None,
            };
            if parsed == Some(None::<ExprM>) {
                Err(PlanError::Parse)
            } else if parsed matches Some(Some(e)) && !regexes_ok(e) {
                Err(PlanError::Regex)
            } else {
                let filter: Option<ExprM> = match parsed {
                    Some(Some(e)) => Some(e),
                    _ => None,
                };
                let full_scan = o.sort is Some || o.count;
                let (pushed, exact) = match filter {
                    Some(e) => pushdown(e, bridge_field),
                    None => (None, false),
                };
                let offset_pushed = match o.offset {
                    Some(n) => if n > 0 && !full_scan && bridge_field is Some && (filter is None
                        || exact) {
                        Some(n)
                    } else {
                        None
                    },
                    None => None,
                };
                let needs_post = filter is Some || full_scan || o.fields is Some || o.limit is Some
                    || (offset_pushed is None && o.offset is Some);
                let limit = if pushed is Some && exact && !full_scan {
                    cap_of(o.limit, None)
                } else if o.filter is Some || full_scan {
                    None
                } else {
                    cap_of(o.limit, default_limit)
                };
                let fetch = FetchM { limit, filter: pushed, offset: offset_pushed };
                let post = if needs_post {
                    Some(
                        PostM {
                            filter,
                            fields: match o.fields {
                                Some(f) => Some(selector_of(f@)),
                                None => None,
                            },
                            sort: match o.sort {
                                Some(s) => Some(
                                    comma_list(s@).map_values(|p: Seq<char>| sort_key_of(p)),
                                ),
                                None => None,
                            },
                            limit: o.limit,
                            offset: if offset_pushed is Some { None } else { o.offset },
                            count_only: o.count,
                        },
                    )
                } else {
                    None
                };
                Ok((fetch, post))
            }
        },
    }
}

// ---------------------------------------------------------------------------
// Planning
// ---------------------------------------------------------------------------

fn clone_string(s: &String) -> (r: String)
    ensures
        r@ == s@,
{
    s.clone()
}

fn same_text(a: &String, b: &str) -> (r: bool)
    ensures
        r == (a@ == b@),
{
    crate::json::str_eq(a.as_str(), b)
}

/// The bridge filter value for `expr` and whether it is exact (see [`pushdown`]).
pub fn pushdown_filter(expr: &FilterExpr, bridge_field: Option<&str>) -> (r: (Option<String>, bool))
    ensures
        (opt_view(r.0), r.1) == pushdown(
            expr_model(*expr),
            match bridge_field {
                Some(b) => Some(b@),
                None => None,
            },
        ),
{
    let field = match bridge_field {
        Some(f) => f,
        None => {
            return (None, false);
        },
    };
    match expr {
        FilterExpr::StringOp { field: f, op, value } => {
            if same_text(f, field) {
                match op {
                    StringOp::Contains => (Some(clone_string(value)), true),
                    StringOp::StartsWith => (Some(clone_string(value)), false),
                    StringOp::EndsWith => (Some(clone_string(value)), false),
                    StringOp::Regex => (None, false),
                }
            } else {
                (None, false)
            }
        },
        FilterExpr::Compare { field: f, op: CompareOp::Equal, value: Value::String(s) } => {
            if same_text(f, field) {
                (Some(clone_string(s)), false)
            } else {
                (None, false)
            }
        },
        _ => (None, false),
    }
}

impl QueryPlan {
    /// Builds the plan from a command's query options (see [`planned`]).
    /// `bridge_field` is the row field the bridge's `filter` argument
    /// matches, `None` for commands whose bridge handler has no filter (and
    /// no offset). A malformed filter fails with `FilterParseError`, an
    /// uncompilable regex with `InvalidFilter`, before anything is fetched.
    pub fn from(
        opts: Option<&QueryOptions>,
        default_limit: Option<usize>,
        bridge_field: Option<&str>,
    ) -> (r: Result<QueryPlan, GhidraError>)
        ensures
            ({
                let m = planned(
                    match opts {
                        Some(o) => Some(*o),
                        None => None,
                    },
                    default_limit,
                    match bridge_field {
                        Some(b) => Some(b@),
                        None => None,
                    },
                );
                match m {
                    Ok(pm) => r matches Ok(p) && plan_model(p) == pm,
                    Err(PlanError::Parse) => r matches Err(e) && e is FilterParseError,
                    Err(PlanError::Regex) => r matches Err(e) && e is InvalidFilter,
                }
            }),
    {
        let o = match opts {
            Some(o) => o,
            None => {
                return Ok(
                    QueryPlan {
                        fetch: FetchParams { limit: default_limit, filter: None, offset: None },
                        post: None,
                    },
                );
            },
        };
        let full_scan = o.sort.is_some() || o.count;
        let filter = match &o.filter {
            Some(text) => {
                let f = Filter::parse(text.as_str())?;
                f.validate()?;
                Some(f)
            },
            None => None,
        };
        let (pushed, exact) = match &filter {
            Some(f) => pushdown_filter(&f.expr, bridge_field),
            None => (None, false),
        };
        let offset_pushed = match o.offset {
            Some(n) => if n > 0 && !full_scan && bridge_field.is_some() && (filter.is_none() || exact) {
                Some(n)
            } else {
                None
            },
            None => None,
        };
        let needs_post = filter.is_some() || full_scan || o.fields.is_some() || o.limit.is_some() || (
        offset_pushed.is_none() && o.offset.is_some());
        let limit = if pushed.is_some() && exact && !full_scan {
            match o.limit {
                Some(0) => None,
                Some(n) => Some(n),
                None => None,
            }
        } else if o.filter.is_some() || full_scan {
            None
        } else {
            match o.limit {
                Some(0) => None,
                Some(n) => Some(n),
                None => default_limit,
            }
        };
        let fetch = FetchParams { limit, filter: pushed, offset: offset_pushed };
        let post = if needs_post {
            let fields = match &o.fields {
                Some(f) => Some(FieldSelector::parse(f.as_str())?),
                None => None,
            };
            let sort = match &o.sort {
                Some(s) => Some(SortKey::parse(s.as_str())),
                None => None,
            };
            Some(
                PostProc {
                    filter,
                    fields,
                    sort,
                    limit: o.limit,
                    offset: if offset_pushed.is_some() {
                        None
                    } else {
                        o.offset
                    },
                    count_only: o.count,
                },
            )
        } else {
            None
        };
        Ok(QueryPlan { fetch, post })
    }
}

// ---------------------------------------------------------------------------
// Laws of planning
// ---------------------------------------------------------------------------

/// Without query options the configured default caps the bridge and no
/// client pass runs.
pub proof fn law_no_options_default_cap(default_limit: Option<usize>, bridge_field: Option<Seq<char>>)
    ensures
        planned(None, default_limit, bridge_field) == Ok::<(FetchM, Option<PostM>), PlanError>(
            (FetchM { limit: default_limit, filter: None, offset: None }, None),
        ),
{
}

/// `--limit 0` means all rows: the bridge is capped neither at 0 nor at
/// the configured default, and the client pass keeps the 0, which it reads
/// as "all".
pub proof fn law_limit_zero_means_all_rows(
    o: QueryOptions,
    default_limit: Option<usize>,
    bridge_field: Option<Seq<char>>,
)
    requires
        o.limit == Some(0usize),
        planned(Some(o), default_limit, bridge_field) is Ok,
    ensures
        ({
            let (fetch, post) = planned(Some(o), default_limit, bridge_field)->Ok_0;
            &&& fetch.limit is None
            &&& post matches Some(p) && p.limit == Some(0usize)
        }),
{
}

/// Sorting and counting need the complete dataset: the bridge is never
/// capped for them, and the client pass sorts or counts.
pub proof fn law_sort_and_count_fetch_everything(
    o: QueryOptions,
    default_limit: Option<usize>,
    bridge_field: Option<Seq<char>>,
)
    requires
        o.sort is Some || o.count,
        planned(Some(o), default_limit, bridge_field) is Ok,
    ensures
        ({
            let (fetch, post) = planned(Some(o), default_limit, bridge_field)->Ok_0;
            &&& fetch.limit is None
            &&& fetch.offset is None
            &&& post matches Some(p) && p.count_only == o.count && (p.sort is Some <==> o.sort is Some)
        }),
{
}

/// The client pass is authoritative: a filter always runs client-side,
/// whatever part of it was also sent to the bridge.
pub proof fn law_filter_always_runs_client_side(
    o: QueryOptions,
    default_limit: Option<usize>,
    bridge_field: Option<Seq<char>>,
)
    requires
        o.filter is Some,
        planned(Some(o), default_limit, bridge_field) is Ok,
    ensures
        ({
            let (fetch, post) = planned(Some(o), default_limit, bridge_field)->Ok_0;
            post matches Some(p) && p.filter == parse_filter(o.filter->0@)
        }),
{
}

/// A malformed filter is refused before anything is fetched, and so is a
/// regex that does not compile.
pub proof fn law_bad_filters_fail_planning(
    o: QueryOptions,
    default_limit: Option<usize>,
    bridge_field: Option<Seq<char>>,
)
    requires
        o.filter is Some,
    ensures
        parse_filter(o.filter->0@) is None ==> planned(Some(o), default_limit, bridge_field)
            == Err::<(FetchM, Option<PostM>), PlanError>(PlanError::Parse),
        parse_filter(o.filter->0@) matches Some(e) && !regexes_ok(e) ==> planned(
            Some(o),
            default_limit,
            bridge_field,
        ) == Err::<(FetchM, Option<PostM>), PlanError>(PlanError::Regex),
{
}

/// An offset is applied exactly once: either the bridge pages (and the
/// client skips nothing) or the client skips the rows, never both and
/// never neither.
pub proof fn law_offset_applied_once(
    o: QueryOptions,
    default_limit: Option<usize>,
    bridge_field: Option<Seq<char>>,
)
    requires
        o.offset matches Some(n) && n > 0,
        planned(Some(o), default_limit, bridge_field) is Ok,
    ensures
        ({
            let (fetch, post) = planned(Some(o), default_limit, bridge_field)->Ok_0;
            ||| fetch.offset == o.offset && (post is None || post->0.offset is None)
            ||| fetch.offset is None && (post matches Some(p) && p.offset == o.offset)
        }),
{
}

/// The bridge only cuts the page when the client pass cannot change which
/// rows there are or their order: no sort, no count, a bridge that pages,
/// and no filter or one it applies exactly.
pub proof fn law_server_page_only_when_safe(
    o: QueryOptions,
    default_limit: Option<usize>,
    bridge_field: Option<Seq<char>>,
)
    requires
        planned(Some(o), default_limit, bridge_field) is Ok,
        planned(Some(o), default_limit, bridge_field)->Ok_0.0.offset is Some,
    ensures
        o.sort is None,
        !o.count,
        bridge_field is Some,
        o.filter is None || pushdown(parse_filter(o.filter->0@)->0, bridge_field).1,
{
}

/// What goes to the bridge's filter is always a plain substring match on
/// the bridge's own field, and a superset of the filter's rows never caps
/// the bridge (the client's exact pass could otherwise see too few rows).
pub proof fn law_pushdown_is_sound(
    o: QueryOptions,
    default_limit: Option<usize>,
    bridge_field: Option<Seq<char>>,
)
    requires
        planned(Some(o), default_limit, bridge_field) is Ok,
        planned(Some(o), default_limit, bridge_field)->Ok_0.0.filter is Some,
    ensures
        bridge_field is Some,
        o.filter is Some,
        ({
            let e = parse_filter(o.filter->0@)->0;
            let v = planned(Some(o), default_limit, bridge_field)->Ok_0.0.filter->0;
            &&& (e matches ExprM::StrOp(f, op, p) && f == bridge_field->0 && p == v && op
                != StringOp::Regex) || (e matches ExprM::Compare(f, CompareOp::Equal, ValueM::Str(
                t,
            )) && f == bridge_field->0 && t == v)
            &&& !pushdown(e, bridge_field).1 ==> planned(
                Some(o),
                default_limit,
                bridge_field,
            )->Ok_0.0.limit is None
        }),
{
}

} // verus!
