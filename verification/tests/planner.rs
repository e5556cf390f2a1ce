use ghidra_cli::cli::QueryOptions;
use ghidra_cli::error::GhidraError;
use ghidra_cli::format::OutputFormat;
use ghidra_cli::json::{JsonNumber, JsonValue};
use ghidra_cli::query::planner::{PostProc, QueryPlan};
use ghidra_cli::query::{FieldSelector, SortKey};

fn opts() -> QueryOptions {
    QueryOptions::default()
}

fn opts_with(f: impl FnOnce(&mut QueryOptions)) -> QueryOptions {
    let mut o = opts();
    f(&mut o);
    o
}

#[test]
fn no_opts_uses_default_limit_no_post() {
    let plan = QueryPlan::from(None, Some(1000), None).unwrap();
    assert_eq!(plan.fetch.limit, Some(1000));
    assert_eq!(plan.fetch.filter, None);
    assert!(plan.post.is_none());
}

#[test]
fn invalid_regex_fails_at_plan_time() {
    let o = opts_with(|o| o.filter = Some(r#"name=~"foo(bar""#.to_string()));
    let err = QueryPlan::from(Some(&o), Some(1000), None).unwrap_err();
    assert!(
        matches!(err, GhidraError::InvalidFilter(_)),
        "expected InvalidFilter, got: {}",
        err.message()
    );
}

#[test]
fn valid_regex_plans_and_caches() {
    let o = opts_with(|o| o.filter = Some(r#"name=~"^pk_""#.to_string()));
    let plan = QueryPlan::from(Some(&o), Some(1000), None).unwrap();
    assert!(plan.post.is_some());
}

#[test]
fn limit_zero_means_all_rows() {
    let o = opts_with(|o| o.limit = Some(0));
    let plan = QueryPlan::from(Some(&o), Some(1000), None).unwrap();
    assert_eq!(plan.fetch.limit, None);
    assert_eq!(plan.post.as_ref().unwrap().limit, Some(0));
}

#[test]
fn no_limit_uses_default() {
    let o = opts_with(|o| o.fields = Some("name".to_string()));
    let plan = QueryPlan::from(Some(&o), Some(1000), None).unwrap();
    assert_eq!(plan.fetch.limit, Some(1000));
}

#[test]
fn explicit_limit_wins() {
    let o = opts_with(|o| o.limit = Some(25));
    let plan = QueryPlan::from(Some(&o), Some(1000), None).unwrap();
    assert_eq!(plan.fetch.limit, Some(25));
    assert_eq!(plan.post.as_ref().unwrap().limit, Some(25));
}

#[test]
fn unpushable_filter_fetches_full_dataset() {
    let o = opts_with(|o| {
        o.filter = Some("name~PK".to_string());
        o.limit = Some(20);
    });
    let plan = QueryPlan::from(Some(&o), Some(1000), None).unwrap();
    assert_eq!(plan.fetch.limit, None);
    assert_eq!(plan.fetch.filter, None);
    assert_eq!(plan.post.as_ref().unwrap().limit, Some(20));
}

#[test]
fn sort_count_fetch_full_dataset() {
    let o = opts_with(|o| o.sort = Some("size".to_string()));
    assert!(QueryPlan::from(Some(&o), Some(1000), None)
        .unwrap()
        .fetch
        .limit
        .is_none());

    let o = opts_with(|o| o.count = true);
    assert!(QueryPlan::from(Some(&o), Some(1000), None)
        .unwrap()
        .fetch
        .limit
        .is_none());
}

#[test]
fn offset_pages_server_side_when_unfiltered() {
    let o = opts_with(|o| o.offset = Some(5));
    let plan = QueryPlan::from(Some(&o), Some(1000), Some("name")).unwrap();
    assert_eq!(plan.fetch.offset, Some(5));
    assert_eq!(plan.fetch.limit, Some(1000));
    assert!(plan.post.is_none());

    let o = opts_with(|o| {
        o.offset = Some(5);
        o.limit = Some(2);
    });
    let plan = QueryPlan::from(Some(&o), Some(1000), Some("name")).unwrap();
    assert_eq!(plan.fetch.offset, Some(5));
    assert_eq!(plan.fetch.limit, Some(2));
    assert!(plan.post.as_ref().unwrap().offset.is_none());
}

#[test]
fn offset_with_exact_filter_pages_server_side() {
    let o = opts_with(|o| {
        o.filter = Some("name~PK".to_string());
        o.offset = Some(3);
    });
    let plan = QueryPlan::from(Some(&o), Some(1000), Some("name")).unwrap();
    assert_eq!(plan.fetch.filter.as_deref(), Some("PK"));
    assert_eq!(plan.fetch.offset, Some(3));
    let post = plan.post.as_ref().unwrap();
    assert!(post.filter.is_some());
    assert!(post.offset.is_none());
}

#[test]
fn unpushable_filter_alone_still_filters_client_side() {
    let o = opts_with(|o| o.filter = Some("size>10".to_string()));
    let plan = QueryPlan::from(Some(&o), Some(1000), Some("name")).unwrap();
    assert_eq!(plan.fetch.filter, None, "size>10 is not pushable");
    assert_eq!(plan.fetch.limit, None, "filtered fetch is uncapped");
    let post = plan.post.as_ref().expect("filter must run client-side");
    assert!(post.filter.is_some());
}

#[test]
fn offset_with_superset_or_sort_stays_client_side() {
    let o = opts_with(|o| {
        o.filter = Some("name^PK_".to_string());
        o.offset = Some(3);
    });
    let plan = QueryPlan::from(Some(&o), Some(1000), Some("name")).unwrap();
    assert_eq!(plan.fetch.offset, None);
    assert!(plan.post.as_ref().unwrap().offset.is_some());

    let o = opts_with(|o| {
        o.offset = Some(3);
        o.sort = Some("size".to_string());
    });
    let plan = QueryPlan::from(Some(&o), Some(1000), Some("name")).unwrap();
    assert_eq!(plan.fetch.offset, None);
    assert!(plan.fetch.limit.is_none());
    assert!(plan.post.as_ref().unwrap().offset.is_some());

    let o = opts_with(|o| o.offset = Some(3));
    let plan = QueryPlan::from(Some(&o), Some(1000), None).unwrap();
    assert_eq!(plan.fetch.offset, None);
    assert!(plan.post.as_ref().unwrap().offset.is_some());
}

#[test]
fn offset_zero_is_a_no_op_not_a_page() {
    let o = opts_with(|o| o.offset = Some(0));
    let plan = QueryPlan::from(Some(&o), Some(1000), Some("name")).unwrap();
    assert_eq!(plan.fetch.offset, None);
}

#[test]
fn exact_contains_pushdown_caps_bridge() {
    let o = opts_with(|o| {
        o.filter = Some("name~PK".to_string());
        o.limit = Some(20);
    });
    let plan = QueryPlan::from(Some(&o), Some(1000), Some("name")).unwrap();
    assert_eq!(plan.fetch.filter.as_deref(), Some("PK"));
    assert_eq!(plan.fetch.limit, Some(20));
    assert!(plan.post.as_ref().unwrap().filter.is_some());
    assert_eq!(plan.post.as_ref().unwrap().limit, Some(20));
}

#[test]
fn exact_contains_without_limit_fetches_all_matches() {
    let o = opts_with(|o| o.filter = Some("name~PK".to_string()));
    let plan = QueryPlan::from(Some(&o), Some(1000), Some("name")).unwrap();
    assert_eq!(plan.fetch.filter.as_deref(), Some("PK"));
    assert_eq!(plan.fetch.limit, None);
}

#[test]
fn count_with_pushable_filter_still_full_scan() {
    let o = opts_with(|o| {
        o.filter = Some("name~PK".to_string());
        o.count = true;
    });
    let plan = QueryPlan::from(Some(&o), Some(1000), Some("name")).unwrap();
    assert_eq!(plan.fetch.filter.as_deref(), Some("PK"));
    assert_eq!(plan.fetch.limit, None);
    assert!(plan.post.as_ref().unwrap().count_only);
}

#[test]
fn superset_ops_push_but_never_cap() {
    let o = opts_with(|o| {
        o.filter = Some("name^PK_".to_string());
        o.limit = Some(10);
    });
    let plan = QueryPlan::from(Some(&o), Some(1000), Some("name")).unwrap();
    assert_eq!(plan.fetch.filter.as_deref(), Some("PK_"));
    assert_eq!(plan.fetch.limit, None);

    let o = opts_with(|o| {
        o.filter = Some("name^PK_".to_string());
        o.count = true;
    });
    let plan = QueryPlan::from(Some(&o), Some(1000), Some("name")).unwrap();
    assert_eq!(plan.fetch.filter.as_deref(), Some("PK_"));
    assert_eq!(plan.fetch.limit, None);
}

#[test]
fn unpushable_filters_fetch_full_unfiltered() {
    for f in [
        "name=~\"^PK_\"",
        "name!=PK",
        "size>100",
        "name~PK AND size>10",
        "NOT name~PK",
        "comment~x",
    ] {
        let o = opts_with(|o| o.filter = Some(f.to_string()));
        let plan = QueryPlan::from(Some(&o), Some(1000), Some("name")).unwrap();
        assert_eq!(plan.fetch.filter, None, "should not push {f}");
        assert_eq!(plan.fetch.limit, None);
    }
}

#[test]
fn pushdown_only_targets_the_bridge_field() {
    let o = opts_with(|o| o.filter = Some("tags~crypto".to_string()));
    let plan = QueryPlan::from(Some(&o), Some(1000), Some("name")).unwrap();
    assert_eq!(plan.fetch.filter, None);
    assert_eq!(plan.fetch.limit, None);

    let o = opts_with(|o| o.filter = Some("value~boot".to_string()));
    let plan = QueryPlan::from(Some(&o), Some(1000), Some("value")).unwrap();
    assert_eq!(plan.fetch.filter.as_deref(), Some("boot"));
}

#[test]
fn fields_alone_keeps_bridge_cap() {
    let o = opts_with(|o| o.fields = Some("name,address".to_string()));
    let plan = QueryPlan::from(Some(&o), Some(1000), None).unwrap();
    assert_eq!(plan.fetch.limit, Some(1000));
    assert!(plan.post.is_some());
}

#[test]
fn plain_limit_alone_keeps_bridge_cap_and_paginates_client_side() {
    let o = opts_with(|o| o.limit = Some(7));
    let plan = QueryPlan::from(Some(&o), Some(1000), None).unwrap();
    assert_eq!(plan.fetch.limit, Some(7));
    assert_eq!(plan.post.as_ref().unwrap().limit, Some(7));
}

#[test]
fn malformed_filter_is_an_error() {
    let o = opts_with(|o| o.filter = Some("bareword".to_string()));
    assert!(QueryPlan::from(Some(&o), Some(1000), None).is_err());
}

// --- the client-side pipeline ---

fn rows(n: usize) -> Vec<JsonValue> {
    (0..n)
        .map(|i| {
            JsonValue::Object(vec![
                ("id".to_string(), JsonValue::Number(JsonNumber::Int(i as i128))),
                ("name".to_string(), JsonValue::String(format!("f{i}"))),
            ])
        })
        .collect()
}

fn post(limit: Option<usize>, offset: Option<usize>, count: bool) -> PostProc {
    PostProc {
        filter: None,
        fields: None,
        sort: None,
        limit,
        offset,
        count_only: count,
    }
}

#[test]
fn post_limit_zero_returns_all_rows() {
    assert_eq!(
        post(Some(0), None, false)
            .process(rows(5), OutputFormat::JsonCompact)
            .unwrap(),
        "[{\"id\":0,\"name\":\"f0\"},{\"id\":1,\"name\":\"f1\"},{\"id\":2,\"name\":\"f2\"},{\"id\":3,\"name\":\"f3\"},{\"id\":4,\"name\":\"f4\"}]"
    );
}

#[test]
fn post_limit_none_returns_all_rows() {
    let out = post(None, None, false)
        .process(rows(5), OutputFormat::JsonCompact)
        .unwrap();
    assert_eq!(out.matches("id").count(), 5);
}

#[test]
fn post_limit_applies_after_offset() {
    let out = post(Some(2), Some(1), false)
        .process(rows(5), OutputFormat::JsonCompact)
        .unwrap();
    assert!(out.contains("\"id\":1"));
    assert!(out.contains("\"id\":2"));
    assert_eq!(out.matches("id").count(), 2);
}

#[test]
fn post_limit_zero_with_offset_returns_remainder() {
    let out = post(Some(0), Some(2), false)
        .process(rows(5), OutputFormat::JsonCompact)
        .unwrap();
    assert_eq!(out.matches("id").count(), 3);
}

#[test]
fn post_offset_beyond_len_is_empty_not_panic() {
    let out = post(None, Some(99), false)
        .process(rows(5), OutputFormat::JsonCompact)
        .unwrap();
    assert_eq!(out, "[]");
}

#[test]
fn post_count_only_counts_after_pagination() {
    assert_eq!(
        post(Some(3), Some(1), true)
            .process(rows(10), OutputFormat::JsonCompact)
            .unwrap(),
        "3"
    );
}

#[test]
fn post_filter_sort_fields_pipeline() {
    let mut p = post(Some(2), None, false);
    p.sort = Some(SortKey::parse("name"));
    p.fields = Some(FieldSelector::including(vec!["name".to_string()]));
    let out = p.process(rows(4), OutputFormat::JsonCompact).unwrap();
    assert!(out.starts_with("[{\"name\":\"f0\"}"));
    assert_eq!(out.matches("name").count(), 2);
    assert!(!out.contains("id"));
}

// --- further pipeline cases ---

#[test]
fn post_sort_descending_by_integer_field() {
    let mut p = post(None, None, false);
    p.sort = Some(SortKey::parse("-id"));
    let out = p.process(rows(3), OutputFormat::JsonCompact).unwrap();
    assert_eq!(
        out,
        "[{\"id\":2,\"name\":\"f2\"},{\"id\":1,\"name\":\"f1\"},{\"id\":0,\"name\":\"f0\"}]"
    );
}

#[test]
fn post_sort_is_stable_for_equal_keys() {
    let mk = |k: &str, n: i128| {
        JsonValue::Object(vec![
            ("k".to_string(), JsonValue::String(k.to_string())),
            ("n".to_string(), JsonValue::Number(JsonNumber::Int(n))),
        ])
    };
    let data = vec![mk("b", 1), mk("a", 2), mk("b", 3), mk("a", 4)];
    let mut p = post(None, None, false);
    p.sort = Some(SortKey::parse("k"));
    let out = p.process(data, OutputFormat::JsonCompact).unwrap();
    assert_eq!(
        out,
        "[{\"k\":\"a\",\"n\":2},{\"k\":\"a\",\"n\":4},{\"k\":\"b\",\"n\":1},{\"k\":\"b\",\"n\":3}]"
    );
}

#[test]
fn post_filter_keeps_matching_rows() {
    let o = opts_with(|o| o.filter = Some("id>=3".to_string()));
    let plan = QueryPlan::from(Some(&o), None, None).unwrap();
    let out = plan
        .post
        .unwrap()
        .process(rows(5), OutputFormat::JsonCompact)
        .unwrap();
    assert_eq!(out, "[{\"id\":3,\"name\":\"f3\"},{\"id\":4,\"name\":\"f4\"}]");
}

#[test]
fn post_filter_error_is_invalid_filter() {
    let o = opts_with(|o| o.filter = Some("name>abc".to_string()));
    let plan = QueryPlan::from(Some(&o), None, None).unwrap();
    let err = plan
        .post
        .unwrap()
        .process(rows(2), OutputFormat::JsonCompact)
        .unwrap_err();
    assert!(matches!(err, GhidraError::InvalidFilter(_)));
}

#[test]
fn post_exclude_fields_drops_them() {
    let mut p = post(None, None, false);
    p.fields = Some(FieldSelector::parse("-id").unwrap());
    let out = p.process(rows(2), OutputFormat::JsonCompact).unwrap();
    assert_eq!(out, "[{\"name\":\"f0\"},{\"name\":\"f1\"}]");
}

#[test]
fn post_include_orders_members_by_key() {
    let mut p = post(None, None, false);
    p.fields = Some(FieldSelector::including(vec![
        "name".to_string(),
        "id".to_string(),
        "missing".to_string(),
    ]));
    let out = p.process(rows(1), OutputFormat::JsonCompact).unwrap();
    assert_eq!(out, "[{\"id\":0,\"name\":\"f0\"}]");
}
