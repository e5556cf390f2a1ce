use ghidra_cli::filter::numbers::parse_decimal;
use ghidra_cli::filter::Filter;
use ghidra_cli::format::tabular::union_keys;
use ghidra_cli::format::OutputFormat;
use ghidra_cli::json::{to_compact_string, JsonNumber, JsonValue};
use ghidra_cli::query::planner::PostProc;
use ghidra_cli::query::sorting::sort_rows;
use ghidra_cli::query::{FieldSelector, SortKey};

fn row(name: &str, size: i128) -> JsonValue {
    JsonValue::Object(vec![
        ("name".to_string(), JsonValue::String(name.to_string())),
        ("size".to_string(), JsonValue::Number(JsonNumber::Int(size))),
    ])
}

fn names(rows: &[JsonValue]) -> Vec<String> {
    rows.iter()
        .map(|r| match r {
            JsonValue::Object(e) => match &e[0].1 {
                JsonValue::String(s) => s.clone(),
                _ => String::new(),
            },
            _ => String::new(),
        })
        .collect()
}

#[test]
fn sorting_by_an_integer_key_orders_and_keeps_rows() {
    let rows = || vec![row("c", 30), row("a", 10), row("b", 20), row("d", 10)];
    let asc = sort_rows(rows(), &SortKey::parse("size"));
    assert_eq!(names(&asc), vec!["a", "d", "b", "c"]);
    let desc = sort_rows(rows(), &SortKey::parse("-size"));
    assert_eq!(names(&desc), vec!["c", "b", "a", "d"]);
}

#[test]
fn sorting_ties_keep_their_order() {
    let rows = || vec![row("x", 1), row("y", 1), row("z", 1)];
    assert_eq!(names(&sort_rows(rows(), &SortKey::parse("size"))), vec!["x", "y", "z"]);
    assert_eq!(names(&sort_rows(rows(), &SortKey::parse("missing"))), vec!["x", "y", "z"]);
}

fn page(limit: Option<usize>, offset: Option<usize>) -> PostProc {
    PostProc { filter: None, fields: None, sort: None, limit, offset, count_only: true }
}

#[test]
fn paging_takes_one_window() {
    let rows = || -> Vec<JsonValue> { (0..10).map(|i| row("r", i)).collect() };
    assert_eq!(page(Some(3), Some(4)).process(rows(), OutputFormat::Json).unwrap(), "3");
    assert_eq!(page(Some(3), Some(8)).process(rows(), OutputFormat::Json).unwrap(), "2");
    assert_eq!(page(Some(0), Some(8)).process(rows(), OutputFormat::Json).unwrap(), "2");
    assert_eq!(page(None, Some(12)).process(rows(), OutputFormat::Json).unwrap(), "0");
}

#[test]
fn filters_keep_exactly_the_matches() {
    let rows = vec![row("alpha", 5), row("beta", 50), row("gamma", 500)];
    let post = PostProc {
        filter: Some(Filter::parse("size > 10").unwrap()),
        fields: None,
        sort: None,
        limit: None,
        offset: None,
        count_only: false,
    };
    let out = post.process(rows, OutputFormat::JsonCompact).unwrap();
    assert_eq!(out, r#"[{"name":"beta","size":50},{"name":"gamma","size":500}]"#);
}

#[test]
fn array_not_equal_means_no_element_equal() {
    let data = JsonValue::Object(vec![(
        "tags".to_string(),
        JsonValue::Array(vec![JsonValue::String("a".to_string()), JsonValue::String("b".to_string())]),
    )]);
    let ne = Filter::parse("tags != 'a'").unwrap();
    let not_eq = Filter::parse("NOT tags = 'a'").unwrap();
    assert_eq!(ne.evaluate(&data).unwrap(), false);
    assert_eq!(not_eq.evaluate(&data).unwrap(), false);
    let ne_c = Filter::parse("tags != 'c'").unwrap();
    assert_eq!(ne_c.evaluate(&data).unwrap(), true);
    let missing = Filter::parse("nothing = 3").unwrap();
    assert_eq!(missing.evaluate(&data).unwrap(), false);
    for f in ["tags > 'a'", "tags >= 'a'", "tags < 'z'", "tags <= 'z'"] {
        assert_eq!(Filter::parse(f).unwrap().evaluate(&data).unwrap(), false, "{}", f);
    }
}

#[test]
fn table_columns_are_every_key_once() {
    let rows = vec![
        JsonValue::Object(vec![
            ("b".to_string(), JsonValue::Null),
            ("a".to_string(), JsonValue::Null),
        ]),
        JsonValue::String("skip".to_string()),
        JsonValue::Object(vec![
            ("a".to_string(), JsonValue::Null),
            ("c".to_string(), JsonValue::Null),
        ]),
    ];
    assert_eq!(union_keys(&rows), vec!["b".to_string(), "a".to_string(), "c".to_string()]);
    let _ = to_compact_string(&rows[0]);
}

#[test]
fn field_selection_keeps_only_the_selection() {
    let select = |spec: &str| PostProc {
        filter: None,
        fields: Some(FieldSelector::parse(spec).unwrap()),
        sort: None,
        limit: None,
        offset: None,
        count_only: false,
    };
    let rows = || vec![row("main", 12)];
    assert_eq!(select("name").process(rows(), OutputFormat::JsonCompact).unwrap(), r#"[{"name":"main"}]"#);
    assert_eq!(select("-name").process(rows(), OutputFormat::JsonCompact).unwrap(), r#"[{"size":12}]"#);
}

fn float_row(field: &str, text: &str) -> JsonValue {
    JsonValue::Object(vec![(field.to_string(), JsonValue::Number(JsonNumber::Float(text.to_string())))])
}

#[test]
fn decimals_compare_exactly() {
    let sim = float_row("similarity", "0.984");
    let holds = |f: &str, row: &JsonValue| Filter::parse(f).unwrap().evaluate(row).unwrap();
    assert!(holds("similarity < 0.99", &sim));
    assert!(!holds("similarity > 0.99", &sim));
    assert!(holds("similarity = 0.984", &sim));
    assert!(holds("similarity >= 0.9840", &sim));
    assert!(holds("similarity < 1", &sim));
    assert!(holds("tiny < 0.5", &float_row("tiny", "1e-7")));
    assert!(holds("big > 100", &float_row("big", "1.5e3")));
    assert!(holds("neg < -0.25", &float_row("neg", "-0.5")));
    assert!(holds("size > 4.5", &row("f", 5)));
    assert!(holds("size = 5.0", &row("f", 5)));
    assert!(!holds("size = 5.01", &row("f", 5)));
    assert!(holds("similarity IN (0.5, 0.984)", &sim));
}

#[test]
fn decimal_texts_are_read_as_mantissa_and_power() {
    let read = |t: &str| parse_decimal(t).map(|d| (d.negative, d.digits.iter().collect::<String>(), d.exponent));
    assert_eq!(read("0.984"), Some((false, "984".to_string(), -3)));
    assert_eq!(read("-12.5e2"), Some((true, "125".to_string(), 1)));
    assert_eq!(read("1e-7"), Some((false, "1".to_string(), -7)));
    assert_eq!(read("42"), Some((false, "42".to_string(), 0)));
    assert_eq!(read("-0.0"), Some((false, "".to_string(), -1)));
    assert_eq!(read("007"), Some((false, "7".to_string(), 0)));
    assert_eq!(read("1e999"), Some((false, "1".to_string(), 999)));
    assert_eq!(read("1."), None);
    assert_eq!(read(".5"), None);
    assert_eq!(read("abc"), None);
}

#[test]
fn large_numbers_compare_by_value() {
    let holds = |f: &str, row: &JsonValue| Filter::parse(f).unwrap().evaluate(row).unwrap();
    assert!(holds("big > 5", &float_row("big", "1000000000000000000")));
    assert!(holds("huge < 200000000000000000000000000000.0", &float_row("huge", "123456789012345678901234567890.5")));
    assert!(holds("huge > 100000000000000000000000000000.0", &float_row("huge", "123456789012345678901234567890.5")));
    assert!(holds("neg < -1", &JsonValue::Object(vec![(
        "neg".to_string(),
        JsonValue::Number(JsonNumber::Int(-170141183460469231731687303715884105728)),
    )])));
    assert!(holds("zero = 0", &float_row("zero", "-0.0")));
}

#[test]
fn sorting_orders_decimals_by_value() {
    let rows = || vec![float_row("s", "0.9"), float_row("s", "0.25"), float_row("s", "1.0"), float_row("s", "5e-2")];
    let sorted = sort_rows(rows(), &SortKey::parse("s"));
    let texts: Vec<String> = sorted.iter().map(to_compact_string).collect();
    assert_eq!(texts, vec![r#"{"s":5e-2}"#, r#"{"s":0.25}"#, r#"{"s":0.9}"#, r#"{"s":1.0}"#]);
}

fn name_of(r: &JsonValue) -> String {
    match r {
        JsonValue::Object(e) => match &e[0].1 {
            JsonValue::String(s) => s.clone(),
            _ => String::new(),
        },
        _ => String::new(),
    }
}

fn bridge(rows: Vec<JsonValue>, fetch: &ghidra_cli::query::planner::FetchParams) -> Vec<JsonValue> {
    let matching: Vec<JsonValue> = rows
        .into_iter()
        .filter(|r| match &fetch.filter {
            Some(v) => name_of(r).to_lowercase().contains(&v.to_lowercase()),
            None => true,
        })
        .collect();
    let rest: Vec<JsonValue> = matching.into_iter().skip(fetch.offset.unwrap_or(0)).collect();
    match fetch.limit {
        Some(n) if n > 0 => rest.into_iter().take(n).collect(),
        _ => rest,
    }
}

#[test]
fn pushed_down_filters_show_what_the_client_alone_would() {
    let dataset = || -> Vec<JsonValue> {
        ["main", "Malloc", "free", "memMove", "xmain", "calloc", "MAPPER"]
            .iter()
            .enumerate()
            .map(|(i, n)| row(n, i as i128))
            .collect()
    };
    for filter in ["name~ma", "name^ma", "name$oc"] {
        for (offset, limit) in [(None, Some(2)), (Some(1), Some(2)), (Some(0), None), (Some(3), Some(0))] {
            let mut o = ghidra_cli::cli::QueryOptions::default();
            o.filter = Some(filter.to_string());
            o.offset = offset;
            o.limit = limit;
            let plan = ghidra_cli::query::planner::QueryPlan::from(Some(&o), Some(1000), Some("name")).unwrap();
            let answer = bridge(dataset(), &plan.fetch);
            let pushed = plan.post.unwrap().process(answer, OutputFormat::JsonCompact).unwrap();
            let client_only = PostProc {
                filter: Some(Filter::parse(filter).unwrap()),
                fields: None,
                sort: None,
                limit,
                offset,
                count_only: false,
            };
            let alone = client_only.process(dataset(), OutputFormat::JsonCompact).unwrap();
            assert_eq!(pushed, alone, "{} offset={:?} limit={:?}", filter, offset, limit);
        }
    }
}

#[test]
fn json_stream_writes_one_line_per_row() {
    let rows = || {
        vec![
            row("line\nbreak", 1),
            JsonValue::Array(vec![JsonValue::Null, JsonValue::Bool(true)]),
            JsonValue::String("tab\there".to_string()),
        ]
    };
    let text = ghidra_cli::format::DefaultFormatter.format(&rows(), OutputFormat::JsonStream).unwrap();
    assert_eq!(text.matches('\n').count(), 3);
    let lines: Vec<&str> = text.split_terminator('\n').collect();
    let expected: Vec<String> = rows().iter().map(to_compact_string).collect();
    assert_eq!(lines, expected);
    assert_eq!(lines[0], r#"{"name":"line\nbreak","size":1}"#);
}

#[test]
fn selected_fields_keep_keys_distinct() {
    let select = |spec: &str| PostProc {
        filter: None,
        fields: Some(FieldSelector::parse(spec).unwrap()),
        sort: None,
        limit: None,
        offset: None,
        count_only: false,
    };
    let rows = || vec![row("main", 12)];
    assert_eq!(
        select("size,name,size").process(rows(), OutputFormat::JsonCompact).unwrap(),
        r#"[{"name":"main","size":12}]"#
    );
    assert_eq!(select("-other").process(rows(), OutputFormat::JsonCompact).unwrap(), r#"[{"name":"main","size":12}]"#);
}
