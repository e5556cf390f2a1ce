use ghidra_cli::filter::evaluator::evaluate;
use ghidra_cli::filter::{CompareOp, Filter, FilterExpr, StringOp, Value};
use ghidra_cli::json::{JsonNumber, JsonValue};

fn to_json(v: &serde_json::Value) -> JsonValue {
    match v {
        serde_json::Value::Null => JsonValue::Null,
        serde_json::Value::Bool(b) => JsonValue::Bool(*b),
        serde_json::Value::Number(n) => match (n.as_i64(), n.as_u64()) {
            (Some(i), _) => JsonValue::Number(JsonNumber::Int(i as i128)),
            (None, Some(u)) => JsonValue::Number(JsonNumber::Int(u as i128)),
            _ => JsonValue::Number(JsonNumber::Float(n.to_string())),
        },
        serde_json::Value::String(s) => JsonValue::String(s.clone()),
        serde_json::Value::Array(a) => JsonValue::Array(a.iter().map(to_json).collect()),
        serde_json::Value::Object(m) => JsonValue::Object(
            m.iter().map(|(k, v)| (k.clone(), to_json(v))).collect(),
        ),
    }
}

fn j(text: &str) -> JsonValue {
    to_json(&serde_json::from_str::<serde_json::Value>(text).unwrap())
}

#[test]
fn test_evaluate_compare() {
    let data = j(r#"{"name": "test", "size": 100}"#);
    let expr = FilterExpr::Compare {
        field: "size".to_string(),
        op: CompareOp::Greater,
        value: Value::Integer(50),
    };
    assert!(evaluate(&expr, &data).unwrap());
}

#[test]
fn test_evaluate_string_op() {
    let data = j(r#"{"name": "test_function"}"#);
    let expr = FilterExpr::StringOp {
        field: "name".to_string(),
        op: StringOp::Contains,
        value: "func".to_string(),
    };
    assert!(evaluate(&expr, &data).unwrap());
}

#[test]
fn test_evaluate_regex_is_case_insensitive() {
    let data = j(r#"{ "name": "PK_APPITEM_ask" }"#);
    let expr = FilterExpr::StringOp {
        field: "name".to_string(),
        op: StringOp::Regex,
        value: "^PK_".to_string(),
    };
    assert!(evaluate(&expr, &data).unwrap());
}

#[test]
fn test_array_field_contains_any_element() {
    let data = j(r#"{ "tags": ["Crypto", "reviewed"] }"#);
    let expr = FilterExpr::StringOp {
        field: "tags".to_string(),
        op: StringOp::Contains,
        value: "crypto".to_string(),
    };
    assert!(evaluate(&expr, &data).unwrap());

    let expr = FilterExpr::StringOp {
        field: "tags".to_string(),
        op: StringOp::Contains,
        value: "network".to_string(),
    };
    assert!(!evaluate(&expr, &data).unwrap());
}

#[test]
fn test_array_field_equals_is_exact_any_element() {
    let data = j(r#"{ "tags": ["Crypto", "reviewed"] }"#);
    let eq = |v: &str| FilterExpr::Compare {
        field: "tags".to_string(),
        op: CompareOp::Equal,
        value: Value::String(v.to_string()),
    };
    assert!(evaluate(&eq("Crypto"), &data).unwrap());
    assert!(!evaluate(&eq("crypto"), &data).unwrap());
}

#[test]
fn test_array_field_not_equal_is_no_element_equals() {
    let data = j(r#"{ "tags": ["crypto", "reviewed"] }"#);
    let ne = |v: &str| FilterExpr::Compare {
        field: "tags".to_string(),
        op: CompareOp::NotEqual,
        value: Value::String(v.to_string()),
    };
    assert!(!evaluate(&ne("crypto"), &data).unwrap());
    assert!(evaluate(&ne("network"), &data).unwrap());
}

#[test]
fn test_array_field_ordering_comparison_is_false() {
    let data = j(r#"{ "tags": ["crypto"] }"#);
    let expr = FilterExpr::Compare {
        field: "tags".to_string(),
        op: CompareOp::Greater,
        value: Value::Integer(1),
    };
    assert!(!evaluate(&expr, &data).unwrap());
}

#[test]
fn test_array_field_in_any_element() {
    let data = j(r#"{ "tags": ["crypto", "reviewed"] }"#);
    let expr = FilterExpr::In {
        field: "tags".to_string(),
        values: vec![
            Value::String("network".to_string()),
            Value::String("CRYPTO".to_string()),
        ],
    };
    assert!(evaluate(&expr, &data).unwrap());

    let expr = FilterExpr::In {
        field: "tags".to_string(),
        values: vec![Value::String("network".to_string())],
    };
    assert!(!evaluate(&expr, &data).unwrap());
}

#[test]
fn test_empty_array_field() {
    let data = j(r#"{ "tags": [] }"#);
    let expr = FilterExpr::StringOp {
        field: "tags".to_string(),
        op: StringOp::Contains,
        value: "x".to_string(),
    };
    assert!(!evaluate(&expr, &data).unwrap());

    let expr = FilterExpr::Compare {
        field: "tags".to_string(),
        op: CompareOp::NotEqual,
        value: Value::String("x".to_string()),
    };
    assert!(evaluate(&expr, &data).unwrap());
}

#[test]
fn test_evaluate_nested_field() {
    let data = j(r#"{"function": {"name": "test", "xrefs": {"count": 10}}}"#);
    let expr = FilterExpr::Compare {
        field: "function.xrefs.count".to_string(),
        op: CompareOp::Greater,
        value: Value::Integer(5),
    };
    assert!(evaluate(&expr, &data).unwrap());
}

// --- parsing and evaluating whole filters ---

fn eval_text(filter: &str, row: &str) -> bool {
    let f = Filter::parse(filter).unwrap();
    assert!(f.paths_ok());
    f.evaluate(&j(row)).unwrap()
}

#[test]
fn logical_operators_and_brackets() {
    let row = r#"{"name": "PK_main", "size": 120, "tags": ["crypto"]}"#;
    assert!(eval_text("name~pk AND size>100", row));
    assert!(!eval_text("name~pk AND size>200", row));
    assert!(eval_text("size>200 OR name^PK_", row));
    assert!(eval_text("NOT (size>200 OR name$x)", row));
    assert!(eval_text("tags IN (net, crypto)", row));
    assert!(eval_text("missing IS NULL", row));
    assert!(!eval_text("tags IS EMPTY", row));
    assert!(eval_text("name EXISTS", row));
}

#[test]
fn array_index_paths() {
    let row = r#"{"ops": [{"r": "RAX"}, {"r": "RBP"}]}"#;
    assert!(eval_text("ops[1].r=RBP", row));
    assert!(!eval_text("ops[5].r=RBP", row));
}

#[test]
fn string_ordering_is_an_invalid_filter() {
    let f = Filter::parse("name>abc").unwrap();
    assert!(f.evaluate(&j(r#"{"name": "x"}"#)).is_err());
}

#[test]
fn bare_word_does_not_parse() {
    assert!(Filter::parse("PK").is_err());
    assert!(Filter::parse("name~PK)").is_err());
    assert!(Filter::parse("(name~PK").is_err());
}

#[test]
fn bad_regex_fails_validation() {
    let f = Filter::parse(r#"name=~"a(""#).unwrap();
    assert!(f.validate().is_err());
    let f = Filter::parse(r#"name=~"^a""#).unwrap();
    assert!(f.validate().is_ok());
}
