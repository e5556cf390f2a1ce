use ghidra_cli::format::values::{format_csv_value, format_json_value};
use ghidra_cli::format::{auto_detect_format, is_human_format, DefaultFormatter, OutputFormat};
use ghidra_cli::json::{JsonNumber, JsonValue};
use ghidra_cli::format::tree::render_call_node;

fn to_json(v: &serde_json::Value) -> JsonValue {
    match v {
        serde_json::Value::Null => JsonValue::Null,
        serde_json::Value::Bool(b) => JsonValue::Bool(*b),
        serde_json::Value::Number(n) => match (n.as_i64(), n.as_u64()) {
            (Some(i), _) => JsonValue::Number(JsonNumber::Int(i as i128)),
            (None, Some(u)) => JsonValue::Number(JsonNumber::Int(u as i128)),
            _ => JsonValue::Number(JsonNumber::Float(n.to_string())),
        },
        serde_json::Value::String(s) => JsonValue::String(s.clone()),
        serde_json::Value::Array(a) => JsonValue::Array(a.iter().map(to_json).collect()),
        serde_json::Value::Object(m) => JsonValue::Object(
            m.iter().map(|(k, v)| (k.clone(), to_json(v))).collect(),
        ),
    }
}

fn j(text: &str) -> JsonValue {
    to_json(&serde_json::from_str::<serde_json::Value>(text).unwrap())
}

fn fixture_rows() -> Vec<JsonValue> {
    vec![
        j(r#"{"name": "main", "address": "00401000", "size": 78, "tags": ["entry", "auth"]}"#),
        j(r#"{
            "name": "main",
            "entry": "00401000",
            "signature": "undefined main(void)",
            "code": "int main() {\n  return 0;\n}\n",
            "params": [{"name": "argc", "type": "int", "storage": ":RDI"}],
            "variables": [{"name": "lVar1", "type": "long", "storage": ":RAX"}]
        }"#),
        j(r#"{
            "address": "00401010",
            "bytes": "55",
            "mnemonic": "PUSH",
            "operands": ["RBP"],
            "loaded": {"value": "0x1505"}
        }"#),
        j(r#"{"address": "00118b43", "block": ".text", "ldr_refs": [], "zero_block": false}"#),
        j(r#"{"name": "main", "address": "00401000", "call_site": "00401005", "depth": 1}"#),
    ]
}

#[test]
fn tree_empty_is_no_results() {
    let f = DefaultFormatter;
    assert_eq!(f.format(&[], OutputFormat::Tree).unwrap(), "No results");
}

#[test]
fn tree_rejects_non_graph_data() {
    let f = DefaultFormatter;
    let rows = vec![fixture_rows().remove(0)];
    let err = f.format(&rows, OutputFormat::Tree).unwrap_err();
    assert!(err.message().contains("'tree'"), "unexpected error: {}", err.message());
}

#[test]
fn from_str_rejects_removed_hex() {
    assert!(OutputFormat::from_str("hex").is_err());
    assert!(OutputFormat::from_str("tree").is_ok());
}

#[test]
fn test_format_json() {
    let data = vec![j(r#"{"name": "test", "value": 123}"#)];
    let formatter = DefaultFormatter;
    let result = formatter.format(&data, OutputFormat::Json).unwrap();
    assert!(result.contains("test"));
}

#[test]
fn test_format_count() {
    let data = vec![j(r#"{"name": "test1"}"#), j(r#"{"name": "test2"}"#)];
    let formatter = DefaultFormatter;
    let result = formatter.format(&data, OutputFormat::Count).unwrap();
    assert_eq!(result, "2");
}

// --- exact renderings ---

#[test]
fn json_pretty_layout() {
    let data = vec![j(r#"{"a": [1, 2], "b": {}}"#)];
    let out = DefaultFormatter.format(&data, OutputFormat::Json).unwrap();
    assert_eq!(out, "[\n  {\n    \"a\": [\n      1,\n      2\n    ],\n    \"b\": {}\n  }\n]");
    assert_eq!(DefaultFormatter.format(&[], OutputFormat::Json).unwrap(), "[]");
}

#[test]
fn json_stream_one_document_per_line() {
    let data = vec![j(r#"{"a": 1}"#), j(r#""x\"y""#)];
    let out = DefaultFormatter.format(&data, OutputFormat::JsonStream).unwrap();
    assert_eq!(out, "{\"a\":1}\n\"x\\\"y\"\n");
}

#[test]
fn compact_renders_each_row_shape() {
    let out = DefaultFormatter
        .format(&fixture_rows(), OutputFormat::Compact)
        .unwrap();
    let expected = "00401000  main  (78)  tags=[entry, auth]\n\
undefined main(void)\n\
int main() {\n  return 0;\n}\n\
00401010     55               PUSH RBP\n\
00118b43  block=.text  ldr_refs=[]  zero_block=false\n\
00401000  main  call_site=00401005  depth=1\n";
    assert_eq!(out, expected);
}

#[test]
fn compact_cuts_long_values() {
    let long = "x".repeat(100);
    let row = JsonValue::Object(vec![("value".to_string(), JsonValue::String(long))]);
    let out = DefaultFormatter.format(&[row], OutputFormat::Compact).unwrap();
    assert_eq!(out, format!("\"{}...\"\n", "x".repeat(77)));
    assert_eq!(DefaultFormatter.format(&[], OutputFormat::Compact).unwrap(), "No results");
}

#[test]
fn full_aligns_keys_and_separates_items() {
    let data = vec![j(r#"{"a": 1, "long_key": "v"}"#), j(r#""plain""#)];
    let out = DefaultFormatter.format(&data, OutputFormat::Full).unwrap();
    assert_eq!(out, "a:         1\nlong_key:  v\n---\nplain\n");
}

#[test]
fn full_renders_code_blocks() {
    let rows = fixture_rows();
    let out = DefaultFormatter
        .format(&rows[1..2], OutputFormat::Full)
        .unwrap();
    assert_eq!(
        out,
        "Signature: undefined main(void)\nFunction:  main\n\nint main() {\n  return 0;\n}\n\nParameters:\n  int argc (:RDI)\n\nVariables:\n  long lVar1 (:RAX)\n"
    );
}

#[test]
fn csv_and_tsv_use_the_union_of_keys() {
    let data = vec![j(r#"{"a": 1, "tags": ["x", "y"]}"#), j(r#"{"b": "z"}"#), j("3")];
    let csv = DefaultFormatter.format(&data, OutputFormat::Csv).unwrap();
    assert_eq!(csv, "a,tags,b\n1,x;y,\n,,z\n");
    let tsv = DefaultFormatter.format(&data, OutputFormat::Tsv).unwrap();
    assert_eq!(tsv, "a\ttags\tb\n1\tx;y\t\n\t\tz\n");
    assert_eq!(DefaultFormatter.format(&[j("1")], OutputFormat::Csv).unwrap(), "");
}

#[test]
fn table_edge_cases() {
    assert_eq!(DefaultFormatter.format(&[], OutputFormat::Table).unwrap(), "No results");
    assert_eq!(
        DefaultFormatter.format(&[j("1"), j("2")], OutputFormat::Table).unwrap(),
        "2 results"
    );
    let t = DefaultFormatter
        .format(&[j(r#"{"name": "main"}"#)], OutputFormat::Table)
        .unwrap();
    assert!(t.contains("name") && t.contains("main"));
}

#[test]
fn minimal_prefers_address_then_name_then_id() {
    let data = vec![
        j(r#"{"name": "n", "address": "a"}"#),
        j(r#"{"name": "n", "x": 1}"#),
        j(r#"{"id": 7, "z": 1}"#),
        j(r#"{"q": [1, 2]}"#),
        j("{}"),
        j("true"),
    ];
    let out = DefaultFormatter.format(&data, OutputFormat::Minimal).unwrap();
    assert_eq!(out, "a\nn\n7\n[1, 2]\n\ntrue\n");
    let ids = DefaultFormatter.format(&data, OutputFormat::Ids).unwrap();
    assert_eq!(ids, out);
}

#[test]
fn c_format_headers_and_errors() {
    let data = vec![
        j(r#"{"error": "no such function"}"#),
        j(r#"{"name": "f", "entry": "1000", "code": "void f(void) {}"}"#),
        j(r#"{"other": 1}"#),
    ];
    let out = DefaultFormatter.format(&data, OutputFormat::C).unwrap();
    assert_eq!(
        out,
        "// error: no such function\n\n// f @ 1000\nvoid f(void) {}\n\n{\n  \"other\": 1\n}\n"
    );
}

#[test]
fn asm_format_pads_columns() {
    let rows = fixture_rows();
    let out = DefaultFormatter.format(&rows[2..3], OutputFormat::Asm).unwrap();
    assert_eq!(out, "00401010  55           PUSH     RBP  ; loads 0x1505\n");
}

#[test]
fn tree_from_depth_rows() {
    let rows = vec![
        j(r#"{"name": "main", "address": "00401000", "call_site": "00401005", "depth": 0}"#),
        j(r#"{"name": "helper", "address": "00401050", "call_site": "00401060", "depth": 1}"#),
    ];
    let out = DefaultFormatter.format(&rows, OutputFormat::Tree).unwrap();
    assert_eq!(out, "main @ 00401005 (00401000)\n  helper @ 00401060 (00401050)\n");
}

#[test]
fn tree_from_graph_envelope_marks_cycles() {
    let rows = vec![j(r#"{
        "nodes": [
            {"id": "00401000", "name": "main", "address": "00401000"},
            {"id": "00401050", "name": "helper", "address": "00401050"},
            {"id": "00401100", "name": "loop_fn", "address": "00401100"}
        ],
        "edges": [
            {"from": "00401000", "to": "00401050", "type": "call"},
            {"from": "00401050", "to": "00401100", "type": "call"},
            {"from": "00401100", "to": "00401050", "type": "call"}
        ],
        "node_count": 3,
        "edge_count": 3
    }"#)];
    let out = DefaultFormatter.format(&rows, OutputFormat::Tree).unwrap();
    assert_eq!(out, "main\n  helper\n    loop_fn\n      helper (…)\n");
}

#[test]
fn tree_pure_cycle_starts_from_every_node() {
    let rows = vec![j(r#"{
        "nodes": [{"id": "b", "name": "B"}, {"id": "a", "name": "A"}],
        "edges": [{"from": "a", "to": "b"}, {"from": "b", "to": "a"}]
    }"#)];
    let out = DefaultFormatter.format(&rows, OutputFormat::Tree).unwrap();
    assert_eq!(out, "A\n  B\n    A (…)\nB\n  A\n    B (…)\n");
}

#[test]
fn value_texts() {
    assert_eq!(format_json_value(&j(r#"[1, "a", [true, null]]"#)), "[1, a, [true, null]]");
    assert_eq!(format_json_value(&j(r#"{"k": "v"}"#)), "{\"k\":\"v\"}");
    assert_eq!(format_csv_value(&j(r#"[1, ["a", "b"]]"#)), "1;a;b");
}

#[test]
fn format_names_and_flags() {
    assert!(matches!(OutputFormat::from_str("NDJSON"), Ok(OutputFormat::JsonStream)));
    assert!(matches!(OutputFormat::from_str("Json-Compact"), Ok(OutputFormat::JsonCompact)));
    assert!(matches!(auto_detect_format(true), OutputFormat::Compact));
    assert!(matches!(auto_detect_format(false), OutputFormat::JsonCompact));
    assert!(is_human_format(OutputFormat::Table));
    assert!(!is_human_format(OutputFormat::Csv));
}

#[test]
fn call_node_past_the_depth_cap_renders_nothing() {
    let nodes = vec![JsonValue::Object(vec![
        ("id".to_string(), JsonValue::String("a".to_string())),
        ("name".to_string(), JsonValue::String("main".to_string())),
    ])];
    let mut on_path = Vec::new();
    let mut out = String::from("x");
    render_call_node("a", "main", &nodes, &[], &mut on_path, &mut out, 200);
    assert_eq!(out, "x");
    render_call_node("a", "main", &nodes, &[], &mut on_path, &mut out, 1);
    assert_eq!(out, "x  main\n");
    assert!(on_path.is_empty());
}

#[test]
fn unknown_format_name_is_quoted_with_the_accepted_names() {
    match OutputFormat::from_str("yaml") {
        Err(e) => {
            let m = e.message();
            assert!(m.contains("'yaml' (expected: full, compact"), "{}", m);
        }
        Ok(_) => panic!("yaml is no format"),
    }
}
