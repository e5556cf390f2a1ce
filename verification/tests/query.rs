use ghidra_cli::json::{JsonNumber, JsonValue};
use ghidra_cli::query::{envelope_key, unwrap_bridge_response, FieldSelector, SortKey};

fn to_json(v: &serde_json::Value) -> JsonValue {
    match v {
        serde_json::Value::Null => JsonValue::Null,
        serde_json::Value::Bool(b) => JsonValue::Bool(*b),
        serde_json::Value::Number(n) => match (n.as_i64(), n.as_u64()) {
            (Some(i), _) => JsonValue::Number(JsonNumber::Int(i as i128)),
            (None, Some(u)) => JsonValue::Number(JsonNumber::Int(u as i128)),
            _ => JsonValue::Number(JsonNumber::Float(n.to_string())),
        },
        serde_json::Value::String(s) => JsonValue::String(s.clone()),
        serde_json::Value::Array(a) => JsonValue::Array(a.iter().map(to_json).collect()),
        serde_json::Value::Object(m) => JsonValue::Object(
            m.iter().map(|(k, v)| (k.clone(), to_json(v))).collect(),
        ),
    }
}

fn j(text: &str) -> JsonValue {
    to_json(&serde_json::from_str::<serde_json::Value>(text).unwrap())
}

fn str_member<'a>(v: &'a JsonValue, key: &str) -> Option<&'a str> {
    v.get(key).and_then(|x| x.as_str())
}

fn int_member(v: &JsonValue, key: &str) -> Option<i128> {
    match v.get(key) {
        Some(JsonValue::Number(JsonNumber::Int(i))) => Some(*i),
        _ => None,
    }
}

#[test]
fn test_field_selector_parse() {
    let selector = FieldSelector::parse("name,address,size").unwrap();
    assert!(selector.included.is_some());
    assert_eq!(selector.included.unwrap().len(), 3);

    let selector = FieldSelector::parse("-metadata,internal").unwrap();
    assert!(selector.excluded.is_some());
}

#[test]
fn test_sort_key_parse() {
    let keys = SortKey::parse("name,-size");
    assert_eq!(keys.len(), 2);
    assert_eq!(keys[0].field, "name");
    assert!(!keys[0].descending);
    assert_eq!(keys[1].field, "size");
    assert!(keys[1].descending);
}

#[test]
fn unwrap_array_passthrough() {
    let v = j(r#"[{"a": 1}, {"a": 2}]"#);
    let rows = unwrap_bridge_response(v, None);
    assert_eq!(rows.len(), 2);
}

#[test]
fn unwrap_envelope_extracts_inner_array() {
    let v = j(r#"{"count": 2, "functions": [{"name": "a"}, {"name": "b"}]}"#);
    let rows = unwrap_bridge_response(v, Some("list_functions"));
    assert_eq!(rows.len(), 2);
    assert_eq!(str_member(&rows[0], "name"), Some("a"));
}

#[test]
fn unwrap_scalar_envelope_becomes_single_row() {
    let v = j(r#"{"command": "analyze", "status": "success"}"#);
    let rows = unwrap_bridge_response(v, Some("analyze"));
    assert_eq!(rows.len(), 1);
    assert_eq!(str_member(&rows[0], "command"), Some("analyze"));
}

#[test]
fn unwrap_decompile_code_preserved() {
    let v = j(r#"{"function": "main", "code": "int main() {}"}"#);
    let rows = unwrap_bridge_response(v, Some("decompile"));
    assert_eq!(rows.len(), 1);
    assert!(rows[0].get("code").is_some());
}

const ENVELOPE_TABLE: [(&str, &str); 30] = [
    ("list_functions", "functions"),
    ("functions_range", "functions"),
    ("tag_get", "functions"),
    ("list_strings", "strings"),
    ("list_imports", "imports"),
    ("list_exports", "exports"),
    ("memory_map", "blocks"),
    ("xrefs_to", "xrefs"),
    ("xrefs_from", "xrefs"),
    ("xrefs_list", "xrefs"),
    ("list_programs", "programs"),
    ("find_string", "results"),
    ("find_bytes", "results"),
    ("find_function", "results"),
    ("find_calls", "results"),
    ("find_crypto", "results"),
    ("find_interesting", "results"),
    ("decompile_multi", "results"),
    ("find_constant", "hits"),
    ("find_instruction", "matches"),
    ("disasm", "instructions"),
    ("symbol_list", "symbols"),
    ("symbol_get", "symbols"),
    ("type_list", "types"),
    ("tag_list", "tags"),
    ("comment_list", "comments"),
    ("comment_get", "comments"),
    ("graph_callers", "callers"),
    ("graph_callees", "callees"),
    ("diff_programs", "matches"),
];

#[test]
fn every_envelope_entry_unwraps_its_key() {
    for &(cmd, key) in ENVELOPE_TABLE.iter() {
        assert_eq!(envelope_key(cmd), Some(key), "cmd={}", cmd);
        let mut obj = serde_json::Map::new();
        obj.insert("count".to_string(), serde_json::Value::from(2));
        obj.insert(
            key.to_string(),
            serde_json::from_str(r#"[{"n": 1}, {"n": 2}]"#).unwrap(),
        );
        let rows = unwrap_bridge_response(to_json(&serde_json::Value::Object(obj)), Some(cmd));
        assert_eq!(rows.len(), 2, "cmd={} key={}", cmd, key);
        assert_eq!(int_member(&rows[0], "n"), Some(1), "cmd={} key={}", cmd, key);
    }
}

#[test]
fn real_envelope_shapes() {
    let cases: &[(&str, &str)] = &[
        (
            "disasm",
            r#"{"instructions": [{"address": "00100000"}], "count": 1}"#,
        ),
        (
            "find_constant",
            r#"{"value": "0x1505", "size": 4, "hits": [{"address": "00100051"}], "count": 1}"#,
        ),
        (
            "tag_get",
            r#"{"target": "hook", "functions": [{"name": "main"}], "count": 1}"#,
        ),
    ];
    for (cmd, body) in cases {
        let rows = unwrap_bridge_response(j(body), Some(cmd));
        assert_eq!(rows.len(), 1, "cmd={}", cmd);
    }
}

#[test]
fn unknown_command_keeps_envelope_whole() {
    let v = j(r#"{"nodes": [{}], "edges": [{}], "count": 2}"#);
    let rows = unwrap_bridge_response(v, Some("graph_calls"));
    assert_eq!(rows.len(), 1);
    assert!(rows[0].get("nodes").is_some());
}

#[test]
fn drifted_shape_falls_back_to_single_item() {
    let v = j(r#"{"instructions": [{}], "count": 1, "unexpected": true}"#);
    let rows = unwrap_bridge_response(v, Some("disasm"));
    assert_eq!(rows.len(), 1);
    assert!(rows[0].get("unexpected").is_some());
}

#[test]
fn unwrap_find_constant_envelope() {
    let v = j(r#"{"count":2, "hits":[{"address":"00118b43","block":".text"},{"address":"00118b47","block":".text"}], "size":4, "value":"0x488"}"#);
    let rows = unwrap_bridge_response(v, Some("find_constant"));
    assert_eq!(rows.len(), 2, "expected 2 hit rows, got: {:?}", rows);
}

#[test]
fn unknown_command_has_no_envelope() {
    assert_eq!(envelope_key("graph_calls"), None);
    assert_eq!(envelope_key("decompile"), None);
}

#[test]
fn scalar_response_becomes_one_row() {
    let rows = unwrap_bridge_response(JsonValue::String("done".to_string()), Some("raw"));
    assert_eq!(rows.len(), 1);
    assert_eq!(rows[0].as_str(), Some("done"));
}

#[test]
fn sort_key_pieces_are_trimmed_and_empty_kept() {
    let keys = SortKey::parse(" name , --size,");
    assert_eq!(keys.len(), 3);
    assert_eq!(keys[0].field, "name");
    assert_eq!(keys[1].field, "size");
    assert!(keys[1].descending);
    assert_eq!(keys[2].field, "");
}

#[test]
fn field_selector_strips_every_leading_dash() {
    let s = FieldSelector::parse("--a, b").unwrap();
    assert!(s.included.is_none());
    assert_eq!(s.excluded.unwrap(), vec!["a".to_string(), "b".to_string()]);
}

#[test]
fn envelope_key_without_array_passes_through_whole() {
    let rows = unwrap_bridge_response(j(r#"{"count": 1, "functions": "oops"}"#), Some("list_functions"));
    assert_eq!(rows.len(), 1);
    assert_eq!(str_member(&rows[0], "functions"), Some("oops"));
    assert_eq!(int_member(&rows[0], "count"), Some(1));
}
