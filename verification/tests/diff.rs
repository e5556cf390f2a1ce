use ghidra_cli::cli::DiffProgramsArgs;
use ghidra_cli::diff::{address_text, check_diff_prep, check_distinct_exports, diff_result, hex8_text, DiffMatch};
use ghidra_cli::json::{to_compact_string, JsonNumber, JsonValue};

fn to_json(v: &serde_json::Value) -> JsonValue {
    match v {
        serde_json::Value::Null => JsonValue::Null,
        serde_json::Value::Bool(b) => JsonValue::Bool(*b),
        serde_json::Value::Number(n) => match (n.as_i64(), n.as_u64()) {
            (Some(i), _) => JsonValue::Number(JsonNumber::Int(i as i128)),
            (None, Some(u)) => JsonValue::Number(JsonNumber::Int(u as i128)),
            _ => JsonValue::Number(JsonNumber::Float(n.to_string())),
        },
        serde_json::Value::String(s) => JsonValue::String(s.clone()),
        serde_json::Value::Array(a) => JsonValue::Array(a.iter().map(to_json).collect()),
        serde_json::Value::Object(m) => JsonValue::Object(
            m.iter().map(|(k, v)| (k.clone(), to_json(v))).collect(),
        ),
    }
}

fn j(text: &str) -> JsonValue {
    to_json(&serde_json::from_str::<serde_json::Value>(text).unwrap())
}

fn args(unmatched: bool, limit: Option<usize>) -> DiffProgramsArgs {
    DiffProgramsArgs {
        program1: None,
        program2: Some("b".to_string()),
        changed: false,
        unmatched,
        min_sim: None,
        name: None,
        limit,
        format: None,
        program: None,
        project: None,
    }
}

fn pair(a1: u64, n1: &str, a2: Option<u64>, n2: Option<&str>, identical: bool) -> DiffMatch {
    DiffMatch {
        address1: a1,
        name1: n1.to_string(),
        address2: a2,
        name2: n2.map(str::to_string),
        similarity: JsonNumber::Float(if identical { "1.0".to_string() } else { "0.5".to_string() }),
        confidence: JsonNumber::Float("0.9".to_string()),
        raw_similarity: JsonNumber::Float(if identical { "1.0".to_string() } else { "0.5".to_string() }),
    }
}

#[test]
fn export_answers_are_checked() {
    assert_eq!(
        check_diff_prep(&j(r#"{"status":"ok","export1":"/t/a.BinExport","export2":"/t/b.BinExport"}"#)),
        Ok(("/t/a.BinExport".to_string(), "/t/b.BinExport".to_string()))
    );
    assert_eq!(
        check_diff_prep(&j(r#"{"status":"ok","export2":"/t/b"}"#)),
        Err("bridge response missing export1".to_string())
    );
    assert_eq!(
        check_diff_prep(&j(r#"{"status":"error","error":"jar missing","export1":null}"#)),
        Err("BinDiff export failed: jar missing".to_string())
    );
    let old = check_diff_prep(&j(r#"{"status":"error","message":"stub"}"#)).unwrap_err();
    assert!(old.starts_with("BinDiff export failed: stub If the message looks unrelated to BinExport"));
}

#[test]
fn addresses_render_like_the_program() {
    assert_eq!(hex8_text(0x1040), "00001040");
    assert_eq!(hex8_text(0x1_2345_6789), "123456789");
    let funcs = vec![j(r#"{"address":"00101040","name":"main"}"#)];
    assert_eq!(address_text(Some(&funcs), 0x101040), "00101040");
    assert_eq!(address_text(Some(&funcs), 0x2000), "00002000");
    assert_eq!(address_text(None, 0x101040), "00101040");
}

#[test]
fn diff_envelope_counts_and_caps() {
    let prep = j(r#"{"status":"ok","program1":{"name":"a"},"program2":{"name":"b"},
        "functions1":[{"address":"00001000","name":"f"},{"address":"00002000","name":"only_a"}],
        "functions2":[{"address":"00003000","name":"f"}]}"#);
    let ms = vec![pair(0x1000, "f", Some(0x3000), Some("f"), true)];
    let r = diff_result(prep, &ms, &args(true, Some(1)), None, None, None);
    let text = to_compact_string(&r);
    assert!(text.starts_with(r#"{"matches":[{"address1":"00002000","address2":null,"confidence":null,"name1":"only_a","name2":null,"similarity":null,"unmatched":"primary"}],"method":"bindiff""#), "{}", text);
    assert!(text.contains(r#""summary":{"changed":0,"identical":1,"matched":1,"#), "{}", text);
    assert!(text.contains(r#""unmatched_computed":true,"unmatched_primary":1,"unmatched_secondary":0}"#), "{}", text);
    assert!(text.ends_with(r#""truncated":true}"#), "{}", text);
}

#[test]
fn written_addresses_read_back() {
    for a in [0u64, 0x1040, 0xdead_beef, u64::MAX] {
        assert_eq!(ghidra_cli::run::parse_ghidra_addr(&hex8_text(a)), Some(a));
    }
}

#[test]
fn changed_and_min_sim_select_pairs() {
    let prep = || j(r#"{"status":"ok","program1":{"name":"a"},"program2":{"name":"b"}}"#);
    let ms = vec![
        pair(0x1000, "same", Some(0x2000), Some("same"), true),
        pair(0x1100, "moved", Some(0x2100), Some("moved"), false),
    ];
    let mut a = args(false, None);
    a.changed = true;
    let text = to_compact_string(&diff_result(prep(), &ms, &a, None, None, None));
    assert!(text.contains(r#""name1":"moved""#) && !text.contains(r#""name1":"same""#), "{}", text);
    assert!(text.contains(r#""changed":1,"identical":1,"matched":2"#), "{}", text);
    let mut a = args(false, None);
    a.min_sim = Some("0.75".to_string());
    let text = to_compact_string(&diff_result(prep(), &ms, &a, None, None, None));
    assert!(text.contains(r#""name1":"same""#) && !text.contains(r#""name1":"moved""#), "{}", text);
}

#[test]
fn exports_resolving_to_one_file_are_refused() {
    let err = check_distinct_exports("/tmp/x/program1.BinExport", "/tmp/x/program1.BinExport").unwrap_err();
    assert!(err.contains("same file /tmp/x/program1.BinExport"));
    assert!(check_distinct_exports("/tmp/x/program1.BinExport", "/tmp/x/program2.BinExport").is_ok());
}
