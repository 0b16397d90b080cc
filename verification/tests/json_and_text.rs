use aiway_plugins::json_text::{debug_json, display_json};
use aiway_plugins::json::{field_str, Json, JsonNumber};
use aiway_plugins::text::{
    join2, join3, ends_with, starts_with, strip_prefix, text_after, text_before, trim_ascii,
    u64_to_decimal,
};

fn s(v: &str) -> Json {
    Json::Str(v.to_string())
}

fn object(members: Vec<(&str, Json)>) -> Json {
    Json::Object(members.into_iter().map(|(k, v)| (k.to_string(), v)).collect())
}

#[test]
fn json_get_finds_member() {
    let v = object(vec![("a", s("x")), ("b", Json::Bool(true))]);
    assert_eq!(v.get("a"), Some(&s("x")));
    assert_eq!(v.get("b"), Some(&Json::Bool(true)));
    assert_eq!(v.get("c"), None);
    assert_eq!(s("x").get("a"), None);
}

#[test]
fn json_get_takes_first_of_duplicate_keys() {
    let v = object(vec![("a", s("first")), ("a", s("second"))]);
    assert_eq!(v.get("a"), Some(&s("first")));
}

#[test]
fn json_at_and_scalars() {
    let v = Json::Array(vec![s("x"), Json::Number(JsonNumber::PosInt(7))]);
    assert_eq!(v.at(0), Some(&s("x")));
    assert_eq!(v.at(2), None);
    assert_eq!(v.at(1).unwrap().as_u64(), Some(7));
    assert_eq!(Json::Number(JsonNumber::NegInt(-3)).as_u64(), None);
    assert_eq!(Json::Number(JsonNumber::Float("1.5".to_string())).as_u64(), None);
    assert_eq!(s("x").as_str().map(|t| t.as_str()), Some("x"));
    assert_eq!(Json::Null.as_str(), None);
}

#[test]
fn json_field_str_reads_strings_only() {
    let v = object(vec![("model", s("qwen3")), ("n", Json::Number(JsonNumber::PosInt(1)))]);
    assert_eq!(field_str(&v, "model").map(|t| t.as_str()), Some("qwen3"));
    assert_eq!(field_str(&v, "n"), None);
    assert_eq!(field_str(&v, "missing"), None);
}

#[test]
fn text_prefix_and_suffix() {
    assert!(starts_with("voxcpm-1.5", "voxcpm"));
    assert!(!starts_with("vox", "voxcpm"));
    assert!(starts_with("abc", ""));
    assert!(ends_with("https://x/voice/clone", "/voice/clone"));
    assert!(!ends_with("https://x/voice/clone/", "/voice/clone"));
    assert_eq!(strip_prefix("data:audio/wav;base64,QUJD", "data:audio/wav;base64,"), Some("QUJD"));
    assert_eq!(strip_prefix("QUJD", "data:"), None);
}

#[test]
fn text_decimal() {
    assert_eq!(u64_to_decimal(0), "0");
    assert_eq!(u64_to_decimal(429), "429");
    assert_eq!(u64_to_decimal(u64::MAX), u64::MAX.to_string());
}

#[test]
fn text_split_and_trim() {
    assert_eq!(text_before(" 10.0.0.1 , 10.0.0.2", ','), " 10.0.0.1 ");
    assert_eq!(text_before("no-comma", ','), "no-comma");
    assert_eq!(text_after("a=b=c", '='), "b=c");
    assert_eq!(text_after("flag", '='), "");
    assert_eq!(trim_ascii(" \t10.0.0.1 \t"), "10.0.0.1");
    assert_eq!(trim_ascii("   "), "");
    assert_eq!(join2("a", "b"), "ab");
    assert_eq!(join3("[", "x", "]"), "[x]");
}

#[test]
fn json_texts_as_serde_json_writes_them() {
    let doc = Json::Object(vec![
        ("b".to_string(), Json::Array(vec![Json::Bool(false), Json::Str("q\"".to_string())])),
        ("a".to_string(), Json::Number(JsonNumber::Float("1.5".to_string()))),
    ]);
    assert_eq!(display_json(&doc), "{\"a\":1.5,\"b\":[false,\"q\\\"\"]}");
    assert_eq!(display_json(&Json::Null), "null");
    assert_eq!(debug_json(&Json::Str("x".to_string())), "String(\"x\")");
    assert_eq!(debug_json(&Json::Number(JsonNumber::PosInt(3))), "Number(3)");
}
