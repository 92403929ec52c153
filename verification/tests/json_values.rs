use bilidl::json::{element_of, i64_of, member_of, string_of, JsonValue};

fn convert(v: &serde_json::Value) -> JsonValue {
    match v {
        serde_json::Value::Null => JsonValue::Null,
        serde_json::Value::Bool(b) => JsonValue::Bool(*b),
        serde_json::Value::Number(n) => match n.as_i64() {
            Some(i) => JsonValue::Int(i),
            None => JsonValue::OtherNumber,
        },
        serde_json::Value::String(s) => JsonValue::Str(s.clone()),
        serde_json::Value::Array(a) => JsonValue::Array(a.iter().map(convert).collect()),
        serde_json::Value::Object(m) => {
            JsonValue::Object(m.iter().map(|(k, v)| (k.clone(), convert(v))).collect())
        }
    }
}

fn parse(text: &str) -> JsonValue {
    convert(&serde_json::from_str(text).unwrap())
}

#[test]
fn get_finds_member_and_misses_others() {
    let v = parse(r#"{"a": 1, "b": "x", "c": [1, 2]}"#);
    assert_eq!(v.get("a").and_then(|x| x.as_i64()), Some(1));
    assert_eq!(v.get("b").and_then(|x| x.as_str()), Some("x"));
    assert!(v.get("z").is_none());
    assert!(JsonValue::Int(3).get("a").is_none());
}

#[test]
fn get_takes_first_of_repeated_names() {
    let v = JsonValue::Object(vec![
        ("k".to_string(), JsonValue::Int(1)),
        ("k".to_string(), JsonValue::Int(2)),
    ]);
    assert_eq!(v.get("k").and_then(|x| x.as_i64()), Some(1));
}

#[test]
fn index_chains_read_missing_as_null() {
    let v = parse(r#"{"data": {"list": [{"id": 7}, {"id": "eight"}]}}"#);
    let list = member_of(member_of(Some(&v), "data"), "list");
    assert_eq!(i64_of(member_of(element_of(list, 0), "id")), Some(7));
    assert_eq!(i64_of(member_of(element_of(list, 1), "id")), None);
    assert_eq!(string_of(member_of(element_of(list, 1), "id")), Some("eight".to_string()));
    assert!(element_of(list, 2).is_none());
    assert!(member_of(member_of(Some(&v), "nothing"), "deeper").is_none());
}

#[test]
fn numbers_outside_i64_are_not_integers() {
    let v = parse(r#"{"big": 18446744073709551615, "f": 1.5, "neg": -3}"#);
    assert_eq!(i64_of(member_of(Some(&v), "big")), None);
    assert_eq!(i64_of(member_of(Some(&v), "f")), None);
    assert_eq!(i64_of(member_of(Some(&v), "neg")), Some(-3));
}

#[test]
fn as_array_only_on_arrays() {
    let v = parse(r#"[1, "a", null]"#);
    assert_eq!(v.as_array().map(|a| a.len()), Some(3));
    assert!(v.get_index(2).is_some());
    assert!(v.get_index(3).is_none());
    assert!(JsonValue::Str("s".to_string()).as_array().is_none());
}
