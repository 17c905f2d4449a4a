use seam::capability_set::CapabilitySet;
use seam::json::{
    count, equal, identifier, member, object, string, strings, truth, Double, Json, Member, Number,
};
use seam::text::{
    clip_rest_text, clip_text, code_point, comes_before, decimal_text, same_text, text_bytes,
};
use serde_json::Value;
use uuid::Uuid;

fn tree(value: &Value) -> Json {
    match value {
        Value::Null => Json::Null,
        Value::Bool(b) => Json::Bool(*b),
        Value::Number(n) => Json::Number(if let Some(u) = n.as_u64() {
            Number::PosInt(u)
        } else if let Some(i) = n.as_i64() {
            Number::NegInt(i)
        } else {
            Number::Float(Double {
                bits: n.as_f64().expect("a double").to_bits(),
                text: n.to_string(),
            })
        }),
        Value::String(s) => Json::String(s.clone()),
        Value::Array(items) => Json::Array(items.iter().map(tree).collect()),
        Value::Object(members) => object(
            members
                .iter()
                .map(|(name, value)| Member { name: name.clone(), value: tree(value) })
                .collect(),
        ),
    }
}

const SAMPLES: [&str; 10] =
    ["", "a", "ab", "b", "A", "é", "日本", "a\u{10348}", "a\u{ffff}", "~"];

#[test]
fn text_is_compared_and_ordered_as_str_is() {
    for a in SAMPLES {
        for b in SAMPLES {
            assert_eq!(same_text(a, b), a == b, "{a} {b}");
            assert_eq!(comes_before(a, b), a < b, "{a} {b}");
        }
    }
    assert_eq!(code_point('é'), 0xe9);
}

#[test]
fn numbers_are_written_in_decimal() {
    for n in [0u128, 7, 10, 99, 100, 18446744073709551615, u128::MAX] {
        assert_eq!(decimal_text(n), n.to_string());
    }
}

#[test]
fn clipping_keeps_whole_characters() {
    let text = "aé日\u{10348}z";
    assert_eq!(text_bytes(text), 11);
    let expected = ["", "a", "a", "aé", "aé", "aé", "aé日", "aé日", "aé日", "aé日",
        "aé日\u{10348}", text, text];
    for (max, part) in expected.iter().enumerate() {
        assert_eq!(clip_text(text, max as u64), *part, "{max}");
        let joined = format!("{}{}", clip_text(text, max as u64), clip_rest_text(text, max as u64));
        assert_eq!(joined, text);
    }
    assert_eq!(clip_text(text, u64::MAX), text);
    assert_eq!(clip_rest_text(text, u64::MAX), "");
}

#[test]
fn json_text_is_what_serde_json_writes() {
    let texts = [
        "null",
        "true",
        "[false, 0, -1, 12345678901234567890, -9223372036854775808]",
        "[0.1, 2.5e10, 1e300, -0.0, 5e-324]",
        r#""plain""#,
        r#""quote \" back \\ slash \/ \b\f\n\r\t \u0000 \u001f \u007f é 日本 𐍈""#,
        r#"{"b": 1, "a": {"d": [], "c": {}}, "\"": null}"#,
        "[]",
        "{}",
        "[[[]], [{}], 1]",
    ];
    for text in texts {
        let value: Value = serde_json::from_str(text).expect("JSON");
        assert_eq!(tree(&value).to_text(), value.to_string());
        assert_eq!(tree(&value).clone().to_text(), value.to_string());
    }
}

#[test]
fn every_control_character_is_escaped_as_serde_json_does() {
    for code in 0u32..0x120 {
        let text = char::from_u32(code).expect("a character").to_string();
        assert_eq!(string(&text).to_text(), Value::from(text.as_str()).to_string(), "{code}");
    }
}

#[test]
fn values_are_equal_exactly_if_serde_json_says_so() {
    let texts = [
        "null",
        "false",
        "0",
        "0.0",
        "-0.0",
        "-1",
        r#""""#,
        "[]",
        "[1, 2]",
        "[2, 1]",
        "{}",
        r#"{"a": 1, "b": [true]}"#,
        r#"{"b": [true], "a": 1}"#,
        r#"{"a": 1, "b": [false]}"#,
        r#"{"a": 1, "c": [true]}"#,
        r#"{"a": 1}"#,
        r#"{"b": {"y": null, "x": 0}}"#,
        r#"{"b": {"x": 0, "y": null}}"#,
    ];
    let values: Vec<Value> =
        texts.iter().map(|text| serde_json::from_str(text).expect("JSON")).collect();
    for a in &values {
        for b in &values {
            assert_eq!(equal(&tree(a), &tree(b)), a == b, "{a} {b}");
        }
    }
}

#[test]
fn built_values_read_back() {
    let value = object(vec![
        member("count", count(7)),
        member("flag", truth(true)),
        member("list", strings(&vec!["x".to_string(), "y".to_string()])),
        member("name", string("seam")),
    ]);
    assert_eq!(value.u64_at("count"), Some(7));
    assert_eq!(value.get("flag").and_then(|v| v.as_bool()), Some(true));
    assert_eq!(value.str_at("name"), Some("seam"));
    assert_eq!(value.get("list").and_then(|v| v.as_array()).map(|v| v.len()), Some(2));
    assert!(value.get("absent").is_none());
    assert!(string("x").get("count").is_none());
    assert_eq!(string("x").as_u64(), None);
    assert_eq!(Json::Number(Number::NegInt(-1)).as_u64(), None);
    assert_eq!(value.to_text(), r#"{"count":7,"flag":true,"list":["x","y"],"name":"seam"}"#);
}

#[test]
fn identifiers_are_written_as_uuids() {
    for id in [0u128, 1, u128::MAX, 0x0123_4567_89ab_cdef_0123_4567_89ab_cdef] {
        let expected = format!("\"{}\"", Uuid::from_u128(id));
        assert_eq!(identifier(id).to_text(), expected);
    }
    assert_eq!(
        identifier(0x0123_4567_89ab_cdef_0123_4567_89ab_cdef).as_str(),
        Some("01234567-89ab-cdef-0123-456789abcdef")
    );
}

#[test]
fn a_capability_set_is_sorted_and_without_repetition() {
    let names = ["web.search", "a", "web.fetch", "a", "web.search"];
    let mut set = CapabilitySet::from_names(names.iter().map(|n| n.to_string()).collect());
    assert_eq!(set.names().as_slice(), ["a", "web.fetch", "web.search"]);
    assert_eq!(set.len(), 3);
    assert!(set.contains("web.fetch"));
    assert!(!set.contains("web"));
    set.insert("b".to_string());
    set.insert("b".to_string());
    assert_eq!(set.names().as_slice(), ["a", "b", "web.fetch", "web.search"]);
    let other = CapabilitySet::from_names(vec!["z".to_string(), "b".to_string(), "a".to_string()]);
    assert_eq!(set.restricted_to(&other).names().as_slice(), ["a", "b"]);
    assert_eq!(set.clone().names(), set.names());
    assert!(CapabilitySet::default().is_empty());
    assert!(!set.is_empty());
}

#[test]
fn members_are_listed_as_a_sorted_map_lists_them() {
    let pairs = [("b", 1u64), ("a", 2), ("é", 3), ("b", 4), ("B", 5), ("", 6), ("aa", 7)];
    let made = object(pairs.iter().map(|(name, n)| member(name, count(*n))).collect());
    let sorted: std::collections::BTreeMap<&str, u64> = pairs.into_iter().collect();
    match &made {
        Json::Object(members) => {
            let found: Vec<(&str, Option<u64>)> =
                members.listing().iter().map(|m| (m.name.as_str(), m.value.as_u64())).collect();
            let expected: Vec<(&str, Option<u64>)> =
                sorted.iter().map(|(name, n)| (*name, Some(*n))).collect();
            assert_eq!(found, expected);
        }
        other => panic!("{other:?}"),
    }
    let forwards = object(vec![member("a", count(1)), member("b", count(2))]);
    let backwards = object(vec![member("b", count(2)), member("a", count(1))]);
    assert!(equal(&forwards, &backwards));
    assert_eq!(backwards.to_text(), r#"{"a":1,"b":2}"#);
    assert!(!equal(&forwards, &object(vec![member("a", count(1))])));
}
