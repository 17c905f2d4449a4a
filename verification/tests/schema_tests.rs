use seam::json::{equal, find_member, object, Double, Json, Member, Number};
use seam::schema::{validate, validate_at};
use serde_json::Value;

fn tree(value: &Value) -> Json {
    match value {
        Value::Null => Json::Null,
        Value::Bool(b) => Json::Bool(*b),
        Value::Number(n) => Json::Number(if let Some(u) = n.as_u64() {
            Number::PosInt(u)
        } else if let Some(i) = n.as_i64() {
            Number::NegInt(i)
        } else {
            Number::Float(Double {
                bits: n.as_f64().expect("a double").to_bits(),
                text: n.to_string(),
            })
        }),
        Value::String(s) => Json::String(s.clone()),
        Value::Array(items) => Json::Array(items.iter().map(tree).collect()),
        Value::Object(members) => object(
            members
                .iter()
                .map(|(name, value)| Member { name: name.clone(), value: tree(value) })
                .collect(),
        ),
    }
}

fn json(text: &str) -> Json {
    tree(&serde_json::from_str(text).expect("JSON"))
}

fn search_schema() -> Json {
    json(
        r#"{
            "type": "object",
            "properties": {"query": {"type": "string"}, "limit": {"type": "integer"}},
            "required": ["query"],
            "additionalProperties": false
        }"#,
    )
}

#[test]
fn accepts_valid_arguments() {
    assert!(validate(&search_schema(), &json(r#"{"query": "seam", "limit": 5}"#)).is_ok());
}

#[test]
fn rejects_missing_required_property() {
    let error = validate(&search_schema(), &json(r#"{"limit": 5}"#)).unwrap_err();
    assert!(error.contains("missing required property `query`"), "{error}");
}

#[test]
fn rejects_wrong_property_type() {
    let error = validate(&search_schema(), &json(r#"{"query": 7}"#)).unwrap_err();
    assert!(error.contains("arguments.query"), "{error}");
}

#[test]
fn rejects_unknown_property_when_additional_properties_are_denied() {
    let error = validate(
        &search_schema(),
        &json(r#"{"query": "seam", "shell": "rm -rf /"}"#),
    )
    .unwrap_err();
    assert!(error.contains("unexpected property `shell`"), "{error}");
}

#[test]
fn rejects_non_object_arguments() {
    let error = validate(&search_schema(), &json(r#""seam""#)).unwrap_err();
    assert!(error.contains("expected object"), "{error}");
}

#[test]
fn rejects_fractional_integer() {
    let error =
        validate(&search_schema(), &json(r#"{"query": "s", "limit": 1.5}"#)).unwrap_err();
    assert!(error.contains("expected integer"), "{error}");
}

#[test]
fn validates_array_items() {
    let schema = json(r#"{"type": "array", "items": {"type": "string"}}"#);
    assert!(validate(&schema, &json(r#"["a", "b"]"#)).is_ok());
    assert!(validate(&schema, &json(r#"["a", 2]"#)).is_err());
}

#[test]
fn enforces_enum_membership() {
    let schema = json(r#"{"enum": ["read", "write"]}"#);
    assert!(validate(&schema, &json(r#""read""#)).is_ok());
    assert!(validate(&schema, &json(r#""delete""#)).is_err());
}

#[test]
fn every_fault_names_its_place_and_reason() {
    let fault = |schema: &str, value: &str| validate(&json(schema), &json(value)).unwrap_err();
    assert_eq!(
        fault(r#"{"type": "object"}"#, r#""seam""#),
        "arguments: expected object, found string"
    );
    assert_eq!(
        fault(r#"{"enum": [1, 2]}"#, "3"),
        "arguments: value is not one of the permitted options"
    );
    assert_eq!(
        fault(r#"{"required": [7, "a"]}"#, "{}"),
        "arguments: missing required property `a`"
    );
    assert_eq!(
        fault(r#"{"additionalProperties": false}"#, r#"{"x": 1}"#),
        "arguments: unexpected property `x`"
    );
    assert_eq!(
        fault(
            r#"{"properties": {"a": {"items": {"properties": {"b": {"type": "null"}}}}}}"#,
            r#"{"a": [{}, {"b": true}]}"#
        ),
        "arguments.a[1].b: expected null, found boolean"
    );
}

#[test]
fn a_missing_property_is_reported_before_a_superfluous_one() {
    let error = validate(
        &search_schema(),
        &json(r#"{"shell": 1, "limit": "x"}"#),
    )
    .unwrap_err();
    assert_eq!(error, "arguments: missing required property `query`");
}

#[test]
fn the_type_is_checked_before_the_options() {
    let schema = json(r#"{"type": "string", "enum": [1]}"#);
    assert_eq!(
        validate(&schema, &json("1")).unwrap_err(),
        "arguments: expected string, found number"
    );
}

#[test]
fn a_schema_that_is_no_object_constrains_nothing() {
    assert!(validate(&json("true"), &json(r#"{"anything": [1, 2.5, null]}"#)).is_ok());
    assert!(validate(&json(r#"{"type": "colour"}"#), &json("7")).is_ok());
    assert!(validate(&json(r#"{"additionalProperties": true}"#), &json(r#"{"x": 1}"#)).is_ok());
}

#[test]
fn integers_are_numbers_without_a_fraction() {
    let schema = json(r#"{"type": "integer"}"#);
    let accepted = [
        "0", "-0.0", "2.0", "-3", "1e3", "4503599627370497.0", "1e300", "9007199254740993",
        "18446744073709551615", "-9223372036854775808",
    ];
    for text in accepted {
        assert!(validate(&schema, &json(text)).is_ok(), "{text}");
    }
    let refused = ["0.5", "-2.25", "2251799813685248.5", "5e-324", "1e-10", "0.1"];
    for text in refused {
        assert!(validate(&schema, &json(text)).is_err(), "{text}");
    }
    for bits in [f64::INFINITY.to_bits(), f64::NEG_INFINITY.to_bits(), f64::NAN.to_bits()] {
        let value = Json::Number(Number::Float(Double { bits, text: "null".to_string() }));
        assert!(validate(&schema, &value).is_err());
    }
}

#[test]
fn the_fractional_part_is_decided_as_by_the_hardware() {
    let schema = json(r#"{"type": "integer"}"#);
    let mut bits: u64 = 0x9E37_79B9_7F4A_7C15;
    for round in 0..4000u64 {
        bits = bits.wrapping_mul(6364136223846793005).wrapping_add(1442695040888963407 + round);
        // Spread over the exponents at which a double may or may not be whole.
        let exponent = 1000 + (bits >> 55) % 100;
        let pattern = (bits & 0x800F_FFFF_FFFF_FFFF) | (exponent << 52);
        let pattern = if round % 2 == 0 { pattern & !0x3FFF_FFFF_FFFF } else { pattern };
        let value = Json::Number(Number::Float(Double {
            bits: pattern,
            text: f64::from_bits(pattern).to_string(),
        }));
        let whole = f64::from_bits(pattern).fract() == 0.0;
        assert_eq!(validate(&schema, &value).is_ok(), whole, "{}", f64::from_bits(pattern));
    }
}

#[test]
fn equality_agrees_with_serde_json() {
    let texts = [
        "null", "true", "false", "0", "-0.0", "0.0", "1", "1.0", "-1", "1.5", r#""a""#, r#""b""#,
        "[]", "[1]", "[1, 2]", "[2, 1]", "{}", r#"{"a": 1}"#, r#"{"b": 1}"#, r#"{"a": 2}"#,
        r#"{"b": [1], "a": {"c": null}}"#, r#"{"a": {"c": null}, "b": [1]}"#,
    ];
    for left in texts {
        for right in texts {
            let a: Value = serde_json::from_str(left).expect("JSON");
            let b: Value = serde_json::from_str(right).expect("JSON");
            assert_eq!(equal(&tree(&a), &tree(&b)), a == b, "{left} {right}");
        }
    }
}

#[test]
fn every_permitted_option_is_accepted() {
    let options = r#"[null, true, 0, -4, 2.5, "x", [1, {"a": []}], {"k": "v"}]"#;
    let schema = json(&format!(r#"{{"enum": {options}}}"#));
    let values: Vec<Value> = serde_json::from_str(options).expect("JSON");
    for value in values {
        assert!(validate(&schema, &tree(&value)).is_ok(), "{value}");
    }
    // An integer and a double are different options.
    assert!(validate(&schema, &json("0.0")).is_err());
}

#[test]
fn a_value_is_checked_at_its_own_path() {
    let error = validate_at("root", &json(r#"{"type": "array"}"#), &json("1")).unwrap_err();
    assert_eq!(error, "root: expected array, found number");
}

#[test]
fn the_last_value_of_a_name_counts() {
    let made = object(vec![
        Member { name: "a".to_string(), value: json("1") },
        Member { name: "a".to_string(), value: json("2") },
    ]);
    match &made {
        Json::Object(members) => {
            assert_eq!(find_member(members, "a").and_then(|v| v.as_u64()), Some(2));
            assert!(find_member(members, "b").is_none());
        }
        other => panic!("{other:?}"),
    }
    assert!(equal(&made, &json(r#"{"a": 1, "a": 2}"#)));
}

#[test]
fn an_option_is_met_in_any_order_of_its_members() {
    let one = || Member { name: "one".to_string(), value: json("1") };
    let two = || Member { name: "two".to_string(), value: json("2") };
    let schema = json(r#"{"enum": [{"one": 1, "two": 2}]}"#);
    assert!(validate(&schema, &object(vec![one(), two()])).is_ok());
    assert!(validate(&schema, &object(vec![two(), one()])).is_ok());
    assert!(validate(&schema, &object(vec![two()])).is_err());
}
