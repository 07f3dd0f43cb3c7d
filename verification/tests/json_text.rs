use direct_inference::json::{
    json_array, json_object, json_string, parse_json_text, str_items, with_int_numbers, JsonValue,
};
use direct_inference::text::i64_of_decimal;

fn obj(members: Vec<(&str, JsonValue)>) -> JsonValue {
    JsonValue::Object(members.into_iter().map(|(k, v)| (k.to_string(), v)).collect())
}

#[test]
fn json_text_of_scalars() {
    assert_eq!(JsonValue::Null.to_json_text(), "null");
    assert_eq!(JsonValue::Bool(true).to_json_text(), "true");
    assert_eq!(JsonValue::Bool(false).to_json_text(), "false");
    assert_eq!(JsonValue::Int(0).to_json_text(), "0");
    assert_eq!(JsonValue::Int(-42).to_json_text(), "-42");
    assert_eq!(JsonValue::Int(i64::MIN).to_json_text(), "-9223372036854775808");
    assert_eq!(JsonValue::Int(i64::MAX).to_json_text(), "9223372036854775807");
    assert_eq!(JsonValue::OtherNumber("1.5".to_string()).to_json_text(), "1.5");
}

#[test]
fn json_text_escapes_strings_as_serde_json_does() {
    let s = "quote \" back \\ nl \n tab \t cr \r bell \u{7} del \u{7f} é";
    let ours = json_string(s).to_json_text();
    assert_eq!(ours, serde_json::to_string(s).unwrap());
    assert_eq!(json_string("\u{1}").to_json_text(), "\"\\u0001\"");
    assert_eq!(json_string("\u{1f}").to_json_text(), "\"\\u001f\"");
}

#[test]
fn json_text_of_nested_values_is_compact() {
    let v = obj(vec![
        ("a", json_array(vec![JsonValue::Int(1), JsonValue::Bool(true), JsonValue::Null])),
        ("b", obj(vec![])),
        ("c", json_array(vec![])),
        ("d", json_string("x")),
    ]);
    assert_eq!(v.to_json_text(), r#"{"a":[1,true,null],"b":{},"c":[],"d":"x"}"#);
}

#[test]
fn json_text_matches_serde_json_for_sorted_objects() {
    let v = obj(vec![
        ("command", json_string("echo \"hi\"")),
        ("is_read_only", JsonValue::Bool(false)),
        ("n", JsonValue::Int(-3)),
    ]);
    let expected: serde_json::Value =
        serde_json::from_str(r#"{"n": -3, "is_read_only": false, "command": "echo \"hi\""}"#).unwrap();
    assert_eq!(v.to_json_text(), expected.to_string());
}

#[test]
fn field_lookup_takes_first_member() {
    let v = obj(vec![("k", json_string("first")), ("k", json_string("second"))]);
    assert_eq!(v.str_field("k").as_deref(), Some("first"));
    assert_eq!(v.str_field("missing"), None);
    assert_eq!(JsonValue::Null.str_field("k"), None);
}

#[test]
fn typed_field_lookups() {
    let v = obj(vec![
        ("b", JsonValue::Bool(true)),
        ("i", JsonValue::Int(7)),
        ("s", json_string("t")),
        ("a", json_array(vec![json_string("x"), JsonValue::Int(1), json_string("y")])),
    ]);
    assert_eq!(v.bool_field("b"), Some(true));
    assert_eq!(v.bool_field("i"), None);
    assert_eq!(v.i64_field("i"), Some(7));
    assert_eq!(v.i64_field("s"), None);
    assert_eq!(v.str_field("b"), None);
    assert_eq!(v.field("s"), Some(&json_string("t")));
    assert_eq!(json_string("t").as_str().as_deref(), Some("t"));
    assert_eq!(JsonValue::Int(1).as_str(), None);
    let items = v.array_field("a").unwrap();
    assert_eq!(str_items(items), vec!["x".to_string(), "y".to_string()]);
    assert!(v.array_field("s").is_none());
}

#[test]
fn builders_push_in_order() {
    let mut members = Vec::new();
    direct_inference::json::push_member(&mut members, "z", JsonValue::Int(1));
    direct_inference::json::push_member(&mut members, "a", JsonValue::Int(2));
    let mut items = Vec::new();
    direct_inference::json::push_item(&mut items, json_string("q"));
    direct_inference::json::push_member(&mut members, "l", json_array(items));
    assert_eq!(json_object(members).to_json_text(), r#"{"z":1,"a":2,"l":["q"]}"#);
}

#[test]
fn parse_reads_integers_as_int() {
    let v = parse_json_text(r#"{"b":[1,-2,2.5,1e3,18446744073709551615],"a":null,"c":"x\ny"}"#).unwrap();
    assert_eq!(
        v,
        obj(vec![
            ("a", JsonValue::Null),
            (
                "b",
                json_array(vec![
                    JsonValue::Int(1),
                    JsonValue::Int(-2),
                    JsonValue::OtherNumber("2.5".to_string()),
                    JsonValue::OtherNumber("1000.0".to_string()),
                    JsonValue::OtherNumber("18446744073709551615".to_string()),
                ]),
            ),
            ("c", json_string("x\ny")),
        ])
    );
    assert_eq!(parse_json_text("-9223372036854775808"), Some(JsonValue::Int(i64::MIN)));
    assert_eq!(parse_json_text("true"), Some(JsonValue::Bool(true)));
}

#[test]
fn parse_refuses_text_that_is_not_json() {
    assert_eq!(parse_json_text("not json"), None);
    assert_eq!(parse_json_text(""), None);
    assert_eq!(parse_json_text("{\"a\":}"), None);
    assert_eq!(parse_json_text("[1,]"), None);
}

#[test]
fn parsed_text_of_rendered_value_is_the_value() {
    let v = obj(vec![
        ("command", json_string("echo \"é\"\t")),
        ("n", JsonValue::Int(-17)),
        ("xs", json_array(vec![JsonValue::Bool(false), JsonValue::Null])),
    ]);
    assert_eq!(parse_json_text(&v.to_json_text()), Some(v));
}

#[test]
fn decimal_text_to_i64() {
    assert_eq!(i64_of_decimal("0"), Some(0));
    assert_eq!(i64_of_decimal("-0"), Some(0));
    assert_eq!(i64_of_decimal("007"), Some(7));
    assert_eq!(i64_of_decimal("9223372036854775807"), Some(i64::MAX));
    assert_eq!(i64_of_decimal("9223372036854775808"), None);
    assert_eq!(i64_of_decimal("-9223372036854775808"), Some(i64::MIN));
    assert_eq!(i64_of_decimal("-9223372036854775809"), None);
    assert_eq!(i64_of_decimal("123456789012345678901234567890"), None);
    assert_eq!(i64_of_decimal(""), None);
    assert_eq!(i64_of_decimal("-"), None);
    assert_eq!(i64_of_decimal("1.0"), None);
    assert_eq!(i64_of_decimal("１"), None);
    assert_eq!(i64_of_decimal("+1"), None);
}

#[test]
fn int_numbers_are_recognised_at_every_depth() {
    let v = obj(vec![(
        "a",
        json_array(vec![JsonValue::OtherNumber("42".to_string()), JsonValue::OtherNumber("4.2".to_string())]),
    )]);
    assert_eq!(
        with_int_numbers(&v),
        obj(vec![("a", json_array(vec![JsonValue::Int(42), JsonValue::OtherNumber("4.2".to_string())]))])
    );
}
