use c2pa_validate::json::{json_to_string, quote_json_string, JsonValue};
use c2pa_validate::text::{decimal_string, signed_decimal_string, zero_padded_string};

#[test]
fn json_text_escapes_strings() {
    assert_eq!(quote_json_string("a\"b\\c\n\u{1}"), "\"a\\\"b\\\\c\\n\\u0001\"");
    let v = JsonValue::Object(vec![
        ("k".to_string(), JsonValue::Array(vec![JsonValue::Bool(true), JsonValue::Null])),
        ("n".to_string(), JsonValue::Number("-3".to_string())),
    ]);
    assert_eq!(json_to_string(&v), "{\"k\":[true,null],\"n\":-3}");
}

#[test]
fn deep_copy_keeps_content() {
    let v = JsonValue::Array(vec![JsonValue::Object(vec![(
        "x".to_string(),
        JsonValue::String("y".to_string()),
    )])]);
    assert_eq!(json_to_string(&v.deep_copy()), json_to_string(&v));
}

#[test]
fn decimal_texts() {
    assert_eq!(decimal_string(0), "0");
    assert_eq!(decimal_string(1204), "1204");
    assert_eq!(signed_decimal_string(-42), "-42");
    assert_eq!(signed_decimal_string(i64::MIN), "-9223372036854775808");
    assert_eq!(zero_padded_string(7, 2), "07");
    assert_eq!(zero_padded_string(2024, 2), "2024");
}
