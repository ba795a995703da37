use filemaker_lib::json::JsonValue;
use filemaker_lib::ser::to_json_string;
use filemaker_lib::text::{parse_u64, str_eq, u64_to_string};

fn s(text: &str) -> String {
    text.to_string()
}

fn obj(pairs: Vec<(&str, JsonValue)>) -> JsonValue {
    JsonValue::Obj(pairs.into_iter().map(|(k, v)| (s(k), v)).collect())
}

#[test]
fn u64_to_string_writes_decimal_numerals() {
    assert_eq!(u64_to_string(0), "0");
    assert_eq!(u64_to_string(7), "7");
    assert_eq!(u64_to_string(10), "10");
    assert_eq!(u64_to_string(409), "409");
    assert_eq!(u64_to_string(u64::MAX), "18446744073709551615");
}

#[test]
fn parse_u64_reads_decimal_numerals() {
    assert_eq!(parse_u64("0"), Some(0));
    assert_eq!(parse_u64("42"), Some(42));
    assert_eq!(parse_u64("0042"), Some(42));
    assert_eq!(parse_u64("18446744073709551615"), Some(u64::MAX));
}

#[test]
fn parse_u64_rejects_what_is_no_numeral() {
    assert_eq!(parse_u64(""), None);
    assert_eq!(parse_u64("abc"), None);
    assert_eq!(parse_u64("12a"), None);
    assert_eq!(parse_u64("-3"), None);
    assert_eq!(parse_u64("+3"), None);
    assert_eq!(parse_u64("1.5"), None);
    assert_eq!(parse_u64("18446744073709551616"), None);
    assert_eq!(parse_u64("99999999999999999999999"), None);
}

#[test]
fn parse_u64_inverts_u64_to_string() {
    for n in [0u64, 1, 9, 10, 99, 100, 123456789, u64::MAX] {
        assert_eq!(parse_u64(u64_to_string(n).as_str()), Some(n));
    }
}

#[test]
fn str_eq_compares_by_characters() {
    assert!(str_eq("", ""));
    assert!(str_eq("abc", "abc"));
    assert!(!str_eq("abc", "abd"));
    assert!(!str_eq("abc", "abcd"));
    assert!(str_eq("héllo", "héllo"));
    assert!(!str_eq("héllo", "hello"));
}

#[test]
fn json_scalars_serialize_to_their_literals() {
    assert_eq!(to_json_string(&JsonValue::Null), "null");
    assert_eq!(to_json_string(&JsonValue::Bool(true)), "true");
    assert_eq!(to_json_string(&JsonValue::Bool(false)), "false");
    assert_eq!(to_json_string(&JsonValue::Num(s("42"))), "42");
    assert_eq!(to_json_string(&JsonValue::Num(s("-1.5e3"))), "-1.5e3");
    assert_eq!(to_json_string(&JsonValue::Str(s("hello"))), "\"hello\"");
}

#[test]
fn json_strings_escape_quotes_backslashes_and_controls() {
    assert_eq!(to_json_string(&JsonValue::Str(s("a\"b"))), "\"a\\\"b\"");
    assert_eq!(to_json_string(&JsonValue::Str(s("a\\b"))), "\"a\\\\b\"");
    assert_eq!(to_json_string(&JsonValue::Str(s("a\nb"))), "\"a\\nb\"");
    assert_eq!(to_json_string(&JsonValue::Str(s("a\tb"))), "\"a\\tb\"");
    assert_eq!(to_json_string(&JsonValue::Str(s("a\rb"))), "\"a\\rb\"");
    assert_eq!(
        to_json_string(&JsonValue::Str(s("a\u{8}b\u{c}c"))),
        "\"a\\bb\\fc\""
    );
    assert_eq!(
        to_json_string(&JsonValue::Str(s("\u{1}\u{1f}"))),
        "\"\\u0001\\u001f\""
    );
    assert_eq!(to_json_string(&JsonValue::Str(s("héllo"))), "\"héllo\"");
}

#[test]
fn json_arrays_and_objects_serialize_compactly() {
    let arr = JsonValue::Arr(vec![
        JsonValue::Num(s("1")),
        JsonValue::Num(s("2")),
        JsonValue::Num(s("3")),
    ]);
    assert_eq!(to_json_string(&arr), "[1,2,3]");
    assert_eq!(to_json_string(&JsonValue::Arr(vec![])), "[]");
    assert_eq!(to_json_string(&obj(vec![])), "{}");
    let nested = obj(vec![
        ("name", JsonValue::Str(s("fm"))),
        ("records", JsonValue::Arr(vec![obj(vec![("ok", JsonValue::Bool(true))])])),
    ]);
    assert_eq!(
        to_json_string(&nested),
        "{\"name\":\"fm\",\"records\":[{\"ok\":true}]}"
    );
}

#[test]
fn json_text_agrees_with_an_outside_parser() {
    let value = obj(vec![
        ("a b", JsonValue::Str(s("x\"y\\z\n"))),
        ("n", JsonValue::Num(s("12"))),
        ("l", JsonValue::Arr(vec![JsonValue::Null, JsonValue::Bool(false)])),
    ]);
    let text = to_json_string(&value);
    let parsed: serde_json::Value = serde_json::from_str(&text).unwrap();
    assert_eq!(parsed["a b"], serde_json::Value::String(s("x\"y\\z\n")));
    assert_eq!(parsed["n"], serde_json::Value::Number(12.into()));
    assert_eq!(parsed["l"][0], serde_json::Value::Null);
    assert_eq!(parsed["l"][1], serde_json::Value::Bool(false));
}

#[test]
fn get_field_finds_the_first_member() {
    let value = obj(vec![
        ("a", JsonValue::Num(s("1"))),
        ("b", JsonValue::Num(s("2"))),
        ("a", JsonValue::Num(s("3"))),
    ]);
    let first = value.get_field("a").unwrap();
    assert_eq!(to_json_string(first), "1");
    assert!(value.get_field("c").is_none());
    assert!(JsonValue::Null.get_field("a").is_none());
}

#[test]
fn take_field_moves_the_member_out() {
    let value = obj(vec![
        ("a", JsonValue::Num(s("1"))),
        ("b", JsonValue::Str(s("two"))),
    ]);
    let b = value.take_field("b").unwrap();
    assert_eq!(to_json_string(&b), "\"two\"");
    assert!(JsonValue::Num(s("1")).take_field("a").is_none());
}
