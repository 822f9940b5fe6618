use flowcat::json::{Json, JsonMap, Number};
use flowcat::text::{
    decimal_int_text, is_blank, parse_index, replace, split, strip_prefix, trim, trim_end_of,
};

fn through(text: &str) -> String {
    Json::parse(text).unwrap().text()
}

#[test]
fn texts_read_back() {
    let text = r#"{"a":[null,true,-1,2,"q\"\\\n"],"b":{"c":{}}}"#;
    assert_eq!(through(text), text);
    assert_eq!(through(r#"{"b":1,"a":2,"b":3}"#), r#"{"a":2,"b":3}"#);
    assert_eq!(through("[0.1, 1e300, 18446744073709551615, -9223372036854775808]"),
        "[0.1,1e+300,18446744073709551615,-9223372036854775808]");
    assert!(Json::parse("[1,").is_err());
    assert!(Json::parse(&"[".repeat(200)).is_err());
}

#[test]
fn numbers_are_written_as_they_are_held() {
    assert_eq!(Json::Number(Number::NegInt(-3)).text(), "-3");
    assert_eq!(Json::Number(Number::NegInt(3)).text(), "3");
    assert_eq!(Json::Number(Number::Float("2.5".to_string())).text(), "2.5");
    assert_eq!(Json::Number(Number::Float("no".to_string())).text(), "null");
}

#[test]
fn maps_hold_the_last_value_of_a_key() {
    let mut m = JsonMap::new();
    m.insert("k".to_string(), Json::Bool(true));
    m.insert("l".to_string(), Json::Null);
    m.insert("k".to_string(), Json::Bool(false));
    assert_eq!(m.get("k").unwrap().as_bool(), Some(false));
    assert!(m.get("x").is_none());
    assert!(m.only().is_none());
    let mut n = JsonMap::from_entries(vec![
        ("k".to_string(), Json::Null),
        ("k".to_string(), Json::Bool(true)),
    ]);
    let (key, value) = n.only().unwrap();
    assert_eq!((key.as_str(), value.as_bool()), ("k", Some(true)));
    n.extend(m.clone());
    assert_eq!(Json::Object(n).text(), r#"{"k":false,"l":null}"#);
}

#[test]
fn text_functions() {
    assert_eq!(trim(" \t\u{2003}a b\u{a0}\n"), "a b");
    assert!(is_blank("") && is_blank("\u{3000} ") && !is_blank("\u{200b}"));
    assert_eq!(replace("aaaa", "aa", "b"), "bb");
    assert_eq!(replace("abc", "x", "y"), "abc");
    assert_eq!(split("a..b.", '.'), vec!["a", "", "b", ""]);
    assert_eq!(split("", '.'), vec![""]);
    assert_eq!(strip_prefix("file://x", "file://").as_deref(), Some("x"));
    assert_eq!(strip_prefix("x", "xy"), None);
    assert_eq!(trim_end_of("a//", '/'), "a");
    assert_eq!(decimal_int_text(i64::MIN), "-9223372036854775808");
    assert_eq!(parse_index("+007"), Some(7));
    assert_eq!(parse_index("18446744073709551616"), None);
    assert_eq!(parse_index("-1"), None);
    assert_eq!(parse_index("+"), None);
    assert_eq!(parse_index("1_0"), None);
}

#[test]
fn nesting_has_a_limit() {
    let nested = |n: usize| "[".repeat(n) + &"]".repeat(n);
    assert_eq!(through(&nested(127)), nested(127));
    assert!(Json::parse(&nested(128)).is_err());
}

#[test]
fn the_marker_of_raw_text_does_not_read_back() {
    let mut m = JsonMap::new();
    m.insert("$serde_json::private::RawValue".to_string(), Json::Str("1".to_string()));
    let text = Json::Object(m).text();
    assert_eq!(text, r#"{"$serde_json::private::RawValue":"1"}"#);
    assert_eq!(Json::parse(&text).unwrap().text(), "1");
}
