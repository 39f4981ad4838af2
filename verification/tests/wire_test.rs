use agentic_gateway::json::{copies, put, Json};
use agentic_gateway::text::{same_text, trim};
use agentic_gateway::wire::{parse, parse_list, render};

#[test]
fn a_text_is_read_and_written() {
    let text = r#"{"a":[null,true,-3,18446744073709551615,"x\n"],"b":{}}"#;
    let json = parse(text.as_bytes()).expect("valid json");
    assert_eq!(render(&json).expect("rendered"), text);
    assert_eq!(render(&json.clone()).expect("rendered"), text);
}

#[test]
fn what_is_not_json_is_refused() {
    for text in ["", "{", "[1,]", "nul", "{} {}", "01"] {
        assert!(parse(text.as_bytes()).is_err(), "read: {text}");
    }
    assert!(parse(b"\"\xff\"").is_err());
}

#[test]
fn a_value_nested_too_deeply_is_refused() {
    let nested = |depth: usize| format!("{}{}", "[".repeat(depth), "]".repeat(depth));
    assert!(parse(nested(127).as_bytes()).is_ok());
    assert!(parse(nested(128).as_bytes()).is_err());
}

#[test]
fn a_later_member_replaces_an_earlier_one() {
    let json = parse(br#"{"a":1,"a":2}"#).expect("valid json");
    assert_eq!(json.get("a").and_then(Json::as_i64), Some(2));

    let mut entries: Vec<(String, Json)> = Vec::new();
    put(&mut entries, "a", Json::number(1));
    put(&mut entries, "b", Json::string("x"));
    put(&mut entries, "a", Json::number(2));
    let json = Json::Object(entries);
    assert_eq!(json.get("a").and_then(Json::as_i64), Some(2));
    assert_eq!(render(&json).expect("rendered"), r#"{"a":2,"b":"x"}"#);
}

#[test]
fn only_an_object_has_members() {
    assert!(Json::string("a").get("a").is_none());
    assert!(Json::Array(vec![]).get("a").is_none());
    assert!(Json::Object(vec![]).get("a").is_none());
    assert!(Json::Object(vec![]).is_object());
    assert!(!Json::Null.is_object());
}

#[test]
fn integers_are_read_as_far_as_they_fit() {
    let read = |text: &str| parse(text.as_bytes()).expect("valid json").as_i64();
    assert_eq!(read("9223372036854775807"), Some(i64::MAX));
    assert_eq!(read("-9223372036854775808"), Some(i64::MIN));
    assert_eq!(read("9223372036854775808"), None);
    assert_eq!(read("1.0"), None);
    assert_eq!(read("\"1\""), None);
    assert_eq!(Json::number(-7).as_i64(), Some(-7));
}

#[test]
fn texts_are_compared_whole() {
    assert!(same_text("", ""));
    assert!(same_text("\u{e9}", "\u{e9}"));
    assert!(!same_text("e\u{301}", "\u{e9}"));
    assert!(!same_text("ab", "abc"));
    assert!(!same_text("abc", "abd"));
}

#[test]
fn whitespace_is_trimmed_as_unicode_has_it() {
    for text in ["", " ", " a b ", "\u{a0}x\u{2003}", "\u{200b}x", "x", "\n\n", "\u{85}\u{3000}y z\t"] {
        assert_eq!(trim(text), text.trim());
    }
}

#[test]
fn copies_are_equal_and_in_order() {
    let items = vec![Json::number(1), Json::string("a"), Json::Null];
    let copied = copies(&items);
    assert_eq!(render(&Json::Array(copied)).expect("rendered"), r#"[1,"a",null]"#);
    assert_eq!(render(&Json::Array(items)).expect("rendered"), r#"[1,"a",null]"#);
}

#[test]
fn a_list_is_read_only_from_the_text_of_a_list() {
    assert_eq!(parse_list(" [1, [2]] ").expect("a list").len(), 2);
    for text in ["", "{}", "1", "[1", "[1] 2", "null"] {
        assert!(parse_list(text).is_err(), "read: {text}");
    }
}

#[test]
fn an_object_is_misread_only_where_it_begins_with_the_reserved_name() {
    let reserved = r#""$serde_json::private::RawValue":"[1]""#;
    let alone = parse(format!("{{{reserved}}}").as_bytes()).expect("valid json");
    assert!(!alone.is_object());

    let text = format!(r#"{{"!":0,{reserved}}}"#);
    let led = parse(text.as_bytes()).expect("valid json");
    assert!(led.is_object());
    assert_eq!(render(&led).expect("rendered"), text);
}
