use rustyverse::json::{JsonNumber, JsonValue};
use rustyverse::logging::{handle_err, opaque_field_message};
use rustyverse::text::{chars_of, find};

#[test]
fn find_counts_characters() {
    assert_eq!(find("hello world", "o"), Some(4));
    assert_eq!(find("hello", ""), Some(0));
    assert_eq!(find("", "a"), None);
    assert_eq!(find("äbc abc", "abc"), Some(4));
    assert_eq!(find("ab", "abc"), None);
    assert_eq!(chars_of("aé"), vec!['a', 'é']);
}

#[test]
fn json_get_and_as_str() {
    let v = JsonValue::Object(vec![
        ("a".to_string(), JsonValue::Null),
        ("b".to_string(), JsonValue::String("text".to_string())),
        ("c".to_string(), JsonValue::Number(JsonNumber::Decimal("1.5".to_string()))),
    ]);
    assert!(matches!(v.get("a"), Some(JsonValue::Null)));
    assert_eq!(v.get("b").and_then(|x| x.as_str()), Some("text"));
    assert!(v.get("c").unwrap().as_str().is_none());
    assert!(v.get("d").is_none());
    assert!(JsonValue::Array(vec![JsonValue::Bool(true)]).get("0").is_none());
    assert!(JsonValue::Bool(false).as_str().is_none());
}

#[test]
fn handle_err_reports_debug_text() {
    let text = format!("{:#?}", Some(3));
    assert_eq!(handle_err(&text).message(), text);
}

#[test]
fn opaque_message_hides_the_error() {
    assert_eq!(opaque_field_message("Error { secret: \"hunter2\" }"), "internal error");
    assert_eq!(opaque_field_message(""), "internal error");
}
