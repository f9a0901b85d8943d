use httpcli::cli::{render_response_body, resolve_body_args, BodyArg};
use httpcli::json::JsonError;
use httpcli::text::{is_blank_str, split_nonblank_lines, str_contains, trim_str, u64_to_string};

#[test]
fn u64_to_string_matches_decimal_notation() {
    assert_eq!(u64_to_string(0), "0");
    assert_eq!(u64_to_string(7), "7");
    assert_eq!(u64_to_string(10), "10");
    assert_eq!(u64_to_string(1234567890), "1234567890");
    assert_eq!(u64_to_string(u64::MAX), "18446744073709551615");
}

#[test]
fn trim_removes_surrounding_whitespace() {
    assert_eq!(trim_str("  hello \t\n"), "hello");
    assert_eq!(trim_str(""), "");
    assert_eq!(trim_str(" \u{a0} "), "");
    assert_eq!(trim_str("a b"), "a b");
}

#[test]
fn blank_detection_uses_trimming() {
    assert!(is_blank_str(""));
    assert!(is_blank_str("  \t \n"));
    assert!(!is_blank_str(" x "));
}

#[test]
fn split_nonblank_lines_drops_blank_lines_in_order() {
    let lines = split_nonblank_lines("a: 1\n\n  \nb: 2\nc: 3");
    assert_eq!(lines, vec!["a: 1", "b: 2", "c: 3"]);
    let none: Vec<String> = Vec::new();
    assert_eq!(split_nonblank_lines(""), none);
    assert_eq!(split_nonblank_lines("\n \n"), none);
}

#[test]
fn split_nonblank_lines_strips_carriage_returns() {
    let lines = split_nonblank_lines("a: 1\r\nb: 2\r\n");
    assert_eq!(lines, vec!["a: 1", "b: 2"]);
}

#[test]
fn contains_finds_substrings() {
    assert!(str_contains("application/json; charset=utf-8", "application/json"));
    assert!(str_contains("abc", ""));
    assert!(!str_contains("abc", "abcd"));
    assert!(!str_contains("text/html", "application/json"));
}

#[test]
fn response_body_rendering_follows_content_type_or_shape() {
    assert_eq!(
        render_response_body("application/json", "{\"a\":1}"),
        "{\n  \"a\": 1\n}"
    );
    assert_eq!(render_response_body("", "{\"a\":1}"), "{\n  \"a\": 1\n}");
    assert_eq!(render_response_body("text/plain", "hello"), "hello");
    assert_eq!(render_response_body("application/json", "{broken"), "{broken");
}

#[test]
fn body_args_cannot_mix_data_and_json() {
    match resolve_body_args(Some("x".to_string()), Some("{}".to_string())) {
        Err(JsonError::InvalidJSon(msg)) => {
            assert_eq!(msg, "Cannot use both --data and --json options");
        }
        _ => panic!("expected the conflict error"),
    }
}

#[test]
fn body_args_validate_json() {
    match resolve_body_args(None, Some("{\"a\":1}".to_string())) {
        Ok(BodyArg::Json(b)) => assert_eq!(b, "{\"a\":1}"),
        _ => panic!("expected the JSON body"),
    }
    match resolve_body_args(None, Some("{bad".to_string())) {
        Err(JsonError::ParseError(_)) => {}
        _ => panic!("expected a parse error"),
    }
}

#[test]
fn body_args_pass_raw_data_through() {
    match resolve_body_args(Some("payload".to_string()), None) {
        Ok(BodyArg::Raw(b)) => assert_eq!(b, "payload"),
        _ => panic!("expected the raw body"),
    }
    match resolve_body_args(None, None) {
        Ok(BodyArg::Empty) => {}
        _ => panic!("expected no body"),
    }
}
