use httpcli::json::{
    is_json_like, minify_json, pretty_print_json, pretty_print_json_safe, validate_json, JsonError,
};

#[test]
fn json_like_accepts_braced_and_bracketed_text() {
    assert!(is_json_like("{\"a\":1}"));
    assert!(is_json_like("  [1, 2, 3]  "));
    assert!(is_json_like(" { not actually json } "));
}

#[test]
fn json_like_rejects_other_text() {
    assert!(!is_json_like(""));
    assert!(!is_json_like("   "));
    assert!(!is_json_like("plain text"));
    assert!(!is_json_like("{unclosed"));
    assert!(!is_json_like("[1, 2}"));
    assert!(!is_json_like("{"));
}

#[test]
fn pretty_print_formats_valid_json() {
    let pretty = pretty_print_json("{\"a\":1,\"b\":[2,3]}").unwrap();
    assert_eq!(pretty, "{\n  \"a\": 1,\n  \"b\": [\n    2,\n    3\n  ]\n}");
}

#[test]
fn pretty_print_rejects_text_that_does_not_look_like_json() {
    match pretty_print_json("plain") {
        Err(JsonError::InvalidJSon(msg)) => {
            assert_eq!(msg, "Text doesn't look like JSON");
        }
        _ => panic!("expected the structural rejection"),
    }
}

#[test]
fn pretty_print_rejects_malformed_json() {
    match pretty_print_json("{\"a\": }") {
        Err(JsonError::ParseError(_)) => {}
        _ => panic!("expected a parse error"),
    }
}

#[test]
fn pretty_print_safe_falls_back_to_the_input() {
    assert_eq!(pretty_print_json_safe("plain"), "plain");
    assert_eq!(pretty_print_json_safe("{broken"), "{broken");
    assert_eq!(pretty_print_json_safe("{\"a\":1}"), "{\n  \"a\": 1\n}");
}

#[test]
fn validate_json_accepts_and_rejects() {
    assert!(validate_json("{\"a\": null}").is_ok());
    assert!(validate_json("[1, 2, 3]").is_ok());
    assert!(validate_json("3").is_ok());
    match validate_json("{invalid") {
        Err(JsonError::ParseError(_)) => {}
        _ => panic!("expected a parse error"),
    }
}

#[test]
fn minify_json_strips_whitespace() {
    assert_eq!(minify_json("{ \"a\" : 1 }").unwrap(), "{\"a\":1}");
    assert!(minify_json("{").is_err());
}

#[test]
fn json_error_messages_render() {
    let e = JsonError::InvalidJSon("nope".to_string());
    assert_eq!(e.message(), "Invalid JSON: nope");
    match validate_json("{invalid") {
        Err(e) => assert!(e.message().starts_with("JSON parse error: ")),
        Ok(_) => panic!("expected an error"),
    }
}

#[test]
fn pretty_output_parses_and_preserves_the_value() {
    let pretty = pretty_print_json("{\"a\":1,\"b\":[2,3]}").unwrap();
    assert!(validate_json(&pretty).is_ok());
    assert_eq!(
        minify_json(&pretty).unwrap(),
        minify_json("{\"a\":1,\"b\":[2,3]}").unwrap()
    );
}

#[test]
fn pretty_print_safe_is_idempotent() {
    for text in ["{\"a\":1}", "plain", "{broken", "  [1, 2]  ", ""] {
        let once = pretty_print_json_safe(text);
        let twice = pretty_print_json_safe(&once);
        assert_eq!(twice, once);
    }
}

#[test]
fn minified_output_parses_and_minifies_to_itself() {
    let minified = minify_json("{ \"a\" : 1 }").unwrap();
    assert!(validate_json(&minified).is_ok());
    assert_eq!(minify_json(&minified).unwrap(), minified);
}

#[test]
fn minify_after_pretty_equals_minify() {
    let text = "{ \"a\" : [1, 2], \"b\" : null }";
    let through_pretty = minify_json(&pretty_print_json_safe(text)).unwrap();
    assert_eq!(through_pretty, minify_json(text).unwrap());
}
