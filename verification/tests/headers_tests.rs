use httpcli::headers::{parse_headers, HeaderError};

#[test]
fn parse_headers_accepts_key_value_lines() {
    let lines = vec![
        "Content-Type: text/plain".to_string(),
        "X-Token: abc123".to_string(),
    ];
    let map = parse_headers(&lines).unwrap();
    assert_eq!(map.get("content-type").unwrap(), "text/plain");
    assert_eq!(map.get("x-token").unwrap(), "abc123");
}

#[test]
fn parse_headers_trims_around_the_colon() {
    let lines = vec!["  X-Pad  :   spaced out  ".to_string()];
    let map = parse_headers(&lines).unwrap();
    assert_eq!(map.get("x-pad").unwrap(), "spaced out");
}

#[test]
fn parse_headers_accepts_empty_list() {
    let map = parse_headers(&[]).unwrap();
    assert!(map.is_empty());
}

#[test]
fn parse_headers_rejects_line_without_colon() {
    let lines = vec!["X-Foo bar".to_string()];
    match parse_headers(&lines) {
        Err(HeaderError::InvalidFormat(line)) => assert_eq!(line, "X-Foo bar"),
        _ => panic!("expected a format error"),
    }
}

#[test]
fn parse_headers_rejects_bad_name() {
    let lines = vec!["Bad Name: value".to_string()];
    match parse_headers(&lines) {
        Err(HeaderError::InvalidName(name)) => assert_eq!(name, "Bad Name"),
        _ => panic!("expected a name error"),
    }
}

#[test]
fn parse_headers_rejects_bad_value() {
    let lines = vec!["X-Ctl: bad\u{1}value".to_string()];
    match parse_headers(&lines) {
        Err(HeaderError::InvalidValue(value)) => assert_eq!(value, "bad\u{1}value"),
        _ => panic!("expected a value error"),
    }
}

#[test]
fn parse_headers_reports_the_first_bad_line() {
    let lines = vec![
        "Good: yes".to_string(),
        "no colon here".to_string(),
        "Also Bad Name: x".to_string(),
    ];
    match parse_headers(&lines) {
        Err(HeaderError::InvalidFormat(line)) => assert_eq!(line, "no colon here"),
        _ => panic!("expected the first failure"),
    }
}

#[test]
fn header_error_messages_render() {
    let e = HeaderError::InvalidFormat("X-Foo bar".to_string());
    assert_eq!(
        e.message(),
        "Invalid header format: 'X-Foo bar'. Use 'Key: Value' format"
    );
    let e = HeaderError::InvalidName("Bad Name".to_string());
    assert_eq!(e.message(), "Invalid header name: 'Bad Name'");
    let e = HeaderError::InvalidValue("v\u{1}".to_string());
    assert_eq!(e.message(), "Invalid header value: 'v\u{1}'");
}

#[test]
fn parse_headers_keeps_the_last_value_of_a_repeated_name() {
    let lines = vec!["X-Dup: one".to_string(), "x-dup: two".to_string()];
    let map = parse_headers(&lines).unwrap();
    assert_eq!(map.len(), 1);
    assert_eq!(map.get("x-dup").unwrap(), "two");
}

#[test]
fn parse_headers_rejects_an_over_long_name() {
    let long_name = "a".repeat(65536);
    let lines = vec![format!("{}: v", long_name)];
    match parse_headers(&lines) {
        Err(HeaderError::InvalidName(name)) => assert_eq!(name, long_name),
        _ => panic!("expected a name error for a name past the cap"),
    }
}
