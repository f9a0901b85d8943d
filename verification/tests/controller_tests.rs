use httpcli::controller::{
    Action, ActivePanel, App, HttpMethodType, InputEvent, InputMode, SendError,
};
use httpcli::headers::HeaderError;
use httpcli::json::JsonError;

fn edit_url_app() -> App {
    let mut app = App::default();
    app.handle_event(InputEvent::Char('u'));
    app
}

#[test]
fn default_state_is_ready() {
    let app = App::default();
    assert!(!app.should_quit);
    assert!(matches!(app.input_mode, InputMode::Normal));
    assert!(matches!(app.active_panel, ActivePanel::Request));
    assert_eq!(app.method_index, 0);
    assert_eq!(app.url, "https://httpbin.org/get");
    assert_eq!(app.headers_input, "");
    assert_eq!(app.body_input, "");
    assert!(!app.is_json_body);
    assert!(app.current_response.is_none());
    assert_eq!(app.status_message, "Ready");
    assert_eq!(app.request_history.len(), 0);
}

#[test]
fn url_chars_append_in_order() {
    let mut app = edit_url_app();
    assert!(matches!(app.input_mode, InputMode::EditingUrl));
    app.url.clear();
    for c in ['a', 'b', 'c'] {
        app.handle_event(InputEvent::Char(c));
    }
    assert_eq!(app.url, "abc");
    app.handle_event(InputEvent::Backspace);
    assert_eq!(app.url, "ab");
}

#[test]
fn url_backspace_on_empty_is_noop() {
    let mut app = edit_url_app();
    app.url.clear();
    app.handle_event(InputEvent::Backspace);
    assert_eq!(app.url, "");
}

#[test]
fn method_cycle_forward_four_times_returns() {
    for start in 0..4usize {
        let mut app = App::default();
        app.method_index = start;
        for _ in 0..4 {
            app.next_method();
        }
        assert_eq!(app.method_index, start);
    }
}

#[test]
fn method_cycle_backward_wraps_from_zero() {
    let mut app = App::default();
    assert_eq!(app.method_index, 0);
    app.previous_method();
    assert_eq!(app.method_index, 3);
}

#[test]
fn method_keys_cycle_in_normal_mode() {
    let mut app = App::default();
    app.handle_event(InputEvent::Char('m'));
    assert_eq!(app.method_index, 1);
    assert!(matches!(app.current_method(), HttpMethodType::Post));
    app.handle_event(InputEvent::Char('M'));
    assert_eq!(app.method_index, 0);
    assert!(matches!(app.current_method(), HttpMethodType::Get));
}

#[test]
fn get_methods_order_is_fixed() {
    let methods = App::get_methods();
    assert_eq!(methods.len(), 4);
    assert!(matches!(methods[0], HttpMethodType::Get));
    assert!(matches!(methods[1], HttpMethodType::Post));
    assert!(matches!(methods[2], HttpMethodType::Put));
    assert!(matches!(methods[3], HttpMethodType::Delete));
}

#[test]
fn normal_mode_keys_set_focus_and_flags() {
    let mut app = App::default();
    app.handle_event(InputEvent::Char('h'));
    assert!(matches!(app.input_mode, InputMode::EditingHeaders));
    app.handle_event(InputEvent::Esc);
    assert!(matches!(app.input_mode, InputMode::Normal));
    app.handle_event(InputEvent::Char('b'));
    assert!(matches!(app.input_mode, InputMode::EditingBody));
    app.handle_event(InputEvent::Esc);
    app.handle_event(InputEvent::Char('j'));
    assert!(app.is_json_body);
    app.handle_event(InputEvent::Char('j'));
    assert!(!app.is_json_body);
    app.handle_event(InputEvent::Char('q'));
    assert!(app.should_quit);
}

#[test]
fn tab_cycles_panels() {
    let mut app = App::default();
    app.handle_event(InputEvent::Tab);
    assert!(matches!(app.active_panel, ActivePanel::Response));
    app.handle_event(InputEvent::Tab);
    assert!(matches!(app.active_panel, ActivePanel::History));
    app.handle_event(InputEvent::Tab);
    assert!(matches!(app.active_panel, ActivePanel::Request));
}

#[test]
fn enter_in_normal_mode_requests_dispatch() {
    let mut app = App::default();
    let act = app.handle_event(InputEvent::Enter);
    assert_eq!(act, Action::Dispatch);
    let act = app.handle_event(InputEvent::Char('x'));
    assert_eq!(act, Action::Idle);
}

#[test]
fn headers_confirm_appends_newline_and_keeps_focus() {
    let mut app = App::default();
    app.handle_event(InputEvent::Char('h'));
    for c in ['X', ':', 'y'] {
        app.handle_event(InputEvent::Char(c));
    }
    app.handle_event(InputEvent::Enter);
    assert_eq!(app.headers_input, "X:y\n");
    assert!(matches!(app.input_mode, InputMode::EditingHeaders));
}

#[test]
fn url_confirm_returns_to_normal() {
    let mut app = edit_url_app();
    let before = app.url.clone();
    app.handle_event(InputEvent::Enter);
    assert!(matches!(app.input_mode, InputMode::Normal));
    assert_eq!(app.url, before);
}

#[test]
fn body_edit_appends_and_deletes() {
    let mut app = App::default();
    app.handle_event(InputEvent::Char('b'));
    for c in ['h', 'i'] {
        app.handle_event(InputEvent::Char(c));
    }
    app.handle_event(InputEvent::Enter);
    app.handle_event(InputEvent::Char('!'));
    assert_eq!(app.body_input, "hi\n!");
    app.handle_event(InputEvent::Backspace);
    assert_eq!(app.body_input, "hi\n");
}

#[test]
fn send_with_malformed_header_aborts_before_dispatch() {
    let client = reqwest::Client::new();
    let mut app = App::default();
    app.headers_input = "X-Foo bar".to_string();
    let history_before = app.request_history.len();
    let r = app.start_send(&client);
    match r {
        Err(SendError::Header(HeaderError::InvalidFormat(line))) => {
            assert_eq!(line, "X-Foo bar");
        }
        _ => panic!("expected a header format error"),
    }
    assert_eq!(app.request_history.len(), history_before);
    assert!(app.current_response.is_none());
    assert!(app.status_message.contains("Invalid header format"));
    assert_eq!(
        app.status_message,
        "Error: Invalid header format: 'X-Foo bar'. Use 'Key: Value' format"
    );
    assert_eq!(app.headers_input, "X-Foo bar");
}

#[test]
fn send_with_invalid_json_body_aborts_before_dispatch() {
    let client = reqwest::Client::new();
    let mut app = App::default();
    app.body_input = "{invalid".to_string();
    app.is_json_body = true;
    let r = app.start_send(&client);
    match r {
        Err(SendError::Json(JsonError::ParseError(_))) => {}
        _ => panic!("expected a JSON parse error"),
    }
    assert_eq!(app.request_history.len(), 0);
    assert!(app.current_response.is_none());
    assert!(app.status_message.starts_with("Error: JSON parse error: "));
    assert_eq!(app.body_input, "{invalid");
}

#[test]
fn successful_send_appends_one_history_entry() {
    let client = reqwest::Client::new();
    let mut app = App::default();
    app.url = "https://example.test/ok".to_string();
    assert!(matches!(app.current_method(), HttpMethodType::Get));
    let r = app.start_send(&client);
    assert!(r.is_ok());
    assert_eq!(app.status_message, "Sending request...");
    app.finish_send_success(200, "200 OK".to_string(), Vec::new(), String::new(), 7);
    assert_eq!(app.request_history.len(), 1);
    let (req, resp) = &app.request_history[0];
    assert!(matches!(req.method, HttpMethodType::Get));
    assert_eq!(req.url, "https://example.test/ok");
    assert_eq!(req.headers.len(), 0);
    assert!(req.body.is_none());
    assert!(!req.is_json);
    assert_eq!(resp.as_ref().unwrap().status, 200);
    let current = app.current_response.as_ref().unwrap();
    assert_eq!(current.status, 200);
    assert_eq!(current.status_text, "200 OK");
    assert_eq!(current.duration_ms, 7);
    assert!(matches!(app.active_panel, ActivePanel::Response));
    assert_eq!(app.status_message, "Request completed in 7ms");
}

#[test]
fn json_like_response_body_is_pretty_printed() {
    let client = reqwest::Client::new();
    let mut app = App::default();
    let r = app.start_send(&client);
    assert!(r.is_ok());
    app.finish_send_success(
        200,
        "200 OK".to_string(),
        Vec::new(),
        "{\"a\":1}".to_string(),
        3,
    );
    let current = app.current_response.as_ref().unwrap();
    assert_eq!(current.body, "{\n  \"a\": 1\n}");
    let (_, resp) = &app.request_history[0];
    assert_eq!(resp.as_ref().unwrap().body, "{\n  \"a\": 1\n}");
}

#[test]
fn non_json_response_body_is_kept_verbatim() {
    let client = reqwest::Client::new();
    let mut app = App::default();
    let r = app.start_send(&client);
    assert!(r.is_ok());
    app.finish_send_success(
        404,
        "404 Not Found".to_string(),
        Vec::new(),
        "plain text".to_string(),
        3,
    );
    let current = app.current_response.as_ref().unwrap();
    assert_eq!(current.body, "plain text");
}

#[test]
fn network_failure_touches_only_the_status_line() {
    let mut app = App::default();
    app.finish_send_failure("connection refused");
    assert_eq!(app.status_message, "Error: connection refused");
    assert_eq!(app.request_history.len(), 0);
    assert!(app.current_response.is_none());
    assert!(matches!(app.active_panel, ActivePanel::Request));
}

#[test]
fn send_records_nonblank_header_lines_and_body() {
    let client = reqwest::Client::new();
    let mut app = App::default();
    app.headers_input = "X-One: 1\n\n  \nX-Two: 2\n".to_string();
    app.body_input = "hello".to_string();
    let r = app.start_send(&client);
    assert!(r.is_ok());
    app.finish_send_success(201, "201 Created".to_string(), Vec::new(), String::new(), 1);
    let (req, _) = &app.request_history[0];
    assert_eq!(req.headers, vec!["X-One: 1".to_string(), "X-Two: 2".to_string()]);
    assert_eq!(req.body.as_deref(), Some("hello"));
}

#[test]
fn blank_body_is_not_attached() {
    let client = reqwest::Client::new();
    let mut app = App::default();
    app.body_input = "   \n ".to_string();
    app.is_json_body = true;
    let r = app.start_send(&client);
    assert!(r.is_ok(), "a blank body must not be validated as JSON");
    app.finish_send_success(200, "200 OK".to_string(), Vec::new(), String::new(), 1);
    let (req, _) = &app.request_history[0];
    assert!(req.body.is_none());
}

#[test]
fn status_and_history_render_lines() {
    let mut app = App::default();
    app.status_message = "Ready".to_string();
    assert_eq!(
        app.status_bar_text(),
        " Status: Ready | Press 'q' to quit, 'h' for help"
    );
    assert_eq!(app.request_line_text(), "GET https://httpbin.org/get");
    assert_eq!(app.body_panel_title(), "Body");
    app.is_json_body = true;
    assert_eq!(app.body_panel_title(), "Body (JSON)");
}

#[test]
fn history_line_formats_entries() {
    let client = reqwest::Client::new();
    let mut app = App::default();
    app.url = "https://example.test/a".to_string();
    let r = app.start_send(&client);
    assert!(r.is_ok());
    app.finish_send_success(204, "204 No Content".to_string(), Vec::new(), String::new(), 2);
    let line = httpcli::controller::history_line(0, &app.request_history[0]);
    assert_eq!(line, "1: GET https://example.test/a [204]");
    let entry = (app.request_history[0].0.clone(), None);
    let line = httpcli::controller::history_line(1, &entry);
    assert_eq!(line, "2: GET https://example.test/a [...]");
}

#[test]
fn response_status_line_formats() {
    let resp = httpcli::controller::HttpResponse {
        status: 200,
        status_text: "200 OK".to_string(),
        headers: vec![("server".to_string(), "test".to_string())],
        body: String::new(),
        duration_ms: 42,
    };
    assert_eq!(resp.status_line_text(), "200 200 OK (42ms)");
    assert_eq!(
        httpcli::controller::header_display_line("server", "test"),
        "server: test"
    );
    assert_eq!(resp.headers[0].0, "server");
}

#[test]
fn method_names_render() {
    assert_eq!(HttpMethodType::Get.name(), "GET");
    assert_eq!(HttpMethodType::Post.name(), "POST");
    assert_eq!(HttpMethodType::Put.name(), "PUT");
    assert_eq!(HttpMethodType::Delete.name(), "DELETE");
}

#[test]
fn start_send_builds_the_composed_request() {
    let client = reqwest::Client::new();
    let mut app = App::default();
    app.method_index = 1;
    app.url = "http://example.test/x".to_string();
    app.headers_input = "X-One: 1\n".to_string();
    app.body_input = "{\"a\":1}".to_string();
    app.is_json_body = true;
    let builder = app.start_send(&client).expect("the composition is valid");
    let req = builder.build().expect("the URL is usable");
    assert_eq!(req.method().as_str(), "POST");
    assert_eq!(req.url().as_str(), "http://example.test/x");
    assert_eq!(req.headers().get("x-one").unwrap(), "1");
    assert_eq!(req.headers().get("content-type").unwrap(), "application/json");
    assert!(req.body().is_some());
}

#[test]
fn start_send_without_body_attaches_none() {
    let client = reqwest::Client::new();
    let mut app = App::default();
    app.url = "http://example.test/y".to_string();
    let builder = app.start_send(&client).expect("the composition is valid");
    let req = builder.build().expect("the URL is usable");
    assert_eq!(req.method().as_str(), "GET");
    assert!(req.headers().get("content-type").is_none());
    assert!(req.body().is_none());
}

#[test]
fn status_codes_class_as_drawn() {
    let mut resp = httpcli::controller::HttpResponse {
        status: 204,
        status_text: "204 No Content".to_string(),
        headers: Vec::new(),
        body: String::new(),
        duration_ms: 1,
    };
    assert_eq!(resp.status_class(), httpcli::controller::StatusClass::Success);
    resp.status = 404;
    assert_eq!(resp.status_class(), httpcli::controller::StatusClass::Error);
    resp.status = 301;
    assert_eq!(resp.status_class(), httpcli::controller::StatusClass::Other);
}

#[test]
fn response_panel_shows_at_most_four_headers() {
    let headers: Vec<(String, String)> = (0..6)
        .map(|i| (format!("h{}", i), format!("v{}", i)))
        .collect();
    let resp = httpcli::controller::HttpResponse {
        status: 200,
        status_text: "200 OK".to_string(),
        headers,
        body: String::new(),
        duration_ms: 1,
    };
    let shown = resp.displayed_headers();
    assert_eq!(shown.len(), 4);
    assert_eq!(shown[0], ("h0".to_string(), "v0".to_string()));
    assert_eq!(shown[3], ("h3".to_string(), "v3".to_string()));
}
