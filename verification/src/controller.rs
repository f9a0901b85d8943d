use vstd::prelude::*;

use crate::headers::{
    all_lines_ok, entries_of, header_error_matches, header_error_text, header_name_canon,
    no_entries, valid_header_name, valid_header_value, HeaderError, MAX_HEADER_LINES,
};
use crate::transport::{
    builder_body, builder_headers, builder_method, builder_url, builder_usable, usable_url,
};
use crate::json::{
    json_parses, pretty_print_json_safe, safe_pretty_of, validate_json, JsonError,
};
use crate::text::{
    dec_str_of, is_blank, is_blank_str, nonblank_lines, seq_views, split_nonblank_lines,
    starts_with_seq, trim_str, u64_to_string,
};
use crate::transport::{
    client_delete, client_get, client_post, client_put, request_with_body, request_with_header,
};
use crate::headers::add_headers_to_request;

verus! {

#[derive(Debug, Clone, Copy, PartialEq, Eq, Structural)]
pub enum HttpMethodType {
    Get,
    Post,
    Put,
    Delete,
}

/// The fixed method order the method index cycles through.
pub open spec fn method_at(i: int) -> HttpMethodType {
    if i == 0 {
        HttpMethodType::Get
    } else if i == 1 {
        HttpMethodType::Post
    } else if i == 2 {
        HttpMethodType::Put
    } else {
        HttpMethodType::Delete
    }
}

impl HttpMethodType {
    /// The upper-case token the method renders to.
    pub open spec fn name_spec(&self) -> Seq<char> {
        match self {
            HttpMethodType::Get => "GET"@,
            HttpMethodType::Post => "POST"@,
            HttpMethodType::Put => "PUT"@,
            HttpMethodType::Delete => "DELETE"@,
        }
    }

    pub fn name(&self) -> (r: &'static str)
        ensures
            r@ == self.name_spec(),
    {
        match self {
            HttpMethodType::Get => "GET",
            HttpMethodType::Post => "POST",
            HttpMethodType::Put => "PUT",
            HttpMethodType::Delete => "DELETE",
        }
    }
}

#[derive(Debug, Clone)]
pub struct HttpRequest {
    pub method: HttpMethodType,
    pub url: String,
    pub headers: Vec<String>,
    pub body: Option<String>,
    pub is_json: bool,
}

#[verifier::ext_equal]
pub struct HttpRequestView {
    pub method: HttpMethodType,
    pub url: Seq<char>,
    pub headers: Seq<Seq<char>>,
    pub body: Option<Seq<char>>,
    pub is_json: bool,
}

impl View for HttpRequest {
    type V = HttpRequestView;

    open spec fn view(&self) -> HttpRequestView {
        HttpRequestView {
            method: self.method,
            url: self.url@,
            headers: seq_views(self.headers@),
            body: match self.body {
                Some(b) => Some(b@),
                None => None,
            },
            is_json: self.is_json,
        }
    }
}

#[derive(Debug, Clone)]
pub struct HttpResponse {
    pub status: u16,
    pub status_text: String,
    pub headers: Vec<(String, String)>,
    pub body: String,
    pub duration_ms: u64,
}

#[verifier::ext_equal]
pub struct HttpResponseView {
    pub status: u16,
    pub status_text: Seq<char>,
    pub headers: Seq<(Seq<char>, Seq<char>)>,
    pub body: Seq<char>,
    pub duration_ms: u64,
}

/// The views of a list of name/value pairs of owned strings.
pub open spec fn pair_views(pairs: Seq<(String, String)>) -> Seq<(Seq<char>, Seq<char>)> {
    pairs.map_values(|p: (String, String)| (p.0@, p.1@))
}

impl View for HttpResponse {
    type V = HttpResponseView;

    open spec fn view(&self) -> HttpResponseView {
        HttpResponseView {
            status: self.status,
            status_text: self.status_text@,
            headers: pair_views(self.headers@),
            body: self.body@,
            duration_ms: self.duration_ms,
        }
    }
}

#[derive(Debug, Clone, Copy, PartialEq, Eq, Structural)]
pub enum InputMode {
    Normal,
    EditingUrl,
    EditingHeaders,
    EditingBody,
}

#[derive(Debug, Clone, Copy, PartialEq, Eq, Structural)]
pub enum ActivePanel {
    Request,
    Response,
    History,
}

/// One discrete input event, as the interactive loop hands it over.
#[derive(Debug, Clone, Copy, PartialEq, Eq, Structural)]
pub enum InputEvent {
    Char(char),
    Enter,
    Esc,
    Backspace,
    Tab,
    Other,
}

/// What the controller asks the loop to do after a key is handled.
#[derive(Debug, Clone, Copy, PartialEq, Eq, Structural)]
pub enum Action {
    Idle,
    Dispatch,
}

pub struct App {
    pub should_quit: bool,
    pub input_mode: InputMode,
    pub active_panel: ActivePanel,
    pub method_index: usize,
    pub url: String,
    pub headers_input: String,
    pub body_input: String,
    pub is_json_body: bool,
    pub current_response: Option<HttpResponse>,
    pub status_message: String,
    pub request_history: Vec<(HttpRequest, Option<HttpResponse>)>,
    pub url_cursor_position: usize,
    pub headers_cursor_position: usize,
    pub body_cursor_position: usize,
}

#[verifier::ext_equal]
pub struct AppView {
    pub should_quit: bool,
    pub input_mode: InputMode,
    pub active_panel: ActivePanel,
    pub method_index: int,
    pub url: Seq<char>,
    pub headers_input: Seq<char>,
    pub body_input: Seq<char>,
    pub is_json_body: bool,
    pub current_response: Option<HttpResponseView>,
    pub status_message: Seq<char>,
    pub request_history: Seq<(HttpRequestView, Option<HttpResponseView>)>,
    pub url_cursor_position: int,
    pub headers_cursor_position: int,
    pub body_cursor_position: int,
}

/// The view of one history entry.
pub open spec fn entry_view(e: (HttpRequest, Option<HttpResponse>)) -> (
    HttpRequestView,
    Option<HttpResponseView>,
) {
    (
        e.0@,
        match e.1 {
            Some(r) => Some(r@),
            None => None,
        },
    )
}

impl View for App {
    type V = AppView;

    open spec fn view(&self) -> AppView {
        AppView {
            should_quit: self.should_quit,
            input_mode: self.input_mode,
            active_panel: self.active_panel,
            method_index: self.method_index as int,
            url: self.url@,
            headers_input: self.headers_input@,
            body_input: self.body_input@,
            is_json_body: self.is_json_body,
            current_response: match self.current_response {
                Some(r) => Some(r@),
                None => None,
            },
            status_message: self.status_message@,
            request_history: self.request_history@.map_values(
                |e: (HttpRequest, Option<HttpResponse>)| entry_view(e),
            ),
            url_cursor_position: self.url_cursor_position as int,
            headers_cursor_position: self.headers_cursor_position as int,
            body_cursor_position: self.body_cursor_position as int,
        }
    }
}

impl App {
    /// The one structural invariant: the method index stays inside the fixed
    /// method list.
    pub open spec fn wf(&self) -> bool {
        self.method_index < 4
    }
}

/// The state an interactive session starts from.
pub open spec fn init_app_view() -> AppView {
    AppView {
        should_quit: false,
        input_mode: InputMode::Normal,
        active_panel: ActivePanel::Request,
        method_index: 0,
        url: "https://httpbin.org/get"@,
        headers_input: Seq::empty(),
        body_input: Seq::empty(),
        is_json_body: false,
        current_response: None,
        status_message: "Ready"@,
        request_history: Seq::empty(),
        url_cursor_position: 0,
        headers_cursor_position: 0,
        body_cursor_position: 0,
    }
}

impl Default for App {
    fn default() -> (a: App)
        ensures
            a@ == init_app_view(),
            a.wf(),
    {
        let a = App {
            should_quit: false,
            input_mode: InputMode::Normal,
            active_panel: ActivePanel::Request,
            method_index: 0,
            url: "https://httpbin.org/get".to_owned(),
            headers_input: String::new(),
            body_input: String::new(),
            is_json_body: false,
            current_response: None,
            status_message: "Ready".to_owned(),
            request_history: Vec::new(),
            url_cursor_position: 0,
            headers_cursor_position: 0,
            body_cursor_position: 0,
        };
        proof {
            assert(a@.request_history =~= init_app_view().request_history);
            assert(a@ =~= init_app_view());
        }
        a
    }
}

impl App {
    /// The fixed, ordered list of methods the index points into.
    pub fn get_methods() -> (r: Vec<HttpMethodType>)
        ensures
            r@.len() == 4,
            forall|i: int| 0 <= i < 4 ==> r@[i] == method_at(i),
    {
        let mut methods: Vec<HttpMethodType> = Vec::new();
        methods.push(HttpMethodType::Get);
        methods.push(HttpMethodType::Post);
        methods.push(HttpMethodType::Put);
        methods.push(HttpMethodType::Delete);
        methods
    }

    pub fn current_method(&self) -> (m: HttpMethodType)
        requires
            self.wf(),
        ensures
            m == method_at(self.method_index as int),
    {
        let methods = Self::get_methods();
        methods[self.method_index].clone()
    }

    /// Advances the method index one step, wrapping from the last method to
    /// the first.
    pub fn next_method(&mut self)
        requires
            old(self).wf(),
        ensures
            final(self)@ == (AppView { method_index: (old(self)@.method_index + 1) % 4, ..old(self)@ }),
            final(self).wf(),
    {
        let methods = Self::get_methods();
        self.method_index = (self.method_index + 1) % methods.len();
    }

    /// Moves the method index one step back, wrapping from the first method
    /// to the last.
    pub fn previous_method(&mut self)
        requires
            old(self).wf(),
        ensures
            final(self)@ == (AppView {
                method_index: if old(self)@.method_index == 0 {
                    3
                } else {
                    old(self)@.method_index - 1
                },
                ..old(self)@
            }),
            final(self).wf(),
    {
        let methods = Self::get_methods();
        self.method_index = if self.method_index == 0 {
            methods.len() - 1
        } else {
            self.method_index - 1
        };
    }
}

/// The panel order the panel key cycles through.
pub open spec fn next_panel(p: ActivePanel) -> ActivePanel {
    match p {
        ActivePanel::Request => ActivePanel::Response,
        ActivePanel::Response => ActivePanel::History,
        ActivePanel::History => ActivePanel::Request,
    }
}

/// The state after one input event. The send trigger leaves the state alone
/// here; its effect is the send path's own.
pub open spec fn step_state(s: AppView, ev: InputEvent) -> AppView {
    match s.input_mode {
        InputMode::Normal => match ev {
            InputEvent::Char(c) => if c == 'q' {
                AppView { should_quit: true, ..s }
            } else if c == 'u' {
                AppView { input_mode: InputMode::EditingUrl, ..s }
            } else if c == 'h' {
                AppView { input_mode: InputMode::EditingHeaders, ..s }
            } else if c == 'b' {
                AppView { input_mode: InputMode::EditingBody, ..s }
            } else if c == 'j' {
                AppView { is_json_body: !s.is_json_body, ..s }
            } else if c == 'm' {
                AppView { method_index: (s.method_index + 1) % 4, ..s }
            } else if c == 'M' {
                AppView {
                    method_index: if s.method_index == 0 {
                        3
                    } else {
                        s.method_index - 1
                    },
                    ..s
                }
            } else {
                s
            },
            InputEvent::Tab => AppView { active_panel: next_panel(s.active_panel), ..s },
            _ => s,
        },
        InputMode::EditingUrl => match ev {
            InputEvent::Esc => AppView { input_mode: InputMode::Normal, ..s },
            InputEvent::Enter => AppView { input_mode: InputMode::Normal, ..s },
            InputEvent::Char(c) => AppView { url: s.url.push(c), ..s },
            InputEvent::Backspace => AppView {
                url: if s.url.len() > 0 {
                    s.url.drop_last()
                } else {
                    s.url
                },
                ..s
            },
            _ => s,
        },
        InputMode::EditingHeaders => match ev {
            InputEvent::Esc => AppView { input_mode: InputMode::Normal, ..s },
            InputEvent::Enter => AppView { headers_input: s.headers_input.push('\n'), ..s },
            InputEvent::Char(c) => AppView { headers_input: s.headers_input.push(c), ..s },
            InputEvent::Backspace => AppView {
                headers_input: if s.headers_input.len() > 0 {
                    s.headers_input.drop_last()
                } else {
                    s.headers_input
                },
                ..s
            },
            _ => s,
        },
        InputMode::EditingBody => match ev {
            InputEvent::Esc => AppView { input_mode: InputMode::Normal, ..s },
            InputEvent::Enter => AppView { body_input: s.body_input.push('\n'), ..s },
            InputEvent::Char(c) => AppView { body_input: s.body_input.push(c), ..s },
            InputEvent::Backspace => AppView {
                body_input: if s.body_input.len() > 0 {
                    s.body_input.drop_last()
                } else {
                    s.body_input
                },
                ..s
            },
            _ => s,
        },
    }
}

/// Only the send key in normal focus asks the loop to dispatch a request.
pub open spec fn step_action(s: AppView, ev: InputEvent) -> Action {
    if s.input_mode is Normal && ev is Enter {
        Action::Dispatch
    } else {
        Action::Idle
    }
}

impl App {
    /// Applies one input event to the state and reports whether the loop
    /// must now dispatch a send.
    pub fn handle_event(&mut self, ev: InputEvent) -> (act: Action)
        requires
            old(self).wf(),
        ensures
            final(self)@ == step_state(old(self)@, ev),
            act == step_action(old(self)@, ev),
            final(self).wf(),
    {
        match self.input_mode {
            InputMode::Normal => {
                match ev {
                    InputEvent::Char(c) => {
                        if c == 'q' {
                            self.should_quit = true;
                        } else if c == 'u' {
                            self.input_mode = InputMode::EditingUrl;
                        } else if c == 'h' {
                            self.input_mode = InputMode::EditingHeaders;
                        } else if c == 'b' {
                            self.input_mode = InputMode::EditingBody;
                        } else if c == 'j' {
                            self.is_json_body = !self.is_json_body;
                        } else if c == 'm' {
                            self.next_method();
                        } else if c == 'M' {
                            self.previous_method();
                        }
                        Action::Idle
                    },
                    InputEvent::Enter => Action::Dispatch,
                    InputEvent::Tab => {
                        self.active_panel = match self.active_panel {
                            ActivePanel::Request => ActivePanel::Response,
                            ActivePanel::Response => ActivePanel::History,
                            ActivePanel::History => ActivePanel::Request,
                        };
                        Action::Idle
                    },
                    _ => Action::Idle,
                }
            },
            InputMode::EditingUrl => {
                match ev {
                    InputEvent::Esc => self.input_mode = InputMode::Normal,
                    InputEvent::Enter => self.input_mode = InputMode::Normal,
                    InputEvent::Char(c) => crate::text::push_char(&mut self.url, c),
                    InputEvent::Backspace => {
                        crate::text::pop_char(&mut self.url);
                    },
                    _ => {},
                }
                Action::Idle
            },
            InputMode::EditingHeaders => {
                match ev {
                    InputEvent::Esc => self.input_mode = InputMode::Normal,
                    InputEvent::Enter => crate::text::push_char(&mut self.headers_input, '\n'),
                    InputEvent::Char(c) => crate::text::push_char(&mut self.headers_input, c),
                    InputEvent::Backspace => {
                        crate::text::pop_char(&mut self.headers_input);
                    },
                    _ => {},
                }
                Action::Idle
            },
            InputMode::EditingBody => {
                match ev {
                    InputEvent::Esc => self.input_mode = InputMode::Normal,
                    InputEvent::Enter => crate::text::push_char(&mut self.body_input, '\n'),
                    InputEvent::Char(c) => crate::text::push_char(&mut self.body_input, c),
                    InputEvent::Backspace => {
                        crate::text::pop_char(&mut self.body_input);
                    },
                    _ => {},
                }
                Action::Idle
            },
        }
    }
}

/// Why a send attempt was abandoned before any network traffic.
#[derive(Debug)]
pub enum SendError {
    Header(HeaderError),
    Json(JsonError),
}

/// The non-blank lines of the headers buffer: what one send hands to the
/// header parser.
pub open spec fn header_lines_of(s: AppView) -> Seq<Seq<char>> {
    nonblank_lines(s.headers_input)
}

/// A send aborts on its headers when some non-blank header line does not
/// parse.
pub open spec fn send_header_fail(s: AppView) -> bool {
    !all_lines_ok(header_lines_of(s))
}

/// A send aborts on its body when the body is marked as JSON, is not blank,
/// and does not parse as JSON. Header problems are found first.
pub open spec fn send_json_fail(s: AppView) -> bool {
    !is_blank(s.body_input) && s.is_json_body && !json_parses(s.body_input)
}

/// The two states agree on everything but the status line.
pub open spec fn same_but_status(pre: AppView, post: AppView) -> bool {
    post == (AppView { status_message: post.status_message, ..pre })
}

/// The request record a send of this state produces: exactly what goes out
/// on the wire.
pub open spec fn sent_record_view(s: AppView) -> HttpRequestView {
    HttpRequestView {
        method: method_at(s.method_index),
        url: s.url,
        headers: header_lines_of(s),
        body: if is_blank(s.body_input) {
            None
        } else {
            Some(s.body_input)
        },
        is_json: s.is_json_body,
    }
}

/// The header entries the outbound request of a send carries: the parsed
/// non-blank header lines, with `Content-Type: application/json` attached on
/// top exactly when a JSON-marked body goes out.
pub open spec fn sent_builder_headers(s: AppView) -> Map<Seq<char>, Seq<char>> {
    let base = entries_of(header_lines_of(s));
    if !is_blank(s.body_input) && s.is_json_body {
        base.insert(header_name_canon("Content-Type"@), "application/json"@)
    } else {
        base
    }
}

/// The body the outbound request of a send carries: the body buffer
/// verbatim, or nothing when it is blank.
pub open spec fn sent_body_of(s: AppView) -> Option<Seq<char>> {
    if is_blank(s.body_input) {
        None
    } else {
        Some(s.body_input)
    }
}

/// How a received body is stored for display: pretty-printed through the
/// forgiving formatter when its trimmed text opens like JSON, kept verbatim
/// otherwise.
pub open spec fn displayed_body(b: Seq<char>) -> Seq<char> {
    let t = crate::text::trim_of(b);
    if t.len() > 0 && (t[0] == '{' || t[0] == '[') {
        safe_pretty_of(b)
    } else {
        b
    }
}

/// The response record a send stores for the given raw outcome.
pub open spec fn response_record_view(
    status: u16,
    status_text: Seq<char>,
    headers: Seq<(Seq<char>, Seq<char>)>,
    body: Seq<char>,
    duration_ms: u64,
) -> HttpResponseView {
    HttpResponseView {
        status,
        status_text,
        headers,
        body: displayed_body(body),
        duration_ms,
    }
}

impl App {
    /// Validates the composition buffers and builds the outbound request.
    ///
    /// On success the builder is handed back for the loop to dispatch, the
    /// status line announces the send, and nothing else moves. A header line
    /// that does not parse, or a JSON-marked body that does not parse,
    /// aborts the attempt instead: the error is reported in the status line
    /// and the result, and history, the current response and every buffer
    /// stay exactly as they were.
    pub fn start_send(&mut self, client: &reqwest::Client) -> (r: Result<
        reqwest::RequestBuilder,
        SendError,
    >)
        requires
            old(self).wf(),
            header_lines_of(old(self)@).len() <= MAX_HEADER_LINES,
        ensures
            final(self).wf(),
            same_but_status(old(self)@, final(self)@),
            r is Ok <==> !send_header_fail(old(self)@) && !send_json_fail(old(self)@),
            r is Ok ==> final(self)@.status_message == "Sending request..."@,
            r matches Ok(b) ==> builder_usable(b) == usable_url(old(self)@.url),
            r is Ok && builder_usable(r->Ok_0) ==> builder_method(r->Ok_0) == method_at(
                old(self)@.method_index,
            ).name_spec() && builder_url(r->Ok_0) == old(self)@.url && builder_headers(r->Ok_0)
                == sent_builder_headers(old(self)@) && builder_body(r->Ok_0) == sent_body_of(
                old(self)@,
            ),
            r matches Err(SendError::Header(e)) ==> send_header_fail(old(self)@)
                && header_error_matches(&e, header_lines_of(old(self)@))
                && final(self)@.status_message == "Error: "@ + header_error_text(&e),
            r matches Err(SendError::Json(e)) ==> !send_header_fail(old(self)@)
                && send_json_fail(old(self)@) && (e matches JsonError::ParseError(_))
                && starts_with_seq(final(self)@.status_message, "Error: JSON parse error: "@),
    {
        self.status_message = "Sending request...".to_owned();
        let header_lines = split_nonblank_lines(self.headers_input.as_str());
        proof {
            assert(seq_views(header_lines@) =~= header_lines_of(old(self)@));
        }
        let request = match self.current_method() {
            HttpMethodType::Get => client_get(client, self.url.as_str()),
            HttpMethodType::Post => client_post(client, self.url.as_str()),
            HttpMethodType::Put => client_put(client, self.url.as_str()),
            HttpMethodType::Delete => client_delete(client, self.url.as_str()),
        };
        let request = match add_headers_to_request(request, header_lines.as_slice()) {
            Ok(rq) => {
                proof {
                    if builder_usable(rq) {
                        assert(builder_headers(rq) =~= entries_of(header_lines_of(old(self)@)));
                    }
                }
                rq
            },
            Err(e) => {
                let mut msg = String::new();
                msg.append("Error: ");
                let detail = e.message();
                msg.append(detail.as_str());
                self.status_message = msg;
                return Err(SendError::Header(e));
            },
        };
        let request = if !is_blank_str(self.body_input.as_str()) {
            if self.is_json_body {
                match validate_json(self.body_input.as_str()) {
                    Ok(_) => {},
                    Err(je) => {
                        let mut msg = String::new();
                        msg.append("Error: ");
                        let detail = je.message();
                        msg.append(detail.as_str());
                        proof {
                            reveal_strlit("Error: ");
                            reveal_strlit("JSON parse error: ");
                            reveal_strlit("Error: JSON parse error: ");
                            let e7 = "Error: "@;
                            let j18 = "JSON parse error: "@;
                            let full = "Error: JSON parse error: "@;
                            assert(msg@ =~= e7 + detail@);
                            assert(full =~= e7 + j18);
                            let d18 = detail@.subrange(0, j18.len() as int);
                            assert(d18 == j18);
                            assert forall|i: int| 0 <= i < full.len() implies msg@[i] == full[i] by {
                                if i >= 7 {
                                    assert(msg@[i] == detail@[i - 7]);
                                    assert(detail@[i - 7] == d18[i - 7]);
                                    assert(full[i] == j18[i - 7]);
                                }
                            }
                            assert(msg@.subrange(0, full.len() as int) =~= full);
                        }
                        self.status_message = msg;
                        return Err(SendError::Json(je));
                    },
                }
                proof {
                    reveal_strlit("Content-Type");
                    reveal_strlit("application/json");
                    assert(valid_header_name("Content-Type"@));
                    assert(valid_header_value("application/json"@));
                }
                request_with_body(
                    request_with_header(request, "Content-Type", "application/json"),
                    self.body_input.clone(),
                )
            } else {
                request_with_body(request, self.body_input.clone())
            }
        } else {
            request
        };
        Ok(request)
    }

    /// Records the outcome of a dispatched request that came back.
    ///
    /// The received body is stored pretty-printed when it opens like JSON.
    /// Exactly one entry, pairing the request as it was sent with the stored
    /// response, is appended to history; the same response becomes the
    /// current one; the response panel takes over; and the status line
    /// reports the round-trip time.
    pub fn finish_send_success(
        &mut self,
        status: u16,
        status_text: String,
        resp_headers: Vec<(String, String)>,
        body: String,
        duration_ms: u64,
    )
        requires
            old(self).wf(),
        ensures
            final(self).wf(),
            final(self)@ == (AppView {
                request_history: old(self)@.request_history.push(
                    (
                        sent_record_view(old(self)@),
                        Some(
                            response_record_view(
                                status,
                                status_text@,
                                pair_views(resp_headers@),
                                body@,
                                duration_ms,
                            ),
                        ),
                    ),
                ),
                current_response: Some(
                    response_record_view(
                        status,
                        status_text@,
                        pair_views(resp_headers@),
                        body@,
                        duration_ms,
                    ),
                ),
                active_panel: ActivePanel::Response,
                status_message: "Request completed in "@ + dec_str_of(duration_ms as nat) + "ms"@,
                ..old(self)@
            }),
    {
        let ghost pre = old(self)@;
        let ghost status_text0 = status_text@;
        let ghost resp_headers0 = resp_headers@;
        let ghost body0 = body@;

        let trimmed = trim_str(body.as_str());
        let t = trimmed.as_str();
        let pretty_body: String = if t.unicode_len() > 0 && (t.get_char(0) == '{' || t.get_char(0)
            == '[') {
            pretty_print_json_safe(body.as_str())
        } else {
            body
        };
        assert(pretty_body@ == displayed_body(body0));

        let header_lines = split_nonblank_lines(self.headers_input.as_str());
        proof {
            assert(seq_views(header_lines@) =~= header_lines_of(pre));
        }
        let record_body: Option<String> = if is_blank_str(self.body_input.as_str()) {
            None
        } else {
            Some(self.body_input.clone())
        };
        let http_request = HttpRequest {
            method: self.current_method(),
            url: self.url.clone(),
            headers: header_lines,
            body: record_body,
            is_json: self.is_json_body,
        };
        let current = HttpResponse {
            status,
            status_text: status_text.clone(),
            headers: Self::clone_string_pairs(&resp_headers),
            body: pretty_body.clone(),
            duration_ms,
        };
        let http_response = HttpResponse {
            status,
            status_text,
            headers: resp_headers,
            body: pretty_body,
            duration_ms,
        };
        let ghost resp_view = response_record_view(
            status,
            status_text0,
            pair_views(resp_headers0),
            body0,
            duration_ms,
        );
        proof {
            assert(http_response@ =~= resp_view);
            assert(current@ =~= resp_view);
            assert(http_request@ =~= sent_record_view(pre));
        }
        self.request_history.push((http_request, Some(http_response)));
        self.current_response = Some(current);
        self.active_panel = ActivePanel::Response;
        let mut msg = String::new();
        msg.append("Request completed in ");
        let digits = u64_to_string(duration_ms);
        msg.append(digits.as_str());
        msg.append("ms");
        self.status_message = msg;
        proof {
            let post = AppView {
                request_history: pre.request_history.push((sent_record_view(pre), Some(resp_view))),
                current_response: Some(resp_view),
                active_panel: ActivePanel::Response,
                status_message: "Request completed in "@ + dec_str_of(duration_ms as nat) + "ms"@,
                ..pre
            };
            assert(self@.status_message =~= post.status_message);
            assert(self@.request_history =~~= post.request_history);
            assert(self@ =~~= post);
        }
    }

    /// Makes a deep copy of a list of name/value string pairs.
    fn clone_string_pairs(pairs: &Vec<(String, String)>) -> (r: Vec<(String, String)>)
        ensures
            pair_views(r@) == pair_views(pairs@),
    {
        let mut r: Vec<(String, String)> = Vec::new();
        let mut i: usize = 0;
        while i < pairs.len()
            invariant
                i <= pairs@.len(),
                r@.len() == i,
                forall|k: int|
                    0 <= k < i ==> (#[trigger] r@[k]).0@ == pairs@[k].0@ && r@[k].1@
                        == pairs@[k].1@,
            decreases pairs@.len() - i,
        {
            let name = pairs[i].0.clone();
            let value = pairs[i].1.clone();
            r.push((name, value));
            i = i + 1;
        }
        proof {
            assert(pair_views(r@) =~= pair_views(pairs@));
        }
        r
    }

    /// Records a dispatch that failed on the wire: the failure text goes to
    /// the status line and nothing else moves — history and the current
    /// response in particular survive untouched.
    pub fn finish_send_failure(&mut self, error_text: &str)
        requires
            old(self).wf(),
        ensures
            final(self).wf(),
            final(self)@ == (AppView {
                status_message: "Error: "@ + error_text@,
                ..old(self)@
            }),
    {
        let mut msg = String::new();
        msg.append("Error: ");
        msg.append(error_text);
        self.status_message = msg;
    }
}

impl HttpResponse {
    /// The status line the response panel shows: code, reason text and the
    /// round-trip time.
    pub fn status_line_text(&self) -> (r: String)
        ensures
            r@ == dec_str_of(self.status as nat) + " "@ + self.status_text@ + " ("@ + dec_str_of(
                self.duration_ms as nat,
            ) + "ms)"@,
    {
        let mut line = u64_to_string(self.status as u64);
        line.append(" ");
        line.append(self.status_text.as_str());
        line.append(" (");
        let digits = u64_to_string(self.duration_ms);
        line.append(digits.as_str());
        line.append("ms)");
        line
    }
}

/// The broad class a status code draws as: success, error, or the rest in
/// between.
#[derive(Debug, Clone, Copy, PartialEq, Eq, Structural)]
pub enum StatusClass {
    Success,
    Error,
    Other,
}

/// How the response panel classes a status code: the two-hundreds are a
/// success, four hundred and up an error, anything else in between.
pub open spec fn status_class_of(status: u16) -> StatusClass {
    if 200 <= status && status < 300 {
        StatusClass::Success
    } else if status >= 400 {
        StatusClass::Error
    } else {
        StatusClass::Other
    }
}

impl HttpResponse {
    pub fn status_class(&self) -> (r: StatusClass)
        ensures
            r == status_class_of(self.status),
    {
        if self.status >= 200 && self.status < 300 {
            StatusClass::Success
        } else if self.status >= 400 {
            StatusClass::Error
        } else {
            StatusClass::Other
        }
    }

    /// The headers the response panel shows: the first four, in order.
    pub fn displayed_headers(&self) -> (r: Vec<(String, String)>)
        ensures
            r@.len() == if self.headers@.len() < 4 {
                self.headers@.len() as int
            } else {
                4int
            },
            forall|i: int|
                0 <= i < r@.len() ==> (#[trigger] r@[i]).0@ == self.headers@[i].0@ && r@[i].1@
                    == self.headers@[i].1@,
    {
        let mut r: Vec<(String, String)> = Vec::new();
        let mut i: usize = 0;
        while i < 4 && i < self.headers.len()
            invariant
                i <= 4,
                i <= self.headers@.len(),
                r@.len() == i,
                forall|k: int|
                    0 <= k < i ==> (#[trigger] r@[k]).0@ == self.headers@[k].0@ && r@[k].1@
                        == self.headers@[k].1@,
            decreases 4 - i,
        {
            let name = self.headers[i].0.clone();
            let value = self.headers[i].1.clone();
            r.push((name, value));
            i = i + 1;
        }
        r
    }
}

/// One displayed response header, in `name: value` form.
pub fn header_display_line(name: &str, value: &str) -> (r: String)
    ensures
        r@ == name@ + ": "@ + value@,
{
    let mut line = name.to_owned();
    line.append(": ");
    line.append(value);
    proof {
        assert(line@ =~= name@ + ": "@ + value@);
    }
    line
}

/// The status shown for one history entry: the response's code, or an
/// ellipsis while there is none.
pub open spec fn entry_status_text(resp: Option<HttpResponseView>) -> Seq<char> {
    match resp {
        Some(r) => dec_str_of(r.status as nat),
        None => "..."@,
    }
}

/// One numbered line of the history panel.
pub fn history_line(index: usize, entry: &(HttpRequest, Option<HttpResponse>)) -> (r: String)
    requires
        index < usize::MAX,
    ensures
        r@ == dec_str_of(index as nat + 1) + ": "@ + entry.0.method.name_spec() + " "@
            + entry.0.url@ + " ["@ + entry_status_text(entry_view(*entry).1) + "]"@,
{
    let mut line = u64_to_string((index as u64) + 1);
    line.append(": ");
    line.append(entry.0.method.name());
    line.append(" ");
    line.append(entry.0.url.as_str());
    line.append(" [");
    match &entry.1 {
        Some(resp) => {
            let digits = u64_to_string(resp.status as u64);
            line.append(digits.as_str());
        },
        None => {
            line.append("...");
        },
    }
    line.append("]");
    line
}

impl App {
    /// The status bar text of a frame.
    pub fn status_bar_text(&self) -> (r: String)
        ensures
            r@ == " Status: "@ + self.status_message@ + " | Press 'q' to quit, 'h' for help"@,
    {
        let mut line = String::new();
        line.append(" Status: ");
        line.append(self.status_message.as_str());
        line.append(" | Press 'q' to quit, 'h' for help");
        proof {
            assert(line@ =~= " Status: "@ + self.status_message@
                + " | Press 'q' to quit, 'h' for help"@);
        }
        line
    }

    /// The method-and-URL line of the request panel.
    pub fn request_line_text(&self) -> (r: String)
        requires
            self.wf(),
        ensures
            r@ == method_at(self@.method_index).name_spec() + " "@ + self.url@,
    {
        let method = self.current_method();
        let mut line = method.name().to_owned();
        line.append(" ");
        line.append(self.url.as_str());
        proof {
            assert(line@ =~= method_at(self@.method_index).name_spec() + " "@ + self.url@);
        }
        line
    }

    /// The title over the body field, marking whether the body is sent as
    /// JSON.
    pub fn body_panel_title(&self) -> (r: &'static str)
        ensures
            self.is_json_body ==> r@ == "Body (JSON)"@,
            !self.is_json_body ==> r@ == "Body"@,
    {
        if self.is_json_body {
            "Body (JSON)"
        } else {
            "Body"
        }
    }
}

} // verus!
