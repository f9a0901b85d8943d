use vstd::prelude::*;

use crate::text::{is_json_like_shape, starts_with_seq, trim_of, trim_str};

verus! {

#[verifier::external_type_specification]
#[verifier::external_body]
pub struct ExSerdeJsonError(serde_json::Error);

#[derive(Debug)]
pub enum JsonError {
    InvalidJSon(String),
    ParseError(serde_json::Error),
}

/// Whether `serde_json::from_str::<serde_json::Value>` accepts the text: it
/// depends on the characters alone.
pub uninterp spec fn json_parses(s: Seq<char>) -> bool;

/// The pretty-printed form that parsing the text as a `serde_json::Value` and
/// serialising it again with `serde_json::to_string_pretty` produces: a
/// function of the characters alone.
pub uninterp spec fn json_pretty_of(s: Seq<char>) -> Seq<char>;

/// The minified form that parsing the text as a `serde_json::Value` and
/// serialising it again with `serde_json::to_string` produces: a function of
/// the characters alone.
pub uninterp spec fn json_min_of(s: Seq<char>) -> Seq<char>;

/// Relies on `serde_json::from_str::<serde_json::Value>`: it returns `Ok`
/// exactly when the text is syntactically valid JSON.
#[verifier::external_body]
fn check_json_syntax(text: &str) -> (r: Result<(), serde_json::Error>)
    ensures
        r is Ok <==> json_parses(text@),
{
    match serde_json::from_str::<serde_json::Value>(text) {
        Ok(_) => Ok(()),
        Err(e) => Err(e),
    }
}

/// Relies on `serde_json::from_str::<serde_json::Value>`, which succeeds
/// exactly on syntactically valid JSON, and on `serde_json::to_string_pretty`,
/// which cannot fail on a `serde_json::Value` (its maps are keyed by strings
/// and its `Serialize` never reports an error). The round-trip clauses rely
/// on serde_json printing a parsed value as text that parses back to the
/// equal value, and printing equal values identically: the pretty form
/// parses, reformatting it either way changes nothing that minifying sees,
/// and a text that opens and closes like an object or array parses to one,
/// whose pretty form opens and closes the same way.
#[verifier::external_body]
fn reformat_json_pretty(text: &str) -> (r: Result<String, serde_json::Error>)
    ensures
        r is Ok <==> json_parses(text@),
        r matches Ok(p) ==> p@ == json_pretty_of(text@),
        r matches Ok(p) ==> json_parses(p@),
        r matches Ok(p) ==> json_min_of(p@) == json_min_of(text@),
        r matches Ok(p) ==> json_pretty_of(p@) == p@,
        r is Ok && is_json_like_of(text@) ==> is_json_like_of(json_pretty_of(text@)),
{
    let parsed: serde_json::Value = serde_json::from_str(text)?;
    let pretty = serde_json::to_string_pretty(&parsed)?;
    Ok(pretty)
}

/// Relies on `serde_json::from_str::<serde_json::Value>` and
/// `serde_json::to_string`, exactly as `reformat_json_pretty` does on its
/// pretty-printing counterpart, round-trip clauses included: the minified
/// form parses, and minifying it again changes nothing.
#[verifier::external_body]
fn reformat_json_minified(text: &str) -> (r: Result<String, serde_json::Error>)
    ensures
        r is Ok <==> json_parses(text@),
        r matches Ok(p) ==> p@ == json_min_of(text@),
        r matches Ok(p) ==> json_parses(p@),
        r matches Ok(p) ==> json_min_of(p@) == p@,
{
    let parsed: serde_json::Value = serde_json::from_str(text)?;
    let minified = serde_json::to_string(&parsed)?;
    Ok(minified)
}

/// Relies on the `Display` impl of `serde_json::Error` for a human-readable
/// description of the syntax error.
#[verifier::external_body]
fn serde_error_string(e: &serde_json::Error) -> String {
    format!("{}", e)
}

impl From<serde_json::Error> for JsonError {
    fn from(error: serde_json::Error) -> Self {
        JsonError::ParseError(error)
    }
}

impl vstd::std_specs::convert::FromSpecImpl<serde_json::Error> for JsonError {
    open spec fn obeys_from_spec() -> bool {
        true
    }

    open spec fn from_spec(error: serde_json::Error) -> Self {
        JsonError::ParseError(error)
    }
}

impl JsonError {
    /// The human-readable description the error renders to.
    pub fn message(&self) -> (r: String)
        ensures
            self matches JsonError::InvalidJSon(t) ==> r@ == "Invalid JSON: "@ + t@,
            self matches JsonError::ParseError(_) ==> starts_with_seq(r@, "JSON parse error: "@),
    {
        match self {
            JsonError::InvalidJSon(text) => {
                let mut m = String::new();
                m.append("Invalid JSON: ");
                m.append(text.as_str());
                m
            },
            JsonError::ParseError(e) => {
                let mut m = String::new();
                m.append("JSON parse error: ");
                let detail = serde_error_string(e);
                m.append(detail.as_str());
                assert(starts_with_seq(m@, "JSON parse error: "@)) by {
                    assert(m@.subrange(0, "JSON parse error: "@.len() as int) =~= (
                    "JSON parse error: "@));
                }
                m
            },
        }
    }
}

/// The structural JSON heuristic: after trimming, the text opens with `{` and
/// closes with `}`, or opens with `[` and closes with `]`.
pub open spec fn is_json_like_of(s: Seq<char>) -> bool {
    is_json_like_shape(trim_of(s))
}

pub fn is_json_like(text: &str) -> (r: bool)
    ensures
        r == is_json_like_of(text@),
{
    let trimmed = trim_str(text);
    let t = trimmed.as_str();
    let n = t.unicode_len();
    if n == 0 {
        return false;
    }
    let open = t.get_char(0);
    let close = t.get_char(n - 1);
    (open == '{' && close == '}') || (open == '[' && close == ']')
}

/// What the forgiving pretty-printer hands back: the pretty-printed form when
/// the text both looks like JSON and parses, the text itself otherwise.
pub open spec fn safe_pretty_of(s: Seq<char>) -> Seq<char> {
    if is_json_like_of(s) && json_parses(s) {
        json_pretty_of(s)
    } else {
        s
    }
}

pub fn pretty_print_json(text: &str) -> (r: Result<String, JsonError>)
    ensures
        r is Ok <==> is_json_like_of(text@) && json_parses(text@),
        r matches Ok(p) ==> p@ == json_pretty_of(text@),
        r matches Ok(p) ==> json_parses(p@) && is_json_like_of(p@) && json_pretty_of(p@) == p@
            && json_min_of(p@) == json_min_of(text@),
        !is_json_like_of(text@) ==> (r matches Err(e) && e matches JsonError::InvalidJSon(t)
            && t@ == "Text doesn't look like JSON"@),
        is_json_like_of(text@) && !json_parses(text@) ==> (r matches Err(e) && e matches
            JsonError::ParseError(_)),
{
    if !is_json_like(text) {
        return Err(JsonError::InvalidJSon("Text doesn't look like JSON".to_owned()));
    }
    match reformat_json_pretty(text) {
        Ok(pretty) => Ok(pretty),
        Err(e) => Err(JsonError::ParseError(e)),
    }
}

pub fn pretty_print_json_safe(text: &str) -> (r: String)
    ensures
        r@ == safe_pretty_of(text@),
        is_json_like_of(text@) && json_parses(text@) ==> json_parses(r@) && is_json_like_of(r@)
            && json_pretty_of(r@) == r@ && json_min_of(r@) == json_min_of(text@),
{
    match pretty_print_json(text) {
        Ok(pretty) => pretty,
        Err(_) => text.to_owned(),
    }
}

pub fn validate_json(text: &str) -> (r: Result<(), JsonError>)
    ensures
        r is Ok <==> json_parses(text@),
        r matches Err(e) ==> e matches JsonError::ParseError(_),
{
    match check_json_syntax(text) {
        Ok(()) => Ok(()),
        Err(e) => Err(JsonError::ParseError(e)),
    }
}

pub fn minify_json(text: &str) -> (r: Result<String, JsonError>)
    ensures
        r is Ok <==> json_parses(text@),
        r matches Ok(p) ==> p@ == json_min_of(text@),
        r matches Ok(p) ==> json_parses(p@) && json_min_of(p@) == p@,
        r matches Err(e) ==> e matches JsonError::ParseError(_),
{
    match reformat_json_minified(text) {
        Ok(minified) => Ok(minified),
        Err(e) => Err(JsonError::ParseError(e)),
    }
}

} // verus!
