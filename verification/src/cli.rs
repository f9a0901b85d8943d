use vstd::prelude::*;

use crate::json::{
    is_json_like, is_json_like_of, json_parses, pretty_print_json_safe, safe_pretty_of,
    validate_json, JsonError,
};
use crate::text::{contains_seq, str_contains};

verus! {

/// How a one-shot POST or PUT takes its body from the command line options.
#[derive(Debug)]
pub enum BodyArg {
    Empty,
    Raw(String),
    Json(String),
}

/// What the one-shot response printer shows for a body: put through the
/// forgiving pretty-printer when the content type names JSON or the body
/// itself looks like it, shown verbatim otherwise.
pub open spec fn rendered_body_of(content_type: Seq<char>, body: Seq<char>) -> Seq<char> {
    if contains_seq(content_type, "application/json"@) || is_json_like_of(body) {
        safe_pretty_of(body)
    } else {
        body
    }
}

pub fn render_response_body(content_type: &str, body: &str) -> (r: String)
    ensures
        r@ == rendered_body_of(content_type@, body@),
{
    if str_contains(content_type, "application/json") || is_json_like(body) {
        pretty_print_json_safe(body)
    } else {
        body.to_owned()
    }
}

/// Decides what body a one-shot POST or PUT sends: raw text and a JSON body
/// exclude each other, and a JSON body must parse before anything goes out.
pub fn resolve_body_args(data: Option<String>, json: Option<String>) -> (r: Result<
    BodyArg,
    JsonError,
>)
    ensures
        (data is Some && json is Some) ==> {
            &&& r matches Err(e)
            &&& e matches JsonError::InvalidJSon(t)
            &&& t@ == "Cannot use both --data and --json options"@
        },
        json is Some && data is None && json_parses(json->Some_0@) ==> {
            &&& r matches Ok(b)
            &&& b matches BodyArg::Json(jj)
            &&& jj@ == json->Some_0@
        },
        json is Some && data is None && !json_parses(json->Some_0@) ==> {
            &&& r matches Err(e)
            &&& e matches JsonError::ParseError(_)
        },
        data is Some && json is None ==> {
            &&& r matches Ok(b)
            &&& b matches BodyArg::Raw(dd)
            &&& dd@ == data->Some_0@
        },
        (data is None && json is None) ==> (r matches Ok(b) && b is Empty),
{
    match (data, json) {
        (Some(_), Some(_)) => Err(
            JsonError::InvalidJSon("Cannot use both --data and --json options".to_owned()),
        ),
        (None, Some(j)) => match validate_json(j.as_str()) {
            Ok(_) => Ok(BodyArg::Json(j)),
            Err(e) => Err(e),
        },
        (Some(d), None) => Ok(BodyArg::Raw(d)),
        (None, None) => Ok(BodyArg::Empty),
    }
}

} // verus!
