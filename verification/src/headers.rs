use vstd::prelude::*;

use crate::text::{find_char, first_idx_of, seq_views, trim_of, trim_str};
use crate::transport::{
    builder_body, builder_headers, builder_method, builder_slots, builder_url, builder_usable,
    request_with_header_map,
};

verus! {

#[verifier::external_type_specification]
#[verifier::external_body]
#[verifier::reject_recursive_types(T)]
pub struct ExHeaderMap<T>(reqwest::header::HeaderMap<T>);

#[verifier::external_type_specification]
#[verifier::external_body]
pub struct ExHeaderName(reqwest::header::HeaderName);

#[verifier::external_type_specification]
#[verifier::external_body]
pub struct ExHeaderValue(reqwest::header::HeaderValue);

/// The most header lines one call is willing to pass on to the header map.
/// The map itself aborts the process only near its hard capacity of
/// `1 << 15` slots (growth begins refusing around three quarters of that),
/// so this deliberately generous margin trades a sliver of capacity no real
/// request approaches for a bound that stays safe however the map's load
/// factor shifts.
pub const MAX_HEADER_LINES: usize = 4096;

#[derive(Debug)]
pub enum HeaderError {
    InvalidFormat(String),
    InvalidName(String),
    InvalidValue(String),
}

/// The characters a header name may hold: ASCII letters and digits and the
/// token punctuation `! # $ % & ' * + - . ^ _ ` | ~`.
pub open spec fn is_header_name_char(c: char) -> bool {
    (0x61 <= c as u32 && c as u32 <= 0x7a) || (0x41 <= c as u32 && c as u32 <= 0x5a) || (0x30
        <= c as u32 && c as u32 <= 0x39) || c == '!' || c == '#' || c == '$' || c == '%' || c == '&'
        || c == '\'' || c == '*' || c == '+' || c == '-' || c == '.' || c == '^' || c == '_' || c
        == '`' || c == '|' || c == '~'
}

/// The texts `HeaderName::from_str` accepts: non-empty, at most 65535
/// characters — all its characters are ASCII, so characters count bytes —
/// and token characters only.
pub open spec fn valid_header_name(s: Seq<char>) -> bool {
    s.len() > 0 && s.len() <= 0xffff && forall|i: int|
        0 <= i < s.len() ==> is_header_name_char(#[trigger] s[i])
}

/// The characters a header value may hold: a tab, or anything from the
/// space on except delete. A character past ASCII encodes to bytes that all
/// pass the same test.
pub open spec fn is_header_value_char(c: char) -> bool {
    c == '\t' || (32 <= c as u32 && c as u32 != 127)
}

/// The texts `HeaderValue::from_str` accepts.
pub open spec fn valid_header_value(s: Seq<char>) -> bool {
    forall|i: int| 0 <= i < s.len() ==> is_header_value_char(#[trigger] s[i])
}

/// An ASCII capital letter lowered; any other character kept.
pub open spec fn ascii_lower_char(c: char) -> char {
    if 0x41 <= c as u32 && c as u32 <= 0x5a {
        ((c as u32) + 0x20) as char
    } else {
        c
    }
}

/// The canonical text `HeaderName::from_str` stores for an accepted name:
/// its ASCII-lowercased form.
pub open spec fn header_name_canon(s: Seq<char>) -> Seq<char>
    decreases s.len(),
{
    if s.len() == 0 {
        Seq::empty()
    } else {
        header_name_canon(s.drop_last()).push(ascii_lower_char(s.last()))
    }
}

/// How many entries a header map holds.
pub uninterp spec fn header_map_len(m: reqwest::header::HeaderMap) -> nat;

/// What a header map holds: for each canonical header name, the last value
/// set under it.
pub uninterp spec fn header_map_entries(m: reqwest::header::HeaderMap) -> Map<Seq<char>, Seq<char>>;

/// The entry map with nothing in it.
pub open spec fn no_entries() -> Map<Seq<char>, Seq<char>> {
    Map::empty()
}

/// Relies on `HeaderMap::new`: the new map is empty.
#[verifier::external_body]
fn new_header_map() -> (m: reqwest::header::HeaderMap)
    ensures
        header_map_len(m) == 0,
        header_map_entries(m) == no_entries(),
{
    reqwest::header::HeaderMap::new()
}

/// Relies on `str::parse::<HeaderName>`, that is http's `FromStr`: its
/// byte table accepts exactly the token-character texts, and it rejects an
/// empty name and one past its 65535-byte cap, as `valid_header_name`
/// describes.
#[verifier::external_body]
fn check_header_name(s: &str) -> (r: bool)
    ensures
        r == valid_header_name(s@),
{
    s.parse::<reqwest::header::HeaderName>().is_ok()
}

/// Relies on `str::parse::<HeaderValue>`, that is http's `FromStr`: it
/// tests each byte for tab-or-printable exactly as `valid_header_value`
/// describes per character.
#[verifier::external_body]
fn check_header_value(s: &str) -> (r: bool)
    ensures
        r == valid_header_value(s@),
{
    s.parse::<reqwest::header::HeaderValue>().is_ok()
}

/// Relies on `str::parse` for `HeaderName` and `HeaderValue` — which accept
/// the two texts, as the caller must have established — and on
/// `HeaderMap::insert`, which replaces every value under the name with this
/// one, growing the map by at most one entry. The parsed name is the ASCII
/// lowercasing of the given text, and the parsed value keeps the text's
/// bytes, so the entry set gains exactly the canonical name with this
/// value. Insertion can abort only when the map outgrows its hard capacity
/// of `1 << 15` slots, which the bound on the entry count keeps far out of
/// reach.
#[verifier::external_body]
fn insert_parsed_header(m: &mut reqwest::header::HeaderMap, key: &str, value: &str)
    requires
        valid_header_name(key@),
        valid_header_value(value@),
        header_map_len(*old(m)) < MAX_HEADER_LINES,
    ensures
        header_map_len(*final(m)) <= header_map_len(*old(m)) + 1,
        header_map_entries(*final(m)) == header_map_entries(*old(m)).insert(
            header_name_canon(key@),
            value@,
        ),
{
    let name = key.parse::<reqwest::header::HeaderName>().unwrap();
    let val = value.parse::<reqwest::header::HeaderValue>().unwrap();
    m.insert(name, val);
}

/// Whether the line has the `Key: Value` shape at all.
pub open spec fn line_has_colon(s: Seq<char>) -> bool {
    first_idx_of(s, ':') < s.len()
}

/// The trimmed text before the first colon.
pub open spec fn key_part(s: Seq<char>) -> Seq<char> {
    trim_of(s.subrange(0, first_idx_of(s, ':') as int))
}

/// The trimmed text after the first colon.
pub open spec fn value_part(s: Seq<char>) -> Seq<char> {
    trim_of(s.subrange(first_idx_of(s, ':') as int + 1, s.len() as int))
}

/// A header line parses when it has a colon, its key is a valid header name
/// and its value a valid header value.
pub open spec fn header_line_ok(s: Seq<char>) -> bool {
    line_has_colon(s) && valid_header_name(key_part(s)) && valid_header_value(value_part(s))
}

/// The first `k` of the lines all parse.
pub open spec fn lines_ok_upto(lines: Seq<Seq<char>>, k: int) -> bool {
    forall|j: int| 0 <= j < k ==> header_line_ok(#[trigger] lines[j])
}

/// All of the lines parse.
pub open spec fn all_lines_ok(lines: Seq<Seq<char>>) -> bool {
    lines_ok_upto(lines, lines.len() as int)
}

/// The error that parsing reports describes this line: the right variant for
/// the first check the line fails, holding the offending fragment.
pub open spec fn header_error_matches_line(e: &HeaderError, line: Seq<char>) -> bool {
    match e {
        HeaderError::InvalidFormat(h) => !line_has_colon(line) && h@ == line,
        HeaderError::InvalidName(n) => line_has_colon(line) && !valid_header_name(key_part(line))
            && n@ == key_part(line),
        HeaderError::InvalidValue(v) => line_has_colon(line) && valid_header_name(key_part(line))
            && !valid_header_value(value_part(line)) && v@ == value_part(line),
    }
}

/// The error describes the first line of the list that does not parse.
pub open spec fn header_error_matches(e: &HeaderError, lines: Seq<Seq<char>>) -> bool {
    exists|i: int|
        0 <= i < lines.len() && lines_ok_upto(lines, i) && !header_line_ok(#[trigger] lines[i])
            && header_error_matches_line(e, lines[i])
}

/// The entry map a list of header lines produces: each line is split at its
/// first colon and trimmed, lines apply in order, so a repeated name keeps
/// the last line's value.
pub open spec fn entries_of(lines: Seq<Seq<char>>) -> Map<Seq<char>, Seq<char>>
    decreases lines.len(),
{
    if lines.len() == 0 {
        Map::empty()
    } else {
        let l = lines.last();
        entries_of(lines.drop_last()).insert(header_name_canon(key_part(l)), value_part(l))
    }
}

/// The text the error renders to.
pub open spec fn header_error_text(e: &HeaderError) -> Seq<char> {
    match e {
        HeaderError::InvalidFormat(h) => "Invalid header format: '"@ + h@
            + "'. Use 'Key: Value' format"@,
        HeaderError::InvalidName(n) => "Invalid header name: '"@ + n@ + "'"@,
        HeaderError::InvalidValue(v) => "Invalid header value: '"@ + v@ + "'"@,
    }
}

impl HeaderError {
    /// The human-readable description the error renders to.
    pub fn message(&self) -> (r: String)
        ensures
            r@ == header_error_text(self),
    {
        let mut m = String::new();
        match self {
            HeaderError::InvalidFormat(h) => {
                m.append("Invalid header format: '");
                m.append(h.as_str());
                m.append("'. Use 'Key: Value' format");
            },
            HeaderError::InvalidName(n) => {
                m.append("Invalid header name: '");
                m.append(n.as_str());
                m.append("'");
            },
            HeaderError::InvalidValue(v) => {
                m.append("Invalid header value: '");
                m.append(v.as_str());
                m.append("'");
            },
        }
        m
    }
}

/// Turns `Key: Value` lines into a header map. Each line is split at its
/// first colon, both halves are trimmed, and the halves must pass the header
/// name and value grammars; the first line to fail decides the error.
pub fn parse_headers(headers: &[String]) -> (r: Result<reqwest::header::HeaderMap, HeaderError>)
    requires
        headers@.len() <= MAX_HEADER_LINES,
    ensures
        r is Ok <==> all_lines_ok(seq_views(headers@)),
        r matches Ok(m) ==> header_map_entries(m) == entries_of(seq_views(headers@))
            && header_map_len(m) <= headers@.len(),
        r matches Err(e) ==> header_error_matches(&e, seq_views(headers@)),
{
    let ghost lines = seq_views(headers@);
    let mut header_map = new_header_map();
    let mut idx: usize = 0;
    while idx < headers.len()
        invariant
            idx <= headers@.len() <= MAX_HEADER_LINES,
            lines == seq_views(headers@),
            header_map_len(header_map) <= idx,
            header_map_entries(header_map) == entries_of(lines.take(idx as int)),
            lines_ok_upto(lines, idx as int),
        decreases headers@.len() - idx,
    {
        let line: &String = &headers[idx];
        assert(line@ == lines[idx as int]);
        let s = line.as_str();
        let n = s.unicode_len();
        let j = find_char(s, ':');
        if j < n {
            let key = trim_str(s.substring_char(0, j));
            let value = trim_str(s.substring_char(j + 1, n));
            assert(key@ == key_part(lines[idx as int]));
            assert(value@ == value_part(lines[idx as int]));
            if check_header_name(key.as_str()) {
                if check_header_value(value.as_str()) {
                    insert_parsed_header(&mut header_map, key.as_str(), value.as_str());
                    proof {
                        let taken = lines.take(idx + 1);
                        assert(taken.drop_last() =~= lines.take(idx as int));
                        assert(taken.last() == lines[idx as int]);
                        assert(entries_of(taken) == entries_of(lines.take(idx as int)).insert(
                            header_name_canon(key_part(lines[idx as int])),
                            value_part(lines[idx as int]),
                        ));
                    }
                } else {
                    return Err(HeaderError::InvalidValue(value));
                }
            } else {
                return Err(HeaderError::InvalidName(key));
            }
        } else {
            return Err(HeaderError::InvalidFormat(line.clone()));
        }
        idx = idx + 1;
    }
    proof {
        assert(lines.take(lines.len() as int) == lines);
    }
    Ok(header_map)
}

/// Attaches the parsed header lines to an outbound request; an empty list
/// hands the request back untouched, and a line that does not parse fails
/// the whole call with that line's error.
pub fn add_headers_to_request(
    request: reqwest::RequestBuilder,
    headers: &[String],
) -> (r: Result<reqwest::RequestBuilder, HeaderError>)
    requires
        headers@.len() <= MAX_HEADER_LINES,
        builder_slots(request) + headers@.len() < 0x2000,
    ensures
        r is Ok <==> all_lines_ok(seq_views(headers@)),
        headers@.len() == 0 ==> {
            &&& r matches Ok(b)
            &&& b == request
        },
        r matches Ok(b) ==> builder_usable(b) == builder_usable(request) && builder_slots(b)
            <= builder_slots(request) + headers@.len() && builder_method(b) == builder_method(
            request,
        ) && builder_url(b) == builder_url(request) && builder_body(b) == builder_body(request),
        r is Ok && builder_usable(r->Ok_0) ==> builder_headers(r->Ok_0) == builder_headers(
            request,
        ).union_prefer_right(entries_of(seq_views(headers@))),
        r matches Err(e) ==> header_error_matches(&e, seq_views(headers@)),
{
    if headers.len() == 0 {
        proof {
            assert(seq_views(headers@).len() == 0);
            assert(builder_headers(request).union_prefer_right(entries_of(seq_views(headers@)))
                =~= builder_headers(request));
        }
        return Ok(request);
    }
    match parse_headers(headers) {
        Ok(header_map) => Ok(request_with_header_map(request, header_map)),
        Err(e) => Err(e),
    }
}

} // verus!