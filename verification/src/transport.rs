use vstd::prelude::*;

use crate::headers::{
    header_map_entries, header_map_len, header_name_canon, no_entries, valid_header_name,
    valid_header_value,
};

verus! {

#[verifier::external_type_specification]
#[verifier::external_body]
pub struct ExClient(reqwest::Client);

#[verifier::external_type_specification]
#[verifier::external_body]
pub struct ExRequestBuilder(reqwest::RequestBuilder);

// The names below model a request builder. A builder is usable while it
// holds a request; one started from a URL the client refuses, or fed a
// header the grammar refuses, holds only that failure, composes nothing
// further, and dispatches nothing when sent. The description names —
// method, URL, headers, body — are therefore claimed only of usable
// builders; of a failed one nothing is said. The slot count bounds how many
// header values the builder physically holds, which is what its header
// map's abort capacity watches; a failed builder holds none.

/// Whether the client's URL conversion accepts the text: a function of the
/// characters alone.
pub uninterp spec fn usable_url(s: Seq<char>) -> bool;

/// Whether the builder still holds a request to compose.
pub uninterp spec fn builder_usable(b: reqwest::RequestBuilder) -> bool;

/// The method token of the request the builder composes.
pub uninterp spec fn builder_method(b: reqwest::RequestBuilder) -> Seq<char>;

/// The URL text the builder was started with.
pub uninterp spec fn builder_url(b: reqwest::RequestBuilder) -> Seq<char>;

/// For each canonical header name, the last value attached under it.
pub uninterp spec fn builder_headers(b: reqwest::RequestBuilder) -> Map<Seq<char>, Seq<char>>;

/// The body text attached to the builder, if any.
pub uninterp spec fn builder_body(b: reqwest::RequestBuilder) -> Option<Seq<char>>;

/// How many header values the builder physically holds.
pub uninterp spec fn builder_slots(b: reqwest::RequestBuilder) -> nat;

/// Relies on `reqwest::Client::get`: the builder holds a request exactly
/// when the URL parses and names a host, and then composes a GET to that
/// URL with no headers and no body of its own.
#[verifier::external_body]
pub(crate) fn client_get(client: &reqwest::Client, url: &str) -> (r: reqwest::RequestBuilder)
    ensures
        builder_usable(r) == usable_url(url@),
        builder_slots(r) == 0,
        builder_usable(r) ==> builder_method(r) == "GET"@,
        builder_usable(r) ==> builder_url(r) == url@,
        builder_usable(r) ==> builder_headers(r) == no_entries(),
        builder_usable(r) ==> builder_body(r) is None,
{
    client.get(url)
}

/// Relies on `reqwest::Client::post`, exactly as the GET constructor does.
#[verifier::external_body]
pub(crate) fn client_post(client: &reqwest::Client, url: &str) -> (r: reqwest::RequestBuilder)
    ensures
        builder_usable(r) == usable_url(url@),
        builder_slots(r) == 0,
        builder_usable(r) ==> builder_method(r) == "POST"@,
        builder_usable(r) ==> builder_url(r) == url@,
        builder_usable(r) ==> builder_headers(r) == no_entries(),
        builder_usable(r) ==> builder_body(r) is None,
{
    client.post(url)
}

/// Relies on `reqwest::Client::put`, exactly as the GET constructor does.
#[verifier::external_body]
pub(crate) fn client_put(client: &reqwest::Client, url: &str) -> (r: reqwest::RequestBuilder)
    ensures
        builder_usable(r) == usable_url(url@),
        builder_slots(r) == 0,
        builder_usable(r) ==> builder_method(r) == "PUT"@,
        builder_usable(r) ==> builder_url(r) == url@,
        builder_usable(r) ==> builder_headers(r) == no_entries(),
        builder_usable(r) ==> builder_body(r) is None,
{
    client.put(url)
}

/// Relies on `reqwest::Client::delete`, exactly as the GET constructor
/// does.
#[verifier::external_body]
pub(crate) fn client_delete(client: &reqwest::Client, url: &str) -> (r: reqwest::RequestBuilder)
    ensures
        builder_usable(r) == usable_url(url@),
        builder_slots(r) == 0,
        builder_usable(r) ==> builder_method(r) == "DELETE"@,
        builder_usable(r) ==> builder_url(r) == url@,
        builder_usable(r) ==> builder_headers(r) == no_entries(),
        builder_usable(r) ==> builder_body(r) is None,
{
    client.delete(url)
}

/// Relies on `reqwest::RequestBuilder::headers`: every name present in the
/// map has its values replaced by the map's, and all other names keep what
/// they had, so over last-value maps the result prefers the attached map;
/// on a failed builder it does nothing. Merging can abort only past the
/// header map's hard capacity of `1 << 15` slots, which the slot bound
/// keeps far out of reach.
#[verifier::external_body]
pub(crate) fn request_with_header_map(
    request: reqwest::RequestBuilder,
    headers: reqwest::header::HeaderMap,
) -> (r: reqwest::RequestBuilder)
    requires
        builder_slots(request) + header_map_len(headers) < 0x2000,
    ensures
        builder_usable(r) == builder_usable(request),
        builder_slots(r) <= builder_slots(request) + header_map_len(headers),
        builder_method(r) == builder_method(request),
        builder_url(r) == builder_url(request),
        builder_body(r) == builder_body(request),
        builder_usable(r) ==> builder_headers(r) == builder_headers(request).union_prefer_right(
            header_map_entries(headers),
        ),
{
    request.headers(headers)
}

/// Relies on `reqwest::RequestBuilder::header`: the value is appended under
/// the name, so it becomes the last value attached under that name; a name
/// or value the grammar refuses makes the builder fail instead, and on a
/// failed builder nothing happens. Appending can abort only past the header
/// map's hard capacity of `1 << 15` slots, which the slot bound keeps far
/// out of reach.
#[verifier::external_body]
pub(crate) fn request_with_header(
    request: reqwest::RequestBuilder,
    name: &str,
    value: &str,
) -> (r: reqwest::RequestBuilder)
    requires
        builder_slots(request) < 0x2000,
    ensures
        builder_usable(r) == (builder_usable(request) && valid_header_name(name@)
            && valid_header_value(value@)),
        builder_slots(r) <= builder_slots(request) + 1,
        builder_method(r) == builder_method(request),
        builder_url(r) == builder_url(request),
        builder_body(r) == builder_body(request),
        builder_usable(r) ==> builder_headers(r) == builder_headers(request).insert(
            header_name_canon(name@),
            value@,
        ),
{
    request.header(name, value)
}

/// Relies on `reqwest::RequestBuilder::body`: the text replaces whatever
/// body the builder had; on a failed builder it does nothing.
#[verifier::external_body]
pub(crate) fn request_with_body(
    request: reqwest::RequestBuilder,
    body: String,
) -> (r: reqwest::RequestBuilder)
    ensures
        builder_usable(r) == builder_usable(request),
        builder_slots(r) == builder_slots(request),
        builder_method(r) == builder_method(request),
        builder_url(r) == builder_url(request),
        builder_headers(r) == builder_headers(request),
        builder_usable(r) ==> builder_body(r) == Some(body@),
{
    request.body(body)
}

} // verus!
