//! From an inbound request to the request that goes upstream.

use crate::decimal::{decimal_digits, lemma_decimal_round_trip, push_decimal};
use crate::headers::{headers_view, Header, HeaderView};
use crate::method::Method;
use crate::route::Route;
use crate::text::{lemma_ascii_is_utf8, owned_text, strip_prefix, without_prefix};
use vstd::prelude::*;
use vstd::string::StringSliceAdditionalSpecFns;
use vstd::utf8::*;

verus! {

/// The request as the upstream client takes it.
#[derive(Debug)]
pub struct TranslatedRequest {
    /// The method of the call.
    pub method: Method,
    /// The route that the path resolved to.
    pub route: Route,
    /// Path and query as they go upstream, letter for letter.
    pub path_and_query: String,
    /// The headers of the inbound request.
    pub headers: Vec<Header>,
    /// The body; `None` where the inbound request had none.
    pub body: Option<Vec<u8>>,
}

/// A translated request with its texts as values.
pub struct TranslatedRequestView {
    pub method: Method,
    pub route: Route,
    pub path_and_query: Seq<u8>,
    pub headers: Seq<HeaderView>,
    pub body: Option<Seq<u8>>,
}

impl View for TranslatedRequest {
    type V = TranslatedRequestView;

    open spec fn view(&self) -> TranslatedRequestView {
        TranslatedRequestView {
            method: self.method,
            route: self.route,
            path_and_query: encode_utf8(self.path_and_query@),
            headers: headers_view(self.headers@),
            body: match self.body {
                Some(bytes) => Some(bytes@),
                None => None,
            },
        }
    }
}

/// The request that goes upstream for these parts of an inbound request.
pub open spec fn translated(
    method: Method,
    route: Route,
    path_and_query: Seq<u8>,
    headers: Seq<HeaderView>,
    body: Seq<u8>,
    version: u8,
) -> TranslatedRequestView {
    TranslatedRequestView {
        method,
        route,
        path_and_query: without_prefix(path_and_query, api_prefix_bytes(version)),
        headers,
        body: body_of(body),
    }
}

/// The prefix under which version `version` of the upstream API is reached:
/// `/api/v`, the version in decimal, `/`.
pub open spec fn api_prefix_bytes(version: u8) -> Seq<u8> {
    "/api/v".spec_bytes() + decimal_digits(version as nat) + "/".spec_bytes()
}

/// The body that goes upstream: none at all for an empty one.
pub open spec fn body_of(bytes: Seq<u8>) -> Option<Seq<u8>> {
    if bytes.len() == 0 {
        None
    } else {
        Some(bytes)
    }
}

/// The prefix of a version is UTF-8 text.
pub proof fn lemma_api_prefix_is_utf8(version: u8)
    ensures
        valid_utf8(api_prefix_bytes(version)),
{
    let digits = decimal_digits(version as nat);
    lemma_decimal_round_trip(version as nat);
    lemma_ascii_is_utf8(digits);
    encode_utf8_valid_utf8("/api/v"@);
    encode_utf8_valid_utf8("/"@);
    valid_utf8_concat("/api/v".spec_bytes(), digits);
    valid_utf8_concat("/api/v".spec_bytes() + digits, "/".spec_bytes());
}

/// The prefix under which version `version` of the upstream API is reached.
pub fn api_prefix(version: u8) -> (prefix: String)
    ensures
        encode_utf8(prefix@) == api_prefix_bytes(version),
{
    let mut bytes: Vec<u8> = Vec::new();
    bytes.extend_from_slice("/api/v".as_bytes());
    push_decimal(&mut bytes, version as u64);
    bytes.extend_from_slice("/".as_bytes());
    proof {
        assert(bytes@ =~= api_prefix_bytes(version));
        lemma_api_prefix_is_utf8(version);
    }
    owned_text(bytes.as_slice())
}

/// `path` without the prefix of the API version, where it has it.
pub fn trim_path<'a>(path: &'a str, version: u8) -> (trimmed: &'a str)
    ensures
        trimmed.spec_bytes() == without_prefix(path.spec_bytes(), api_prefix_bytes(version)),
{
    let prefix = api_prefix(version);
    strip_prefix(path, prefix.as_str())
}

/// Puts together the request that goes upstream.
///
/// Path and query lose the prefix of the API version and are otherwise kept as
/// they came, the query included. The headers go as they came, the
/// authorization header among them. An empty body becomes no body; any other
/// body goes unchanged.
pub fn translate(
    method: Method,
    route: Route,
    path_and_query: &str,
    headers: Vec<Header>,
    body: Vec<u8>,
    version: u8,
) -> (request: TranslatedRequest)
    ensures
        request@ == translated(
            method,
            route,
            path_and_query.spec_bytes(),
            headers_view(headers@),
            body@,
            version,
        ),
        request.headers == headers,
{
    let literal = trim_path(path_and_query, version).to_owned();
    let body = if body.len() == 0 {
        None
    } else {
        Some(body)
    };
    TranslatedRequest { method, route, path_and_query: literal, headers, body }
}

} // verus!
