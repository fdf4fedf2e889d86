use vstd::prelude::*;

use crate::conversion::{convert_method, convert_scheme, method_for, scheme_for, Method, Scheme};
use crate::headers::{forwarded_headers, forwarded_headers_spec, headers_view, Header};
use crate::uri::UriParts;

verus! {

/// Everything the host's outgoing request is given before its body: method,
/// scheme, authority, path with query, and headers.
#[derive(Debug, Clone, PartialEq, Eq)]
pub struct OutgoingHead {
    pub method: Method,
    pub scheme: Option<Scheme>,
    pub authority: Option<String>,
    pub path_with_query: Option<String>,
    pub headers: Vec<Header>,
}

/// Whether `s` is the host-side form of the optional request scheme `name`.
pub open spec fn opt_scheme_for(name: Option<String>, s: Option<Scheme>) -> bool {
    match name {
        Some(n) => s is Some && scheme_for(n@, s->0),
        None => s is None,
    }
}

/// Whether `head` is the host-side request for a request with method token
/// `method`, the URI components `target` and the headers `headers`.
pub open spec fn outgoing_head_spec(
    method: Seq<char>,
    target: UriParts,
    headers: Seq<Header>,
    head: OutgoingHead,
) -> bool {
    &&& method_for(method, head.method)
    &&& opt_scheme_for(target.scheme, head.scheme)
    &&& head.authority == target.authority
    &&& head.path_with_query == target.path_and_query
    &&& headers_view(head.headers@) == forwarded_headers_spec(headers_view(headers))
}

/// Translates a request into what the host's outgoing request is given:
/// the method and scheme in the host's terms, the authority and path with
/// query as they are, and the headers that are forwarded.
pub fn outgoing_head(method: &str, target: UriParts, headers: &Vec<Header>) -> (r: OutgoingHead)
    ensures
        outgoing_head_spec(method@, target, headers@, r),
{
    let scheme = match &target.scheme {
        Some(s) => Some(convert_scheme(s.as_str())),
        None => None,
    };
    OutgoingHead {
        method: convert_method(method),
        scheme,
        authority: target.authority,
        path_with_query: target.path_and_query,
        headers: forwarded_headers(headers),
    }
}

} // verus!
