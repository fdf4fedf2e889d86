use vstd::prelude::*;

verus! {

/// The components of a URI, each as text, the way `http::uri::Parts` holds
/// them: a scheme (`https`), an authority (`host:port`) and a path with its
/// query (`/pkg.Service/Method`), each of which may be absent.
#[derive(Debug, Clone, PartialEq, Eq)]
pub struct UriParts {
    pub scheme: Option<String>,
    pub authority: Option<String>,
    pub path_and_query: Option<String>,
}

/// Copies an optional string.
fn copy_text(s: &Option<String>) -> (r: Option<String>)
    ensures
        r == *s,
{
    match s {
        Some(t) => Some(t.clone()),
        None => None,
    }
}

/// A gRPC endpoint reached through the host: every request sent through it
/// goes to the scheme and authority of the endpoint's URI.
#[derive(Debug, Clone)]
pub struct GrpcEndpoint {
    endpoint: UriParts,
}

impl GrpcEndpoint {
    /// The URI that requests are redirected to.
    pub closed spec fn endpoint_spec(&self) -> UriParts {
        self.endpoint
    }

    /// An endpoint that sends requests to `endpoint`.
    pub fn new(endpoint: UriParts) -> (r: Self)
        ensures
            r.endpoint_spec() == endpoint,
    {
        GrpcEndpoint { endpoint }
    }

    /// The URI that requests are redirected to.
    pub fn endpoint(&self) -> (r: &UriParts)
        ensures
            *r == self.endpoint_spec(),
    {
        &self.endpoint
    }

    /// Where a request for `request` is sent: the scheme and authority of the
    /// endpoint, with the request's own path and query. The endpoint's path
    /// plays no part.
    pub fn target_parts(&self, request: UriParts) -> (r: UriParts)
        ensures
            r.scheme == self.endpoint_spec().scheme,
            r.authority == self.endpoint_spec().authority,
            r.path_and_query == request.path_and_query,
    {
        UriParts {
            scheme: copy_text(&self.endpoint.scheme),
            authority: copy_text(&self.endpoint.authority),
            path_and_query: request.path_and_query,
        }
    }
}

} // verus!
