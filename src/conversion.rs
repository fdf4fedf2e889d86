use vstd::prelude::*;

use crate::text::same_text;

verus! {

/// An HTTP method as the host's outgoing handler names it.
#[derive(Debug, Clone, PartialEq, Eq)]
pub enum Method {
    Get,
    Post,
    Put,
    Delete,
    Head,
    Options,
    Connect,
    Patch,
    Trace,
    Other(String),
}

/// The method named by the standard token `name`, if `name` is one of the
/// nine methods the host knows by name.
pub open spec fn standard_method(name: Seq<char>) -> Option<Method> {
    if name == "GET"@ {
        Some(Method::Get)
    } else if name == "POST"@ {
        Some(Method::Post)
    } else if name == "PUT"@ {
        Some(Method::Put)
    } else if name == "DELETE"@ {
        Some(Method::Delete)
    } else if name == "HEAD"@ {
        Some(Method::Head)
    } else if name == "OPTIONS"@ {
        Some(Method::Options)
    } else if name == "CONNECT"@ {
        Some(Method::Connect)
    } else if name == "PATCH"@ {
        Some(Method::Patch)
    } else if name == "TRACE"@ {
        Some(Method::Trace)
    } else {
        None
    }
}

/// Whether `m` is the host-side method for the request method token `name`.
pub open spec fn method_for(name: Seq<char>, m: Method) -> bool {
    match standard_method(name) {
        Some(s) => m == s,
        None => m is Other && m->Other_0@ == name,
    }
}

/// Maps a request method token (as `http::Method::as_str` gives it) to the
/// host's method: the nine standard methods by variant, any other token
/// carried through unchanged.
pub fn convert_method(name: &str) -> (r: Method)
    ensures
        method_for(name@, r),
{
    if same_text(name, "GET") {
        Method::Get
    } else if same_text(name, "POST") {
        Method::Post
    } else if same_text(name, "PUT") {
        Method::Put
    } else if same_text(name, "DELETE") {
        Method::Delete
    } else if same_text(name, "HEAD") {
        Method::Head
    } else if same_text(name, "OPTIONS") {
        Method::Options
    } else if same_text(name, "CONNECT") {
        Method::Connect
    } else if same_text(name, "PATCH") {
        Method::Patch
    } else if same_text(name, "TRACE") {
        Method::Trace
    } else {
        Method::Other(name.to_owned())
    }
}

/// A URI scheme as the host's outgoing handler names it.
#[derive(Debug, Clone, PartialEq, Eq)]
pub enum Scheme {
    Http,
    Https,
    Other(String),
}

/// Whether `s` is the host-side scheme for the request scheme `name`.
pub open spec fn scheme_for(name: Seq<char>, s: Scheme) -> bool {
    if name == "https"@ {
        s == Scheme::Https
    } else if name == "http"@ {
        s == Scheme::Http
    } else {
        s is Other && s->Other_0@ == name
    }
}

/// Maps a request scheme (as `http::uri::Scheme::as_str` gives it) to the
/// host's scheme. The standard schemes are spelt in lower case there; any
/// other scheme is carried through unchanged.
pub fn convert_scheme(name: &str) -> (r: Scheme)
    ensures
        scheme_for(name@, r),
{
    if same_text(name, "https") {
        Scheme::Https
    } else if same_text(name, "http") {
        Scheme::Http
    } else {
        Scheme::Other(name.to_owned())
    }
}

} // verus!
