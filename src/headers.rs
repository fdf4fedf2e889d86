use vstd::prelude::*;

use crate::text::{same_text, starts_with_char};

verus! {

/// A request or response header: its name and its raw value.
#[derive(Debug, Clone, PartialEq, Eq)]
pub struct Header {
    pub name: String,
    pub value: Vec<u8>,
}

impl View for Header {
    type V = (Seq<char>, Seq<u8>);

    open spec fn view(&self) -> (Seq<char>, Seq<u8>) {
        (self.name@, self.value@)
    }
}

/// The headers of a list, as name and value sequences.
pub open spec fn headers_view(hs: Seq<Header>) -> Seq<(Seq<char>, Seq<u8>)> {
    hs.map_values(|h: Header| h@)
}

/// What `str::to_lowercase` gives for a string: Unicode lower-case mapping,
/// which depends on the characters alone.
pub uninterp spec fn lower_of(s: Seq<char>) -> Seq<char>;

/// Relies on `str::to_lowercase`: the lower-case form of `s`.
#[verifier::external_body]
fn lowercase(s: &str) -> (r: String)
    ensures
        r@ == lower_of(s@),
{
    s.to_lowercase()
}

/// HTTP/1.1 connection-specific headers, and `te`, which the host's handler
/// forbids; `folded` is a header name in lower case.
pub open spec fn is_connection_header(folded: Seq<char>) -> bool {
    ||| folded == "connection"@
    ||| folded == "keep-alive"@
    ||| folded == "proxy-connection"@
    ||| folded == "transfer-encoding"@
    ||| folded == "upgrade"@
    ||| folded == "te"@
}

/// HTTP/2 pseudo-headers start with a colon.
pub open spec fn is_pseudo_header(name: Seq<char>) -> bool {
    name.len() > 0 && name[0] == ':'
}

/// Whether a header named `name`, whose lower-case form is `folded`, is handed
/// on to the host.
pub open spec fn forwarded(name: Seq<char>, folded: Seq<char>) -> bool {
    !is_pseudo_header(name) && !is_connection_header(folded)
}

/// Whether a header named `name` is handed on to the host.
pub open spec fn forwarded_name(name: Seq<char>) -> bool {
    forwarded(name, lower_of(name))
}

/// The headers of `hs` that are handed on, in their order.
pub open spec fn forwarded_headers_spec(hs: Seq<(Seq<char>, Seq<u8>)>) -> Seq<(Seq<char>, Seq<u8>)> {
    hs.filter(|h: (Seq<char>, Seq<u8>)| forwarded_name(h.0))
}

/// Decides whether a header is forwarded, given its name and the lower-case
/// form of that name.
pub fn forwards_header_folded(name: &str, folded: &str) -> (r: bool)
    ensures
        r == forwarded(name@, folded@),
{
    if starts_with_char(name, ':') {
        return false;
    }
    !(same_text(folded, "connection") || same_text(folded, "keep-alive") || same_text(
        folded,
        "proxy-connection",
    ) || same_text(folded, "transfer-encoding") || same_text(folded, "upgrade") || same_text(
        folded,
        "te",
    ))
}

/// Decides whether a header named `name` is forwarded to the host: neither a
/// pseudo-header nor, in any letter case, a connection-specific header.
pub fn forwards_header(name: &str) -> (r: bool)
    ensures
        r == forwarded_name(name@),
{
    let folded = lowercase(name);
    forwards_header_folded(name, folded.as_str())
}

/// Copies a byte vector.
fn copy_bytes(v: &Vec<u8>) -> (r: Vec<u8>)
    ensures
        r@ == v@,
{
    let mut out: Vec<u8> = Vec::with_capacity(v.len());
    let mut i: usize = 0;
    while i < v.len()
        invariant
            i <= v@.len(),
            out@ == v@.subrange(0, i as int),
        decreases v@.len() - i,
    {
        out.push(v[i]);
        i = i + 1;
    }
    assert(out@ == v@);
    out
}

/// The headers of `headers` that are forwarded to the host, in their order.
pub fn forwarded_headers(headers: &Vec<Header>) -> (r: Vec<Header>)
    ensures
        headers_view(r@) == forwarded_headers_spec(headers_view(headers@)),
{
    let ghost pred = |h: (Seq<char>, Seq<u8>)| forwarded_name(h.0);
    let mut out: Vec<Header> = Vec::new();
    let mut i: usize = 0;
    while i < headers.len()
        invariant
            i <= headers@.len(),
            pred == (|h: (Seq<char>, Seq<u8>)| forwarded_name(h.0)),
            headers_view(out@) == headers_view(headers@).subrange(0, i as int).filter(pred),
        decreases headers@.len() - i,
    {
        let h = &headers[i];
        let ghost before = headers_view(headers@).subrange(0, i as int);
        assert(headers_view(headers@).subrange(0, i + 1) =~= before.push(h@));
        proof { before.lemma_filter_push(h@, pred); }
        let ghost out_before = headers_view(out@);
        if forwards_header(h.name.as_str()) {
            let copy = Header { name: h.name.clone(), value: copy_bytes(&h.value) };
            out.push(copy);
            assert(headers_view(out@) =~= out_before.push(h@));
        }
        i = i + 1;
    }
    assert(headers_view(headers@).subrange(0, headers@.len() as int) == headers_view(headers@));
    out
}

} // verus!
