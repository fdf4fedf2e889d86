use wasi_grpc_endpoint::body::{frame_step, FrameStep, StreamRead, READ_CHUNK_SIZE};
use wasi_grpc_endpoint::conversion::{convert_method, convert_scheme, Method, Scheme};
use wasi_grpc_endpoint::headers::{forwarded_headers, forwards_header, forwards_header_folded, Header};
use wasi_grpc_endpoint::request::outgoing_head;
use wasi_grpc_endpoint::uri::{GrpcEndpoint, UriParts};

fn header(name: &str, value: &[u8]) -> Header {
    Header { name: name.to_string(), value: value.to_vec() }
}

fn parts(scheme: Option<&str>, authority: Option<&str>, path: Option<&str>) -> UriParts {
    UriParts {
        scheme: scheme.map(|s| s.to_string()),
        authority: authority.map(|s| s.to_string()),
        path_and_query: path.map(|s| s.to_string()),
    }
}

#[test]
fn standard_methods_map_to_variants() {
    assert_eq!(convert_method("GET"), Method::Get);
    assert_eq!(convert_method("POST"), Method::Post);
    assert_eq!(convert_method("PUT"), Method::Put);
    assert_eq!(convert_method("DELETE"), Method::Delete);
    assert_eq!(convert_method("HEAD"), Method::Head);
    assert_eq!(convert_method("OPTIONS"), Method::Options);
    assert_eq!(convert_method("CONNECT"), Method::Connect);
    assert_eq!(convert_method("PATCH"), Method::Patch);
    assert_eq!(convert_method("TRACE"), Method::Trace);
}

#[test]
fn other_methods_are_carried_through() {
    assert_eq!(convert_method("PURGE"), Method::Other("PURGE".to_string()));
    assert_eq!(convert_method("get"), Method::Other("get".to_string()));
    assert_eq!(convert_method(""), Method::Other(String::new()));
}

#[test]
fn schemes_map_to_variants() {
    assert_eq!(convert_scheme("https"), Scheme::Https);
    assert_eq!(convert_scheme("http"), Scheme::Http);
    assert_eq!(convert_scheme("grpc"), Scheme::Other("grpc".to_string()));
    assert_eq!(convert_scheme("HTTPS"), Scheme::Other("HTTPS".to_string()));
}

#[test]
fn pseudo_headers_are_skipped() {
    assert!(!forwards_header(":path"));
    assert!(!forwards_header(":authority"));
    assert!(!forwards_header(":"));
}

#[test]
fn connection_headers_are_skipped_in_any_case() {
    for name in ["connection", "keep-alive", "proxy-connection", "transfer-encoding", "upgrade", "te"] {
        assert!(!forwards_header(name), "{name}");
    }
    assert!(!forwards_header("Connection"));
    assert!(!forwards_header("Keep-Alive"));
    assert!(!forwards_header("TE"));
    assert!(!forwards_header("Transfer-Encoding"));
}

#[test]
fn ordinary_headers_are_forwarded() {
    assert!(forwards_header("content-type"));
    assert!(forwards_header("grpc-timeout"));
    assert!(forwards_header("X-Trace:Id"));
    assert!(forwards_header("tes"));
    assert!(forwards_header(""));
}

#[test]
fn folded_decision_uses_the_given_form() {
    assert!(!forwards_header_folded("Upgrade", "upgrade"));
    assert!(forwards_header_folded("Upgrade", "Upgrade"));
    assert!(!forwards_header_folded(":method", "x"));
    assert!(forwards_header_folded("x-a", "x-a"));
}

#[test]
fn forwarded_headers_keep_order_and_values() {
    let input = vec![
        header(":path", b"/svc/M"),
        header("content-type", b"application/grpc"),
        header("Connection", b"close"),
        header("te", b"trailers"),
        header("x-id", b"7"),
        header("x-id", b"8"),
    ];
    let out = forwarded_headers(&input);
    assert_eq!(
        out,
        vec![
            header("content-type", b"application/grpc"),
            header("x-id", b"7"),
            header("x-id", b"8"),
        ]
    );
    assert_eq!(forwarded_headers(&Vec::new()), Vec::new());
}

#[test]
fn endpoint_keeps_its_uri() {
    let e = parts(Some("http"), Some("svc.local:50051"), Some("/ignored"));
    let ep = GrpcEndpoint::new(e.clone());
    assert_eq!(ep.endpoint(), &e);
}

#[test]
fn target_takes_scheme_and_authority_from_endpoint() {
    let ep = GrpcEndpoint::new(parts(Some("https"), Some("api.example:443"), Some("/")));
    let req = parts(Some("http"), Some("localhost"), Some("/pkg.Greeter/SayHello?x=1"));
    assert_eq!(
        ep.target_parts(req),
        parts(Some("https"), Some("api.example:443"), Some("/pkg.Greeter/SayHello?x=1"))
    );
    let rel = parts(None, None, Some("/pkg.Greeter/SayHello"));
    assert_eq!(
        ep.target_parts(rel),
        parts(Some("https"), Some("api.example:443"), Some("/pkg.Greeter/SayHello"))
    );
}

#[test]
fn target_with_relative_endpoint_clears_scheme_and_authority() {
    let ep = GrpcEndpoint::new(parts(None, None, Some("/base")));
    let req = parts(Some("http"), Some("h"), None);
    assert_eq!(ep.target_parts(req), parts(None, None, None));
}

#[test]
fn outgoing_head_translates_every_field() {
    let headers = vec![
        header("content-type", b"application/grpc"),
        header("Keep-Alive", b"5"),
        header("grpc-timeout", b"1S"),
    ];
    let head = outgoing_head(
        "POST",
        parts(Some("http"), Some("svc:80"), Some("/a.B/C")),
        &headers,
    );
    assert_eq!(head.method, Method::Post);
    assert_eq!(head.scheme, Some(Scheme::Http));
    assert_eq!(head.authority, Some("svc:80".to_string()));
    assert_eq!(head.path_with_query, Some("/a.B/C".to_string()));
    assert_eq!(
        head.headers,
        vec![header("content-type", b"application/grpc"), header("grpc-timeout", b"1S")]
    );
}

#[test]
fn outgoing_head_without_scheme_or_authority() {
    let head = outgoing_head("QUERY", parts(None, None, Some("/x")), &Vec::new());
    assert_eq!(head.method, Method::Other("QUERY".to_string()));
    assert_eq!(head.scheme, None);
    assert_eq!(head.authority, None);
    assert_eq!(head.path_with_query, Some("/x".to_string()));
    assert!(head.headers.is_empty());
}

#[test]
fn non_empty_chunk_is_a_data_frame() {
    assert_eq!(frame_step(StreamRead::Chunk(vec![0, 0, 0, 0, 5])), FrameStep::Data(vec![0, 0, 0, 0, 5]));
}

#[test]
fn empty_chunk_or_closed_stream_ends_the_body() {
    assert_eq!(frame_step(StreamRead::Chunk(Vec::new())), FrameStep::End);
    assert_eq!(frame_step(StreamRead::Closed), FrameStep::End);
}

#[test]
fn failed_read_is_an_error() {
    assert_eq!(
        frame_step(StreamRead::Failed("reset".to_string())),
        FrameStep::Error("reset".to_string())
    );
}

#[test]
fn read_chunk_size_is_eight_kib() {
    assert_eq!(READ_CHUNK_SIZE, 8192);
}
