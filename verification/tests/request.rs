use conduit_hyper::{
    version, Body, ConduitRequest, HttpVersion, Method, Parts, RemoteAddr, Scheme, Version,
};
use http::header::HeaderValue;
use http::HeaderMap;

fn head(method: &str, version: HttpVersion) -> Parts {
    Parts {
        method: String::from(method),
        path: String::from("/"),
        query: None,
        version,
        headers: HeaderMap::new(),
    }
}

fn request(method: &str, body: &[u8]) -> ConduitRequest {
    ConduitRequest::new(head(method, HttpVersion::Http11), body.to_vec())
}

/// The head of a request of the `http` crate, field by field.
fn head_of(parts: http::request::Parts) -> Parts {
    Parts {
        method: parts.method.as_str().to_string(),
        path: parts.uri.path().to_string(),
        query: parts.uri.query().map(|query| query.to_string()),
        version: match parts.version {
            http::Version::HTTP_09 => HttpVersion::Http09,
            http::Version::HTTP_10 => HttpVersion::Http10,
            http::Version::HTTP_11 => HttpVersion::Http11,
            http::Version::HTTP_2 => HttpVersion::H2,
        },
        headers: parts.headers,
    }
}

#[test]
fn get_with_query_and_host() {
    let (parts, _) = http::Request::builder()
        .method("GET")
        .uri("/foo?x=1")
        .version(http::Version::HTTP_11)
        .header("Host", "example.com")
        .body(())
        .unwrap()
        .into_parts();
    let request = ConduitRequest::new(head_of(parts), Vec::new());
    assert_eq!(request.path(), "/foo");
    assert_eq!(request.query_string(), Some("x=1"));
    assert_eq!(request.host(), "example.com");
    assert_eq!(request.method(), Method::Get);
    assert_eq!(request.http_version(), Version { major: 1, minor: 1, patch: 0 });
    assert_eq!(request.headers().find("host"), Some(vec!["example.com"]));
}

#[test]
fn query_string_is_absent_without_a_question_mark() {
    let (parts, _) = http::Request::builder()
        .uri("/foo")
        .body(())
        .unwrap()
        .into_parts();
    let request = ConduitRequest::new(head_of(parts), Vec::new());
    assert_eq!(request.path(), "/foo");
    assert_eq!(request.query_string(), None);
    assert_eq!(request.host(), "");
}

#[test]
fn http_version_of_each_protocol() {
    let cases = [
        (HttpVersion::Http09, (0, 9, 0)),
        (HttpVersion::Http10, (1, 0, 0)),
        (HttpVersion::Http11, (1, 1, 0)),
        (HttpVersion::H2, (2, 0, 0)),
    ];
    for (protocol, (major, minor, patch)) in cases {
        let request = ConduitRequest::new(head("GET", protocol), Vec::new());
        assert_eq!(request.http_version(), Version { major, minor, patch });
    }
}

#[test]
fn conduit_version_is_0_1_0() {
    assert_eq!(
        request("GET", b"").conduit_version(),
        Version { major: 0, minor: 1, patch: 0 }
    );
}

#[test]
fn version_has_patch_zero() {
    assert_eq!(version(3, 4), Version { major: 3, minor: 4, patch: 0 });
    assert_eq!(
        version(u64::MAX, 0),
        Version { major: u64::MAX, minor: 0, patch: 0 }
    );
}

#[test]
fn method_of_each_standard_verb() {
    let cases = [
        ("CONNECT", Method::Connect),
        ("DELETE", Method::Delete),
        ("GET", Method::Get),
        ("HEAD", Method::Head),
        ("OPTIONS", Method::Options),
        ("PATCH", Method::Patch),
        ("POST", Method::Post),
        ("PUT", Method::Put),
        ("TRACE", Method::Trace),
    ];
    for (verb, method) in cases {
        assert_eq!(request(verb, b"").method(), method);
    }
}

#[test]
fn method_of_any_other_verb_keeps_the_verb() {
    for verb in ["PURGE", "get", "Get", "PROPFIND", "GETS", "GE", " GET", "M-SEARCH", ""] {
        assert_eq!(request(verb, b"").method(), Method::Other(String::from(verb)));
    }
}

#[test]
fn scheme_is_always_http() {
    assert_eq!(request("GET", b"").scheme(), Scheme::Http);
}

#[test]
fn remote_addr_is_the_zero_address() {
    assert_eq!(
        request("GET", b"").remote_addr(),
        RemoteAddr { ip: [0, 0, 0, 0], port: 0 }
    );
}

#[test]
fn virtual_root_is_absent() {
    assert_eq!(request("GET", b"").virtual_root(), None);
}

#[test]
fn content_length_is_the_length_of_the_body() {
    assert_eq!(request("POST", b"").content_length(), Some(0));
    assert_eq!(request("POST", b"hello").content_length(), Some(5));
    assert_eq!(request("POST", &[0u8; 70000]).content_length(), Some(70000));
}

#[test]
fn path_and_query_are_those_of_the_head() {
    let mut parts = head("GET", HttpVersion::Http11);
    parts.path = String::from("/a/b");
    parts.query = Some(String::from(""));
    let request = ConduitRequest::new(parts, Vec::new());
    assert_eq!(request.path(), "/a/b");
    assert_eq!(request.query_string(), Some(""));
}

#[test]
fn headers_of_a_request_are_those_of_its_head() {
    let mut parts = head("GET", HttpVersion::Http11);
    parts.headers.append("accept", HeaderValue::from_static("a"));
    parts.headers.append("accept", HeaderValue::from_static("b"));
    let request = ConduitRequest::new(parts, Vec::new());
    assert_eq!(request.headers().find("accept"), Some(vec!["a", "b"]));
    assert!(request.headers().has("accept"));
    assert_eq!(request.headers().all(), vec![("accept", vec!["a", "b"])]);
}

fn read_all(body: &mut Body) -> Vec<u8> {
    let mut all = Vec::new();
    let mut buf = [0u8; 4];
    loop {
        let n = body.read(&mut buf);
        if n == 0 {
            return all;
        }
        all.extend_from_slice(&buf[..n]);
    }
}

#[test]
fn body_is_read_from_the_start_on_every_access() {
    let mut request = request("POST", b"hello world");
    assert_eq!(read_all(request.body()), b"hello world");
    assert_eq!(read_all(request.body()), b"hello world");
    let mut buf = [0u8; 5];
    assert_eq!(request.body().read(&mut buf), 5);
    assert_eq!(&buf, b"hello");
    assert_eq!(request.body().position(), 0);
    assert_eq!(read_all(request.body()), b"hello world");
}

#[test]
fn read_goes_on_where_the_last_read_ended() {
    let mut request = request("POST", b"hello world");
    request.body();
    let mut buf = [0u8; 6];
    assert_eq!(request.read(&mut buf), 6);
    assert_eq!(&buf, b"hello ");
    assert_eq!(request.read(&mut buf), 5);
    assert_eq!(&buf, b"world ");
    assert_eq!(request.read(&mut buf), 0);
    assert_eq!(&buf, b"world ");
}

#[test]
fn read_copies_what_fits() {
    let mut body = Body::new(b"abcdef".to_vec());
    let mut none: [u8; 0] = [];
    assert_eq!(body.read(&mut none), 0);
    assert_eq!(body.position(), 0);
    let mut buf = [b'-'; 4];
    assert_eq!(body.read(&mut buf), 4);
    assert_eq!(&buf, b"abcd");
    assert_eq!(body.position(), 4);
    assert_eq!(body.read(&mut buf), 2);
    assert_eq!(&buf, b"efcd");
    assert_eq!(body.position(), 6);
    assert_eq!(body.read(&mut buf), 0);
    assert_eq!(body.position(), 6);
    assert_eq!(body.get_ref(), &b"abcdef".to_vec());
}

#[test]
fn cursor_past_the_end_reads_nothing() {
    let mut body = Body::new(b"abc".to_vec());
    body.set_position(u64::MAX);
    let mut buf = [0u8; 2];
    assert_eq!(body.read(&mut buf), 0);
    assert_eq!(body.position(), u64::MAX);
    body.set_position(2);
    assert_eq!(body.read(&mut buf), 1);
    assert_eq!(buf, [b'c', 0]);
    assert_eq!(body.position(), 3);
}

#[test]
fn empty_body_reads_nothing() {
    let mut request = request("GET", b"");
    let mut buf = [7u8; 3];
    assert_eq!(request.body().read(&mut buf), 0);
    assert_eq!(buf, [7, 7, 7]);
}

#[test]
fn extensions_start_empty_and_are_the_handlers_own() {
    let mut request = request("GET", b"body");
    assert!(!request.extensions().contains::<u32>());
    assert!(!request.extensions().contains::<String>());
    assert!(request.mut_extensions().insert(7u32));
    assert_eq!(request.extensions().find::<u32>(), Some(&7));
    assert!(!request.extensions().contains::<String>());
    assert_eq!(request.method(), Method::Get);
    assert_eq!(read_all(request.body()), b"body");
    let fresh = ConduitRequest::new(head("GET", HttpVersion::Http11), Vec::new());
    assert!(!fresh.extensions().contains::<u32>());
}
