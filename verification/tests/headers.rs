use conduit_hyper::{HttpVersion, Parts};
use http::header::HeaderValue;
use http::HeaderMap;

fn parts_with(headers: HeaderMap<HeaderValue>) -> Parts {
    Parts {
        method: String::from("GET"),
        path: String::from("/"),
        query: None,
        version: HttpVersion::Http11,
        headers,
    }
}

fn sample() -> Parts {
    let mut headers = HeaderMap::new();
    headers.append("accept", HeaderValue::from_static("text/html"));
    headers.append("host", HeaderValue::from_static("example.com"));
    headers.append("accept", HeaderValue::from_static("text/plain"));
    headers.append("accept", HeaderValue::from_static("text/html"));
    parts_with(headers)
}

#[test]
fn find_gives_every_value_in_order() {
    let parts = sample();
    assert_eq!(
        parts.find("accept"),
        Some(vec!["text/html", "text/plain", "text/html"])
    );
    assert_eq!(parts.find("host"), Some(vec!["example.com"]));
}

#[test]
fn find_is_absent_for_a_key_that_is_not_stored() {
    let parts = sample();
    assert_eq!(parts.find("cookie"), None);
    assert_eq!(parts_with(HeaderMap::new()).find("host"), None);
}

#[test]
fn find_is_absent_for_a_key_that_is_no_header_name() {
    let parts = sample();
    assert_eq!(parts.find(""), None);
    assert_eq!(parts.find("not a name"), None);
    assert_eq!(parts.find("h\u{f6}st"), None);
    assert!(!parts.has(""));
    assert!(!parts.has("not a name"));
}

#[test]
fn has_agrees_with_find() {
    let parts = sample();
    for key in ["accept", "host", "cookie", "Accept", "", "x y"] {
        assert_eq!(parts.has(key), parts.find(key).is_some());
    }
    assert!(parts.has("accept"));
    assert!(parts.has("host"));
    assert!(!parts.has("cookie"));
}

#[test]
fn keys_are_compared_as_written() {
    let mut headers = HeaderMap::new();
    headers.append("Content-Type", HeaderValue::from_static("text/html"));
    let parts = parts_with(headers);
    assert_eq!(parts.find("content-type"), Some(vec!["text/html"]));
    assert_eq!(parts.find("Content-Type"), None);
    assert_eq!(parts.find("CONTENT-TYPE"), None);
    assert!(parts.has("content-type"));
    assert!(!parts.has("Content-Type"));
}

#[test]
fn value_without_text_reads_as_empty_string() {
    let mut headers = HeaderMap::new();
    headers.append("x-raw", HeaderValue::from_static("plain"));
    headers.append("x-raw", HeaderValue::from_bytes(&[0xfa, 0xfb]).unwrap());
    headers.append("x-raw", HeaderValue::from_bytes(b"caf\xc3\xa9").unwrap());
    headers.append("x-raw", HeaderValue::from_static("tab\there"));
    headers.append("x-only", HeaderValue::from_bytes(&[0x80]).unwrap());
    let parts = parts_with(headers);
    assert_eq!(parts.find("x-raw"), Some(vec!["plain", "", "", "tab\there"]));
    assert_eq!(parts.find("x-only"), Some(vec![""]));
    assert!(parts.has("x-only"));
}

#[test]
fn all_lists_each_name_once_with_its_values() {
    let parts = sample();
    let all = parts.all();
    assert_eq!(
        all,
        vec![
            ("accept", vec!["text/html", "text/plain", "text/html"]),
            ("host", vec!["example.com"]),
        ]
    );
    for (name, values) in all {
        assert_eq!(parts.find(name), Some(values));
    }
    assert_eq!(parts_with(HeaderMap::new()).all(), vec![]);
}

#[test]
fn all_gives_names_in_lower_case() {
    let mut headers = HeaderMap::new();
    headers.append("X-Trace", HeaderValue::from_static("1"));
    headers.append("x-trace", HeaderValue::from_static("2"));
    let parts = parts_with(headers);
    assert_eq!(parts.all(), vec![("x-trace", vec!["1", "2"])]);
}

#[test]
fn key_at_the_name_limit_is_absent() {
    let parts = sample();
    let at_limit = "a".repeat(65536);
    let beyond = "a".repeat(70000);
    let below = "a".repeat(65535);
    assert_eq!(parts.find(&at_limit), None);
    assert_eq!(parts.find(&beyond), None);
    assert_eq!(parts.find(&below), None);
    assert!(!parts.has(&at_limit));
    assert!(!parts.has(&beyond));
    assert!(!parts.has(&below));
}

#[test]
fn long_name_is_found() {
    let name = "x".repeat(200);
    let mut headers = HeaderMap::new();
    headers.append(
        http::header::HeaderName::from_bytes(name.as_bytes()).unwrap(),
        HeaderValue::from_static("v"),
    );
    let parts = parts_with(headers);
    assert_eq!(parts.find(&name), Some(vec!["v"]));
    assert!(parts.has(&name));
}

#[test]
fn host_is_the_first_host_value() {
    let mut headers = HeaderMap::new();
    headers.append("host", HeaderValue::from_static("example.com"));
    headers.append("host", HeaderValue::from_static("example.org"));
    assert_eq!(parts_with(headers).host(), "example.com");
}

#[test]
fn host_is_empty_without_a_host_header() {
    assert_eq!(parts_with(HeaderMap::new()).host(), "");
    assert_eq!(sample().host(), "example.com");
}

#[test]
fn host_is_empty_where_the_value_has_no_text() {
    let mut headers = HeaderMap::new();
    headers.append("host", HeaderValue::from_bytes(&[0xff, 0xfe]).unwrap());
    headers.append("host", HeaderValue::from_static("example.org"));
    assert_eq!(parts_with(headers).host(), "");
}

#[test]
fn headers_gives_the_map_itself() {
    let parts = sample();
    assert_eq!(parts.headers().len(), 4);
    assert_eq!(parts.headers().keys_len(), 2);
}
