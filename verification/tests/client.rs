use std::collections::HashMap;
use std::time::Duration;

use http_client::{Client, Error, Method, Options, Request, Response};

fn client(base_url: &str, content_type: Option<&str>) -> Client {
    Client::new(Options {
        base_url: base_url.to_string(),
        content_type: content_type.map(|c| c.to_string()),
        timeout: Some(Duration::from_secs(10)),
    })
    .expect("failed to create client")
}

fn request(url: &str, content_type: Option<&str>, headers: Option<HashMap<String, String>>) -> Request {
    Request {
        url: url.to_string(),
        method: Method::POST,
        content_type: content_type.map(|c| c.to_string()),
        headers,
    }
}

#[test]
fn client_keeps_base_url_and_content_type() {
    let c = client("https://httpbin.org", Some("text/plain"));
    assert_eq!(c.base_url(), "https://httpbin.org");
    assert_eq!(c.content_type(), "text/plain");
}

#[test]
fn client_content_type_defaults_to_json() {
    let c = Client::new(Options {
        base_url: "https://httpbin.org".to_string(),
        content_type: None,
        timeout: None,
    })
    .expect("failed to create client");
    assert_eq!(c.content_type(), "application/json");
}

#[test]
fn build_url_appends_relative_urls_to_base() {
    let c = client("https://httpbin.org", None);
    assert_eq!(c.build_url("/post"), "https://httpbin.org/post");
    assert_eq!(c.build_url(""), "https://httpbin.org");
    assert_eq!(c.build_url("get"), "https://httpbin.orgget");
    assert_eq!(c.build_url("ftp://x"), "https://httpbin.orgftp://x");
    assert_eq!(c.build_url("HTTP://x"), "https://httpbin.orgHTTP://x");
}

#[test]
fn build_url_keeps_absolute_urls() {
    let c = client("https://httpbin.org", None);
    assert_eq!(c.build_url("http://example.com/a"), "http://example.com/a");
    assert_eq!(c.build_url("https://example.com/b?c=d"), "https://example.com/b?c=d");
    assert_eq!(c.build_url("http://"), "http://");
}

#[test]
fn build_url_is_idempotent_with_absolute_base() {
    let c = client("https://httpbin.org", None);
    for url in ["/post", "x", "", "https://example.com/"] {
        let once = c.build_url(url);
        assert_eq!(c.build_url(&once), once);
    }
}

#[test]
fn prepare_request_uses_client_defaults() {
    let c = client("https://httpbin.org", None);
    let plan = c.prepare_request(request("/post", None, None), None);
    assert_eq!(plan.method, Method::POST);
    assert_eq!(plan.url, "https://httpbin.org/post");
    assert_eq!(plan.content_type, "application/json");
    assert!(plan.headers.is_none());
    assert!(plan.body.is_none());
}

#[test]
fn prepare_request_prefers_request_content_type_and_keeps_headers_and_body() {
    let c = client("https://httpbin.org", Some("text/plain"));
    let mut headers = HashMap::new();
    headers.insert("X-Trace".to_string(), "1".to_string());
    let body = Some(br#"{"update":true}"#.to_vec());
    let plan = c.prepare_request(
        request("http://localhost/put", Some("application/xml"), Some(headers.clone())),
        body.clone(),
    );
    assert_eq!(plan.url, "http://localhost/put");
    assert_eq!(plan.content_type, "application/xml");
    assert_eq!(plan.headers, Some(headers));
    assert_eq!(plan.body, body);
}

fn response(body: &[u8], headers: &[(&str, &[u8])]) -> Response {
    Response {
        body: body.to_vec(),
        headers: headers.iter().map(|(k, v)| (k.to_string(), v.to_vec())).collect(),
        status_code: 200,
        time: 5,
    }
}

#[test]
fn has_body_reports_non_empty_body() {
    assert!(response(b"{}", &[]).has_body());
    assert!(!response(b"", &[]).has_body());
}

#[test]
fn get_utf8_header_returns_valid_text_values() {
    let r = response(b"", &[("content-type", b"application/json"), ("x-bin", &[0xff, 0xfe]), ("x-accent", "\u{e9}t\u{e9}".as_bytes())]);
    assert_eq!(r.get_utf8_header("content-type"), Some("application/json"));
    assert_eq!(r.get_utf8_header("x-accent"), Some("\u{e9}t\u{e9}"));
    assert_eq!(r.get_utf8_header("x-bin"), None);
    assert_eq!(r.get_utf8_header("missing"), None);
    assert_eq!(r.get_utf8_header("Content-Type"), None);
}

#[test]
fn deserialize_parses_json_body() {
    let r = response(br#"{"version": 1, "name": "Alice"}"#, &[]);
    let v: HashMap<String, serde_json::Value> = r.deserialize().unwrap();
    assert_eq!(v["name"], serde_json::Value::String("Alice".to_string()));
    assert_eq!(v["version"], serde_json::Value::from(1));
}

#[test]
fn deserialize_refuses_bad_json_as_serialization_error() {
    let r = response(b"not json", &[]);
    match r.deserialize::<serde_json::Value>() {
        Err(Error::Serialization(_)) => {}
        other => panic!("unexpected result: {:?}", other),
    }
}
