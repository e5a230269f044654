use std::cell::Cell;

use httpflow::client::{Certificate, Client, ClientBuilder};
use httpflow::engine::{Method, RedirectFlow, Request, ResponseHead};
use httpflow::error::Error;
use httpflow::headers::HeaderMap;
use httpflow::redirect::RedirectPolicy;
use httpflow::urls::parse_url;

fn redirect_to(location: &str, at: &str) -> ResponseHead {
    let mut headers = HeaderMap::new();
    headers.add("Location", location);
    ResponseHead { status: 302, headers, url: parse_url(at).unwrap() }
}

#[test]
fn builder_defaults_build_a_client() {
    let client = Client::new().unwrap();
    assert!(client.config.gzip);
    assert!(client.config.hostname_verification);
    assert!(client.config.referer);
    assert_eq!(client.config.redirect_policy, RedirectPolicy::Limit(10));
    assert!(client.config.timeout_ms.is_none());
    assert!(client.config.root_certificates.is_empty());
}

#[test]
fn builder_reuse_fails_loudly() {
    let mut builder = ClientBuilder::new().unwrap();
    assert!(builder.build().is_ok());
    assert!(matches!(builder.build(), Err(Error::BuilderReused)));
    assert!(matches!(builder.gzip(false), Err(Error::BuilderReused)));
    assert!(matches!(builder.redirect(RedirectPolicy::NoFollow), Err(Error::BuilderReused)));
    assert!(matches!(builder.timeout(1000), Err(Error::BuilderReused)));
}

#[test]
fn builder_options_reach_the_client() {
    let mut builder = Client::builder().unwrap();
    builder.gzip(false).unwrap();
    builder.danger_disable_hostname_verification().unwrap();
    builder.referer(false).unwrap();
    builder.redirect(RedirectPolicy::Limit(3)).unwrap();
    builder.timeout(2500).unwrap();
    let client = builder.build().unwrap();
    assert!(!client.config.gzip);
    assert!(!client.config.hostname_verification);
    assert!(!client.config.referer);
    assert_eq!(client.config.redirect_policy, RedirectPolicy::Limit(3));
    assert_eq!(client.config.timeout_ms, Some(2500));
}

#[test]
fn hostname_verification_can_be_reenabled() {
    let mut builder = Client::builder().unwrap();
    builder.danger_disable_hostname_verification().unwrap();
    builder.enable_hostname_verification().unwrap();
    let client = builder.build().unwrap();
    assert!(client.config.hostname_verification);
}

#[test]
fn invalid_der_bytes_are_refused() {
    assert!(matches!(Certificate::from_der(&[0u8, 1, 2, 3]), Err(Error::TlsConfigError)));
}

#[test]
fn invalid_url_is_rejected_before_any_send() {
    let client = Client::new().unwrap();
    assert!(matches!(client.get("not a url"), Err(Error::InvalidUrl)));
}

#[test]
fn request_builder_collects_method_headers_and_body() {
    let client = Client::new().unwrap();
    let mut rb = client.post("https://a/submit").unwrap();
    rb.header("X-Tag", "1");
    rb.body(vec![1, 2], true);
    let request = rb.build();
    assert_eq!(request.method, Method::Post);
    assert_eq!(request.url.serialize(), "https://a/submit");
    assert_eq!(request.headers.get_first("x-tag"), Some(String::from("1")));
    let body = request.body.expect("body was set");
    assert_eq!(body.bytes, vec![1, 2]);
    assert!(body.resettable);
}

#[test]
fn convenience_methods_pick_their_method() {
    let client = Client::new().unwrap();
    assert_eq!(client.get("https://a/").unwrap().build().method, Method::Get);
    assert_eq!(client.post("https://a/").unwrap().build().method, Method::Post);
    assert_eq!(client.put("https://a/").unwrap().build().method, Method::Put);
    assert_eq!(client.patch("https://a/").unwrap().build().method, Method::Patch);
    assert_eq!(client.delete("https://a/").unwrap().build().method, Method::Delete);
    assert_eq!(client.head("https://a/").unwrap().build().method, Method::Head);
}

#[test]
fn execute_returns_the_terminal_response() {
    let client = Client::new().unwrap();
    let request = client.get("https://a/").unwrap().build();
    let sends = Cell::new(0u32);
    let result = client.execute(request, |flow: &RedirectFlow| {
        sends.set(sends.get() + 1);
        Some(ResponseHead { status: 200, headers: HeaderMap::new(), url: flow.url.clone() })
    });
    let response = result.unwrap();
    assert_eq!(response.status, 200);
    assert_eq!(sends.get(), 1);
}

#[test]
fn execute_surfaces_transport_failure_with_the_url() {
    let client = Client::new().unwrap();
    let request = client.get("https://a/").unwrap().build();
    let result = client.execute(request, |_flow: &RedirectFlow| None);
    match result {
        Err(Error::TransportError { url }) => assert_eq!(url.serialize(), "https://a/"),
        other => panic!("expected a transport error, got {:?}", other),
    }
}

#[test]
fn execute_default_policy_gives_up_after_ten_follows() {
    let client = Client::new().unwrap();
    let request = client.get("https://h0/").unwrap().build();
    let sends = Cell::new(0u32);
    let result = client.execute(request, |flow: &RedirectFlow| {
        let n = sends.get();
        sends.set(n + 1);
        let next = format!("https://h{}/", n + 1);
        Some(redirect_to(&next, &flow.url.serialize()))
    });
    assert!(matches!(result, Err(Error::TooManyRedirects { .. })));
    assert_eq!(sends.get(), 11);
}

#[test]
fn execute_detects_a_two_url_cycle() {
    let client = Client::new().unwrap();
    let request = client.get("https://a/").unwrap().build();
    let result = client.execute(request, |flow: &RedirectFlow| {
        let here = flow.url.serialize();
        let next = if here == "https://a/" { "https://b/" } else { "https://a/" };
        Some(redirect_to(next, &here))
    });
    assert!(matches!(result, Err(Error::RedirectLoopDetected { .. })));
}

#[test]
fn execute_follows_once_and_returns_the_last_response() {
    let client = Client::new().unwrap();
    let request = client.get("https://a/").unwrap().build();
    let result = client.execute(request, |flow: &RedirectFlow| {
        if flow.url.serialize() == "https://a/" {
            Some(redirect_to("https://a/b", "https://a/"))
        } else {
            Some(ResponseHead { status: 200, headers: HeaderMap::new(), url: flow.url.clone() })
        }
    });
    let response = result.unwrap();
    assert_eq!(response.status, 200);
    assert_eq!(response.url.serialize(), "https://a/b");
}

#[test]
fn parse_url_splits_components() {
    let u = parse_url("https://user:pw@example.com:8443/a/b?x=1#frag").unwrap();
    assert_eq!(u.scheme, "https");
    assert_eq!(u.username, "user");
    assert_eq!(u.password.as_deref(), Some("pw"));
    assert_eq!(u.host.as_deref(), Some("example.com"));
    assert_eq!(u.port, Some(8443));
    assert_eq!(u.path, "/a/b");
    assert_eq!(u.query.as_deref(), Some("x=1"));
    assert_eq!(u.fragment.as_deref(), Some("frag"));
}

#[test]
fn serialize_writes_the_url_back() {
    let text = "https://user:pw@example.com:8443/a/b?x=1#frag";
    assert_eq!(parse_url(text).unwrap().serialize(), text);
    assert_eq!(parse_url("http://h/").unwrap().serialize(), "http://h/");
}

#[test]
fn parse_url_rejects_garbage() {
    assert!(parse_url("definitely not a url").is_none());
    assert!(parse_url("").is_none());
}

#[test]
fn same_url_compares_componentwise() {
    let a = parse_url("https://a/x?q=1").unwrap();
    let b = parse_url("https://a/x?q=1").unwrap();
    let c = parse_url("https://a/x?q=2").unwrap();
    assert!(a.same_url(&b));
    assert!(!a.same_url(&c));
}

#[test]
fn method_names_match_the_wire() {
    assert_eq!(Method::Get.name(), "GET");
    assert_eq!(Method::Head.name(), "HEAD");
    assert_eq!(Method::Post.name(), "POST");
    assert_eq!(Method::Delete.name(), "DELETE");
}

#[test]
fn requests_start_bare() {
    let request = Request::new(Method::Get, parse_url("https://a/").unwrap());
    assert_eq!(request.headers.len(), 0);
    assert!(request.body.is_none());
}
