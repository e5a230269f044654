use httpflow::engine::{Body, Method, RedirectFlow, Request, ResponseHead, Step};
use httpflow::headers::HeaderMap;
use httpflow::redirect::{Action, RedirectPolicy};
use httpflow::urls::{parse_url, HttpUrl};

fn url(s: &str) -> HttpUrl {
    parse_url(s).expect("test URL must parse")
}

fn redirect_response(status: u16, location: &str, at: &str) -> ResponseHead {
    let mut headers = HeaderMap::new();
    headers.add("Location", location);
    ResponseHead { status, headers, url: url(at) }
}

fn plain_response(status: u16, at: &str) -> ResponseHead {
    ResponseHead { status, headers: HeaderMap::new(), url: url(at) }
}

fn begin_get(target: &str, policy: RedirectPolicy) -> RedirectFlow {
    RedirectFlow::begin(policy, true, true, Request::new(Method::Get, url(target)))
}

#[test]
fn scenario_follow_same_host_sets_referer() {
    let mut flow = begin_get("https://a/", RedirectPolicy::Limit(10));
    let step = flow.handle_response(&redirect_response(301, "https://a/b", "https://a/"));
    assert_eq!(step, Step::Resend);
    assert_eq!(flow.method, Method::Get);
    assert_eq!(flow.url.serialize(), "https://a/b");
    assert_eq!(flow.headers.get_first("referer"), Some(String::from("https://a/")));
}

#[test]
fn scenario_post_becomes_get_and_credentials_drop_across_hosts() {
    let mut request = Request::new(Method::Post, url("https://a/"));
    request.headers.add("Authorization", "Bearer SECRET-REDACTED");
    request.headers.add("Cookie", "k=v");
    request.body = Some(Body { bytes: vec![1, 2, 3], resettable: true });
    let mut flow = RedirectFlow::begin(RedirectPolicy::Limit(10), true, true, request);
    let step = flow.handle_response(&redirect_response(302, "https://b/", "https://a/"));
    assert_eq!(step, Step::Resend);
    assert_eq!(flow.method, Method::Get);
    assert!(flow.body.is_none());
    assert_eq!(flow.url.serialize(), "https://b/");
    assert!(!flow.headers.has("authorization"));
    assert!(!flow.headers.has("cookie"));
    assert_eq!(flow.headers.get_first("referer"), Some(String::from("https://a/")));
}

#[test]
fn scenario_revisited_url_is_a_loop() {
    let mut flow = begin_get("https://a/", RedirectPolicy::Limit(10));
    let first = flow.handle_response(&redirect_response(302, "https://b/", "https://a/"));
    assert_eq!(first, Step::Resend);
    let second = flow.handle_response(&redirect_response(302, "https://a/", "https://b/"));
    assert_eq!(second, Step::LoopDetected);
}

#[test]
fn scenario_eleventh_distinct_host_is_too_many() {
    let mut flow = begin_get("https://h0/", RedirectPolicy::Limit(10));
    for hop in 1..=10u32 {
        let at = format!("https://h{}/", hop - 1);
        let next = format!("https://h{}/", hop);
        let step = flow.handle_response(&redirect_response(302, &next, &at));
        assert_eq!(step, Step::Resend);
    }
    let step = flow.handle_response(&redirect_response(302, "https://h11/", "https://h10/"));
    assert_eq!(step, Step::TooManyRedirects);
}

#[test]
fn scenario_downgrade_resend_has_no_referer() {
    let mut request = Request::new(Method::Get, url("https://secure/"));
    request.headers.add("Referer", "https://earlier/");
    let mut flow = RedirectFlow::begin(RedirectPolicy::Limit(10), true, true, request);
    let step = flow.handle_response(&redirect_response(302, "http://insecure/", "https://secure/"));
    assert_eq!(step, Step::Resend);
    assert!(!flow.headers.has("referer"));
    assert_eq!(flow.url.serialize(), "http://insecure/");
}

#[test]
fn see_other_rewrites_post_to_get_without_body() {
    let mut request = Request::new(Method::Post, url("https://a/submit"));
    request.body = Some(Body { bytes: vec![9], resettable: true });
    let mut flow = RedirectFlow::begin(RedirectPolicy::Limit(10), true, true, request);
    let step = flow.handle_response(&redirect_response(303, "https://a/result", "https://a/submit"));
    assert_eq!(step, Step::Resend);
    assert_eq!(flow.method, Method::Get);
    assert!(flow.body.is_none());
}

#[test]
fn see_other_keeps_head() {
    let mut flow = RedirectFlow::begin(
        RedirectPolicy::Limit(10),
        true,
        true,
        Request::new(Method::Head, url("https://a/")),
    );
    let step = flow.handle_response(&redirect_response(303, "https://a/b", "https://a/"));
    assert_eq!(step, Step::Resend);
    assert_eq!(flow.method, Method::Head);
}

#[test]
fn temporary_redirect_keeps_method_and_resettable_body() {
    let mut request = Request::new(Method::Put, url("https://a/x"));
    request.body = Some(Body { bytes: vec![4, 5], resettable: true });
    let mut flow = RedirectFlow::begin(RedirectPolicy::Limit(10), true, true, request);
    let step = flow.handle_response(&redirect_response(307, "https://a/y", "https://a/x"));
    assert_eq!(step, Step::Resend);
    assert_eq!(flow.method, Method::Put);
    let body = flow.body.as_ref().expect("resettable body is kept");
    assert_eq!(body.bytes, vec![4, 5]);
}

#[test]
fn permanent_redirect_drops_unresettable_body_but_follows() {
    let mut request = Request::new(Method::Post, url("https://a/x"));
    request.body = Some(Body { bytes: vec![7], resettable: false });
    let mut flow = RedirectFlow::begin(RedirectPolicy::Limit(10), true, true, request);
    let step = flow.handle_response(&redirect_response(308, "https://a/y", "https://a/x"));
    assert_eq!(step, Step::Resend);
    assert_eq!(flow.method, Method::Post);
    assert!(flow.body.is_none());
}

#[test]
fn same_origin_follow_keeps_credentials() {
    let mut request = Request::new(Method::Get, url("https://a/"));
    request.headers.add("Authorization", "Bearer SECRET-REDACTED");
    let mut flow = RedirectFlow::begin(RedirectPolicy::Limit(10), true, true, request);
    let step = flow.handle_response(&redirect_response(302, "https://a/b", "https://a/"));
    assert_eq!(step, Step::Resend);
    assert_eq!(
        flow.headers.get_first("authorization"),
        Some(String::from("Bearer SECRET-REDACTED"))
    );
}

#[test]
fn non_redirect_status_is_terminal() {
    let mut flow = begin_get("https://a/", RedirectPolicy::Limit(10));
    let step = flow.handle_response(&plain_response(200, "https://a/"));
    assert_eq!(step, Step::Terminal);
}

#[test]
fn missing_location_is_terminal() {
    let mut flow = begin_get("https://a/", RedirectPolicy::Limit(10));
    let step = flow.handle_response(&plain_response(302, "https://a/"));
    assert_eq!(step, Step::Terminal);
}

#[test]
fn unresolvable_location_is_terminal() {
    let mut flow = begin_get("https://a/", RedirectPolicy::Limit(10));
    let step = flow.handle_response(&redirect_response(302, "http://[bad", "https://a/"));
    assert_eq!(step, Step::Terminal);
}

#[test]
fn no_follow_policy_stops_on_first_redirect() {
    let mut flow = begin_get("https://a/", RedirectPolicy::NoFollow);
    let step = flow.handle_response(&redirect_response(301, "https://a/b", "https://a/"));
    assert_eq!(step, Step::Terminal);
    assert_eq!(flow.url.serialize(), "https://a/");
}

#[test]
fn custom_policy_asks_and_obeys_follow() {
    let mut flow = begin_get("https://a/", RedirectPolicy::Custom);
    let step = flow.handle_response(&redirect_response(302, "https://b/", "https://a/"));
    assert_eq!(step, Step::AskPolicy);
    let candidate = flow.pending.as_ref().expect("a candidate is pending");
    assert_eq!(candidate.serialize(), "https://b/");
    let step = flow.apply_action(Action::Follow);
    assert_eq!(step, Step::Resend);
    assert_eq!(flow.url.serialize(), "https://b/");
}

#[test]
fn custom_policy_stop_is_terminal_not_error() {
    let mut flow = begin_get("https://a/", RedirectPolicy::Custom);
    let step = flow.handle_response(&redirect_response(302, "https://b/", "https://a/"));
    assert_eq!(step, Step::AskPolicy);
    let step = flow.apply_action(Action::Stop);
    assert_eq!(step, Step::Terminal);
    assert_eq!(flow.url.serialize(), "https://a/");
}

#[test]
fn relative_location_resolves_against_current_url() {
    let mut flow = begin_get("https://a/dir/page", RedirectPolicy::Limit(10));
    let step = flow.handle_response(&redirect_response(302, "other", "https://a/dir/page"));
    assert_eq!(step, Step::Resend);
    assert_eq!(flow.url.serialize(), "https://a/dir/other");
}

#[test]
fn referer_strips_userinfo_and_fragment() {
    let mut flow = begin_get("https://user:pw@a/page#frag", RedirectPolicy::Limit(10));
    let step = flow.handle_response(&redirect_response(302, "https://b/", "https://a/page"));
    assert_eq!(step, Step::Resend);
    assert_eq!(flow.headers.get_first("referer"), Some(String::from("https://a/page")));
}

#[test]
fn referer_disabled_leaves_headers_alone() {
    let mut request = Request::new(Method::Get, url("https://a/"));
    request.headers.add("Referer", "https://earlier/");
    let mut flow = RedirectFlow::begin(RedirectPolicy::Limit(10), false, true, request);
    let step = flow.handle_response(&redirect_response(302, "https://a/b", "https://a/"));
    assert_eq!(step, Step::Resend);
    assert_eq!(flow.headers.get_first("referer"), Some(String::from("https://earlier/")));
}

#[test]
fn default_headers_are_filled_once() {
    let mut request = Request::new(Method::Get, url("https://a/"));
    request.headers.add("User-Agent", "custom/1");
    let flow = RedirectFlow::begin(RedirectPolicy::Limit(10), true, true, request);
    assert_eq!(flow.headers.get_first("user-agent"), Some(String::from("custom/1")));
    assert_eq!(flow.headers.get_first("accept"), Some(String::from("*/*")));
    assert_eq!(flow.headers.get_first("accept-encoding"), Some(String::from("gzip")));
}

#[test]
fn range_header_suppresses_gzip_negotiation() {
    let mut request = Request::new(Method::Get, url("https://a/"));
    request.headers.add("Range", "bytes=0-99");
    let flow = RedirectFlow::begin(RedirectPolicy::Limit(10), true, true, request);
    assert!(!flow.headers.has("accept-encoding"));
}

#[test]
fn gzip_disabled_adds_no_accept_encoding() {
    let flow = RedirectFlow::begin(
        RedirectPolicy::Limit(10),
        true,
        false,
        Request::new(Method::Get, url("https://a/")),
    );
    assert!(!flow.headers.has("accept-encoding"));
}
