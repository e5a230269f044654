use httpflow::headers::HeaderMap;
use httpflow::redirect::remove_sensitive_headers;
use httpflow::urls::parse_url;

#[test]
fn lookups_ignore_ascii_case() {
    let mut h = HeaderMap::new();
    h.add("Content-Type", "text/plain");
    assert!(h.has("content-type"));
    assert!(h.has("CONTENT-TYPE"));
    assert_eq!(h.get_first("cOnTenT-tYpE"), Some(String::from("text/plain")));
    assert!(!h.has("content"));
}

#[test]
fn one_name_may_carry_several_values_in_order() {
    let mut h = HeaderMap::new();
    h.add("Accept", "text/html");
    h.add("accept", "application/json");
    assert_eq!(h.len(), 2);
    assert_eq!(h.get_first("ACCEPT"), Some(String::from("text/html")));
}

#[test]
fn set_replaces_every_value_of_the_name() {
    let mut h = HeaderMap::new();
    h.add("X-A", "1");
    h.add("x-a", "2");
    h.add("X-B", "3");
    h.set("X-A", "9");
    assert_eq!(h.len(), 2);
    assert_eq!(h.get_first("x-a"), Some(String::from("9")));
    assert_eq!(h.get_first("x-b"), Some(String::from("3")));
}

#[test]
fn remove_deletes_all_matching_lines_and_nothing_else() {
    let mut h = HeaderMap::new();
    h.add("Cookie", "a=1");
    h.add("COOKIE", "b=2");
    h.add("Accept", "*/*");
    h.remove("cookie");
    assert!(!h.has("cookie"));
    assert_eq!(h.get_first("accept"), Some(String::from("*/*")));
    assert_eq!(h.len(), 1);
}

#[test]
fn get_first_on_a_missing_name_is_none() {
    let h = HeaderMap::new();
    assert_eq!(h.get_first("anything"), None);
    assert_eq!(h.len(), 0);
}

#[test]
fn sanitizer_strips_only_across_origins() {
    let mut h = HeaderMap::new();
    h.add("Authorization", "Bearer SECRET-REDACTED");
    h.add("Proxy-Authorization", "Basic SECRET-REDACTED");
    h.add("Cookie", "s=1");
    h.add("Cookie2", "t=2");
    h.add("Accept", "*/*");
    let a = parse_url("https://a/").unwrap();
    let b = parse_url("https://b/").unwrap();
    let history = vec![a];

    let mut same = h.clone();
    let back_to_a = parse_url("https://a/other").unwrap();
    remove_sensitive_headers(&mut same, &back_to_a, &history);
    assert_eq!(same.len(), 5);
    assert!(same.has("authorization"));

    let mut crossed = h.clone();
    remove_sensitive_headers(&mut crossed, &b, &history);
    assert!(!crossed.has("authorization"));
    assert!(!crossed.has("proxy-authorization"));
    assert!(!crossed.has("cookie"));
    assert!(!crossed.has("cookie2"));
    assert_eq!(crossed.get_first("accept"), Some(String::from("*/*")));
}

#[test]
fn scheme_change_alone_is_an_origin_change() {
    let mut h = HeaderMap::new();
    h.add("Authorization", "Bearer SECRET-REDACTED");
    let history = vec![parse_url("https://a/").unwrap()];
    let downgraded = parse_url("http://a/").unwrap();
    remove_sensitive_headers(&mut h, &downgraded, &history);
    assert!(!h.has("authorization"));
}

#[test]
fn empty_history_strips_nothing() {
    let mut h = HeaderMap::new();
    h.add("Authorization", "Bearer SECRET-REDACTED");
    let history: Vec<httpflow::urls::HttpUrl> = Vec::new();
    let next = parse_url("https://b/").unwrap();
    remove_sensitive_headers(&mut h, &next, &history);
    assert!(h.has("authorization"));
}
