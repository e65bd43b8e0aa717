use proxie::dispatch::{allowed_methods, get, respond, Action, Body, Reply, MAX_REDIRECT_COUNT};
use proxie::redirect::{Failure, Fetched, Hop, Location, RedirectState};
use proxie::request::{IncomingRequest, Method};
use proxie::translate::{find_external_uri, MalformedTarget, TargetUri};

fn request(method: Method, path: &str, scheme: Option<&str>, query: Option<&str>) -> IncomingRequest {
    IncomingRequest {
        method,
        path: path.to_string(),
        scheme: scheme.map(|s| s.to_string()),
        query: query.map(|q| q.to_string()),
    }
}

fn target(path: &str, scheme: Option<&str>, query: Option<&str>) -> TargetUri {
    match find_external_uri(&request(Method::Get, path, scheme, query)) {
        Some(Ok(t)) => t,
        other => panic!("expected a target, got {:?}", other),
    }
}

fn redirect_to(uri: &str) -> Fetched {
    Fetched::Response { status: 302, location: Location::Value(uri.as_bytes().to_vec()) }
}

fn ok_response() -> Fetched {
    Fetched::Response { status: 200, location: Location::Absent }
}

#[test]
fn translation_splits_host_and_rest() {
    let t = target("/example.com/a/b/c", None, None);
    assert_eq!(t.scheme, "https");
    assert_eq!(t.authority, "example.com");
    assert_eq!(t.path_and_query, "/a/b/c");
}

#[test]
fn translation_of_empty_rest_is_root() {
    let t = target("/example.com/", None, None);
    assert_eq!(t.authority, "example.com");
    assert_eq!(t.path_and_query, "/");
    let t = target("/example.com", None, None);
    assert_eq!(t.path_and_query, "/");
}

#[test]
fn translation_collapses_empty_segments() {
    let t = target("//example.com//a///b/", None, None);
    assert_eq!(t.authority, "example.com");
    assert_eq!(t.path_and_query, "/a/b");
}

#[test]
fn translation_default_scheme_and_query() {
    let t = target("/example.com/foo", None, Some("bar=1"));
    assert_eq!(t.to_uri_string(), "https://example.com/foo?bar=1");
}

#[test]
fn translation_keeps_request_scheme() {
    let t = target("/example.com/foo", Some("http"), None);
    assert_eq!(t.to_uri_string(), "http://example.com/foo");
}

#[test]
fn translation_of_empty_paths_is_no_target() {
    assert!(find_external_uri(&request(Method::Get, "/", None, None)).is_none());
    assert!(find_external_uri(&request(Method::Get, "", None, None)).is_none());
    assert!(find_external_uri(&request(Method::Get, "///", None, Some("a=1"))).is_none());
}

#[test]
fn translation_rejects_malformed_authority() {
    let r = find_external_uri(&request(Method::Get, "/exa mple.com/foo", None, None));
    assert!(matches!(r, Some(Err(MalformedTarget::MalformedTarget))));
}

#[test]
fn get_forwards_to_target() {
    let r = get(&request(Method::Get, "/example.com/foo", None, Some("bar=1")));
    assert!(matches!(r, Action::Fetch(ref u) if u == "https://example.com/foo?bar=1"));
}

#[test]
fn get_root_serves_home_page() {
    let (_, a) = respond(&request(Method::Get, "/", None, None), MAX_REDIRECT_COUNT);
    assert!(matches!(a, Action::Reply(Reply { status: 200, allow: false, body: Body::HomePage })));
}

#[test]
fn head_root_serves_empty_body() {
    let (ex, a) = respond(&request(Method::Head, "/", None, None), MAX_REDIRECT_COUNT);
    assert!(ex.strip_body);
    assert!(matches!(a, Action::Reply(Reply { status: 200, allow: false, body: Body::Empty })));
}

#[test]
fn options_answers_without_fetch() {
    for path in ["*", "/", "/example.com/foo"] {
        let (_, a) = respond(&request(Method::Options, path, None, None), MAX_REDIRECT_COUNT);
        assert!(matches!(a, Action::Reply(Reply { status: 204, allow: true, body: Body::Empty })));
    }
    assert_eq!(allowed_methods(), "GET, HEAD, OPTIONS");
}

#[test]
fn other_methods_are_rejected() {
    let (_, a) = respond(&request(Method::Other, "/example.com/foo", None, None), MAX_REDIRECT_COUNT);
    assert!(matches!(a, Action::Reply(Reply { status: 405, allow: true, body: Body::Empty })));
}

#[test]
fn head_fetches_like_get_and_strips_body() {
    let (mut head, a) = respond(&request(Method::Head, "/example.com/foo", None, None), MAX_REDIRECT_COUNT);
    let (mut getx, b) = respond(&request(Method::Get, "/example.com/foo", None, None), MAX_REDIRECT_COUNT);
    assert!(matches!(a, Action::Fetch(ref u) if u == "https://example.com/foo"));
    assert!(matches!(b, Action::Fetch(ref u) if u == "https://example.com/foo"));
    assert!(matches!(head.on_fetched(&ok_response()), Action::Relay { strip_body: true }));
    assert!(matches!(getx.on_fetched(&ok_response()), Action::Relay { strip_body: false }));
}

#[test]
fn malformed_target_is_reported() {
    let (_, a) = respond(&request(Method::Get, "/exa mple.com/foo", None, None), MAX_REDIRECT_COUNT);
    assert!(matches!(a, Action::Malformed(MalformedTarget::MalformedTarget)));
}

#[test]
fn five_redirects_end_in_gateway_timeout() {
    let (mut ex, _) = respond(&request(Method::Get, "/example.com/", None, None), MAX_REDIRECT_COUNT);
    for i in 0..5 {
        let uri = format!("https://example.com/{}", i);
        assert!(matches!(ex.on_fetched(&redirect_to(&uri)), Action::Fetch(ref u) if *u == uri));
    }
    assert_eq!(ex.redirects.count, 5);
    let last = ex.on_fetched(&redirect_to("https://example.com/6"));
    assert!(matches!(last, Action::Reply(Reply { status: 504, allow: false, body: Body::Empty })));
}

#[test]
fn four_redirects_relay_the_fifth_response() {
    let mut st = RedirectState::new(MAX_REDIRECT_COUNT);
    for _ in 0..4 {
        assert!(matches!(st.on_fetched(&redirect_to("/next")), Hop::Fetch(_)));
    }
    assert!(matches!(st.on_fetched(&ok_response()), Hop::Relay));
    assert_eq!(st.count, 4);
}

#[test]
fn redirect_without_location_is_bad_gateway() {
    for count in 0..5 {
        let mut st = RedirectState { count, max_redirects: 5 };
        let r = st.on_fetched(&Fetched::Response { status: 301, location: Location::Absent });
        assert!(matches!(r, Hop::Fail(Failure::MissingRedirectLocation)));
        assert_eq!(Failure::MissingRedirectLocation.status(), 502);
        assert_eq!(st.count, count);
    }
}

#[test]
fn redirect_to_invalid_location_is_bad_gateway() {
    let mut st = RedirectState::new(5);
    let r = st.on_fetched(&Fetched::Response { status: 307, location: Location::Value(vec![b'/', 0xC3, 0xA9]) });
    assert!(matches!(r, Hop::Fail(Failure::InvalidRedirectLocation)));
    let r = st.on_fetched(&Fetched::Response { status: 307, location: Location::Value(vec![b'/', 0x01]) });
    assert!(matches!(r, Hop::Fail(Failure::InvalidRedirectLocation)));
    let r = st.on_fetched(&redirect_to("http://exa mple.com/"));
    assert!(matches!(r, Hop::Fail(Failure::InvalidRedirectLocation)));
    assert_eq!(Failure::InvalidRedirectLocation.status(), 502);
    assert_eq!(st.count, 0);
}

#[test]
fn followed_location_keeps_its_text() {
    let mut st = RedirectState::new(5);
    let r = st.on_fetched(&redirect_to("https://example.org/a?b=c"));
    assert!(matches!(r, Hop::Fetch(ref u) if u == "https://example.org/a?b=c"));
    assert_eq!(st.count, 1);
}

#[test]
fn transport_failure_is_not_found() {
    let (mut ex, _) = respond(&request(Method::Get, "/example.com/foo", None, None), MAX_REDIRECT_COUNT);
    let a = ex.on_fetched(&Fetched::TransportFailure);
    assert!(matches!(a, Action::Reply(Reply { status: 404, allow: false, body: Body::Empty })));
}

#[test]
fn statuses_outside_redirection_are_relayed() {
    for status in [200u16, 204, 299, 400, 404, 500] {
        let mut st = RedirectState::new(5);
        assert!(matches!(st.on_fetched(&Fetched::Response { status, location: Location::Absent }), Hop::Relay));
    }
    let mut st = RedirectState::new(5);
    assert!(matches!(st.on_fetched(&Fetched::Response { status: 399, location: Location::Absent }), Hop::Fail(_)));
}

#[test]
fn failure_statuses() {
    assert_eq!(Failure::TransportFailure.status(), 404);
    assert_eq!(Failure::TooManyRedirects.status(), 504);
}
