//! Route and rule selection: precedence between host matches, path
//! lengths and header counts, and the first-match-wins tie break.

use proxy_retry::filter::Scheme;
use proxy_retry::http_types::{Extensions, HttpVersion, RequestHead, Uri};
use proxy_retry::matching::{MatchHeader, MatchHost, MatchQueryParam, MatchRequest, RequestMatch};
use proxy_retry::path::{MatchPath, RegexMatcher};
use proxy_retry::routes::{InboundRoute, InboundRoutes, InboundRule};

/// Builds the request-head model from a URL string, the way an HTTP
/// library would present it: scheme, host, path (`/` when absent) and
/// query pairs.
fn request(url: &str) -> RequestHead {
    request_with(url, "GET", &[])
}

fn request_with(url: &str, method: &str, headers: &[(&str, &str)]) -> RequestHead {
    let (scheme, rest) = if let Some(r) = url.strip_prefix("http://") {
        (Some(Scheme::Http), r)
    } else if let Some(r) = url.strip_prefix("https://") {
        (Some(Scheme::Https), r)
    } else {
        (None, url)
    };
    let (host_and_path, query_str) = match rest.split_once('?') {
        Some((a, b)) => (a, Some(b)),
        None => (rest, None),
    };
    let (host, path) = match host_and_path.find('/') {
        Some(i) => (&host_and_path[..i], &host_and_path[i..]),
        None => (host_and_path, "/"),
    };
    let query = query_str
        .map(|q| {
            q.split('&')
                .filter(|kv| !kv.is_empty())
                .map(|kv| match kv.split_once('=') {
                    Some((k, v)) => (k.as_bytes().to_vec(), v.as_bytes().to_vec()),
                    None => (kv.as_bytes().to_vec(), Vec::new()),
                })
                .collect()
        })
        .unwrap_or_default();
    RequestHead {
        method: method.as_bytes().to_vec(),
        uri: Uri {
            scheme,
            host: host.as_bytes().to_vec(),
            path: path.as_bytes().to_vec(),
            query,
        },
        version: HttpVersion::H2,
        headers: headers
            .iter()
            .map(|(k, v)| (k.as_bytes().to_vec(), v.as_bytes().to_vec()))
            .collect(),
        extensions: Extensions { client_handle: None, classify_override: None },
    }
}

fn rule(matches: Vec<MatchRequest>, labels: &[(&str, &str)]) -> InboundRule {
    InboundRule {
        matches,
        filters: vec![],
        labels: labels
            .iter()
            .map(|(k, v)| (k.to_string(), v.to_string()))
            .collect(),
    }
}

fn labelled(rts: &InboundRoutes, found: Option<(usize, usize)>, key: &str) -> bool {
    let (route_idx, rule_idx) = found.expect("must match");
    rts.0[route_idx].rules[rule_idx]
        .labels
        .iter()
        .any(|(k, _)| k == key)
}

#[test]
fn inbound_find_route_hostname_precedence() {
    // Given two equivalent routes, choose the explicit hostname match and
    // not the wildcard.
    let rts = InboundRoutes(vec![
        InboundRoute {
            hosts: vec![MatchHost::Suffix(b"example.com".to_vec())],
            rules: vec![rule(
                vec![MatchRequest {
                    path: Some(MatchPath::Exact(b"/foo".to_vec())),
                    ..MatchRequest::default()
                }],
                &[],
            )],
            labels: vec![],
        },
        InboundRoute {
            hosts: vec![MatchHost::Exact(b"foo.example.com".to_vec())],
            rules: vec![rule(
                vec![MatchRequest {
                    path: Some(MatchPath::Exact(b"/foo".to_vec())),
                    ..MatchRequest::default()
                }],
                &[("expected", "")],
            )],
            labels: vec![],
        },
    ]);

    let req = request("http://foo.example.com/foo");
    let found = rts.find_route(&req);
    assert!(labelled(&rts, found, "expected"), "incorrect rule matched");
}

#[test]
fn inbound_find_route_path_length_precedence() {
    // Given two equivalent routes, choose the longer path match.
    let rts = InboundRoutes(vec![
        InboundRoute {
            hosts: vec![],
            rules: vec![rule(
                vec![MatchRequest {
                    path: Some(MatchPath::Prefix(b"/foo".to_vec())),
                    ..MatchRequest::default()
                }],
                &[],
            )],
            labels: vec![],
        },
        InboundRoute {
            hosts: vec![],
            rules: vec![rule(
                vec![MatchRequest {
                    path: Some(MatchPath::Exact(b"/foo/bar".to_vec())),
                    ..MatchRequest::default()
                }],
                &[("expected", "")],
            )],
            labels: vec![],
        },
    ]);

    let req = request("http://foo.example.com/foo/bar");
    let found = rts.find_route(&req);
    assert!(labelled(&rts, found, "expected"), "incorrect rule matched");
}

#[test]
fn inbound_find_route_header_count_precedence() {
    // Given two routes with header matches, use the one that matches more
    // headers.
    let rts = InboundRoutes(vec![
        InboundRoute {
            hosts: vec![],
            rules: vec![rule(
                vec![MatchRequest {
                    headers: vec![
                        MatchHeader::Exact(b"x-foo".to_vec(), b"bar".to_vec()),
                        MatchHeader::Exact(b"x-baz".to_vec(), b"qux".to_vec()),
                    ],
                    ..MatchRequest::default()
                }],
                &[],
            )],
            labels: vec![],
        },
        InboundRoute {
            hosts: vec![],
            rules: vec![rule(
                vec![MatchRequest {
                    headers: vec![
                        MatchHeader::Exact(b"x-foo".to_vec(), b"bar".to_vec()),
                        MatchHeader::Exact(b"x-baz".to_vec(), b"qux".to_vec()),
                        MatchHeader::Exact(b"x-biz".to_vec(), b"qyx".to_vec()),
                    ],
                    ..MatchRequest::default()
                }],
                &[("expected", "")],
            )],
            labels: vec![],
        },
    ]);

    let req = request_with(
        "http://www.example.com",
        "GET",
        &[("x-foo", "bar"), ("x-baz", "qux"), ("x-biz", "qyx")],
    );
    let found = rts.find_route(&req);
    assert!(labelled(&rts, found, "expected"), "incorrect rule matched");
}

#[test]
fn inbound_find_route_first_identical_wins() {
    // Among identical candidates, the first configured one wins.
    let rts = InboundRoutes(vec![
        InboundRoute {
            hosts: vec![],
            rules: vec![
                rule(vec![], &[("expected", "")]),
                // Redundant unlabeled rule.
                rule(vec![], &[]),
            ],
            labels: vec![],
        },
        // Redundant unlabeled route.
        InboundRoute {
            hosts: vec![],
            rules: vec![rule(vec![], &[])],
            labels: vec![],
        },
    ]);

    let found = rts.find_route(&request("http://example.com/"));
    assert!(labelled(&rts, found, "expected"), "incorrect rule matched");
}

#[test]
fn host_requirements_gate_the_whole_route() {
    // A route whose host requirements all fail matches no rule at all,
    // even though its rules would otherwise match.
    let rts = InboundRoutes(vec![InboundRoute {
        hosts: vec![MatchHost::Exact(b"other.example.com".to_vec())],
        rules: vec![rule(vec![], &[])],
        labels: vec![],
    }]);
    assert!(rts.find_route(&request("http://foo.example.com/foo")).is_none());

    // The wildcard needs at least one label before the suffix.
    let rts = InboundRoutes(vec![InboundRoute {
        hosts: vec![MatchHost::Suffix(b"example.com".to_vec())],
        rules: vec![rule(vec![], &[])],
        labels: vec![],
    }]);
    assert!(rts.find_route(&request("http://example.com/")).is_none());
    assert!(rts.find_route(&request("http://a.example.com/")).is_some());
}

// Empty matches apply to all requests.
#[test]
fn empty_match() {
    let m = MatchRequest::default();

    let req = request("http://example.com/");
    assert_eq!(m.summarize_match(&req), Some(RequestMatch::default()));

    let req = request_with("http://example.com/", "HEAD", &[]);
    assert_eq!(m.summarize_match(&req), Some(RequestMatch::default()));
}

#[test]
fn method() {
    let m = MatchRequest {
        method: Some(b"GET".to_vec()),
        ..MatchRequest::default()
    };

    let req = request("http://example.com/foo");
    assert_eq!(
        m.summarize_match(&req),
        Some(RequestMatch { method: true, ..RequestMatch::default() })
    );

    let req = request_with("https://example.org/", "HEAD", &[]);
    assert_eq!(m.summarize_match(&req), None);
}

#[test]
fn headers() {
    let m = MatchRequest {
        headers: vec![
            MatchHeader::Exact(b"x-foo".to_vec(), b"bar".to_vec()),
            MatchHeader::Regex(b"x-baz".to_vec(), RegexMatcher::new("qu+x").unwrap()),
        ],
        ..MatchRequest::default()
    };

    let req = request("http://example.com/foo");
    assert_eq!(m.summarize_match(&req), None);

    // Invalid header value.
    let req = request_with("https://example.org/", "GET", &[("x-foo", "bar"), ("x-baz", "zab")]);
    assert_eq!(m.summarize_match(&req), None);

    // Regex matches apply.
    let req = request_with(
        "https://example.org/",
        "GET",
        &[("x-foo", "bar"), ("x-baz", "quuuux")],
    );
    assert_eq!(
        m.summarize_match(&req),
        Some(RequestMatch { headers: 2, ..RequestMatch::default() })
    );

    // Regex must be anchored.
    let req = request_with(
        "https://example.org/",
        "GET",
        &[("x-foo", "bar"), ("x-baz", "quxa")],
    );
    assert_eq!(m.summarize_match(&req), None);
}

#[test]
fn path() {
    let m = MatchRequest {
        path: Some(MatchPath::Exact(b"/foo/bar".to_vec())),
        ..MatchRequest::default()
    };

    let req = request("http://example.com/foo");
    assert_eq!(m.summarize_match(&req), None);

    let req = request("https://example.org/foo/bar");
    assert_eq!(
        m.summarize_match(&req),
        Some(RequestMatch {
            path_match_length: "/foo/bar".len(),
            ..RequestMatch::default()
        })
    );
}

#[test]
fn multiple() {
    let m = MatchRequest {
        path: Some(MatchPath::Exact(b"/foo/bar".to_vec())),
        headers: vec![MatchHeader::Exact(b"x-foo".to_vec(), b"bar".to_vec())],
        query_params: vec![MatchQueryParam::Exact(b"foo".to_vec(), b"bar".to_vec())],
        method: Some(b"GET".to_vec()),
    };

    let req = request_with("https://example.org/foo/bar?foo=bar", "GET", &[("x-foo", "bar")]);
    assert_eq!(
        m.summarize_match(&req),
        Some(RequestMatch {
            path_match_length: "/foo/bar".len(),
            headers: 1,
            query_params: 1,
            method: true,
        })
    );

    // One invalid field (method) invalidates the match.
    let req = request_with("https://example.org/foo/bar?foo=bar", "HEAD", &[("x-foo", "bar")]);
    assert_eq!(m.summarize_match(&req), None);
}

fn uri_of_path(path: &str) -> Uri {
    Uri {
        scheme: None,
        host: Vec::new(),
        path: path.as_bytes().to_vec(),
        query: Vec::new(),
    }
}

#[test]
fn path_exact() {
    let m = MatchPath::Exact(b"/foo/bar".to_vec());
    assert_eq!(m.match_length(&uri_of_path("/foo/bar")), Some("/foo/bar".len()));
    assert_eq!(m.match_length(&uri_of_path("/foo")), None);
    assert_eq!(m.match_length(&uri_of_path("/foo/bah")), None);
    assert_eq!(m.match_length(&uri_of_path("/foo/bar/qux")), None);
}

#[test]
fn path_prefix() {
    let m = MatchPath::Prefix(b"/foo".to_vec());
    assert_eq!(m.match_length(&uri_of_path("/foo")), Some("/foo".len()));
    assert_eq!(m.match_length(&uri_of_path("/foo/bar")), Some("/foo/".len()));
    assert_eq!(m.match_length(&uri_of_path("/foo/bar/qux")), Some("/foo/".len()));
    assert_eq!(m.match_length(&uri_of_path("/foobar")), None);
}

#[test]
fn path_regex() {
    let m = MatchPath::Regex(RegexMatcher::new(r"/foo/\d+").unwrap());
    assert_eq!(m.match_length(&uri_of_path("/foo/4")), Some("/foo/4".len()));
    assert_eq!(m.match_length(&uri_of_path("/foo/4321")), Some("/foo/4321".len()));
    assert_eq!(m.match_length(&uri_of_path("/bar/foo/4")), None);
    assert_eq!(m.match_length(&uri_of_path("/foo/4abc")), None);
    assert_eq!(m.match_length(&uri_of_path("/foo/4/bar")), None);
    assert_eq!(m.match_length(&uri_of_path("/foo/bar")), None);
}

#[test]
fn path_rules_compare_by_shape_and_pattern() {
    let a = MatchPath::Exact(b"/foo".to_vec());
    let b = MatchPath::Exact(b"/foo".to_vec());
    let c = MatchPath::Prefix(b"/foo".to_vec());
    assert!(a == b);
    assert!(a != c);
    let re1 = MatchPath::Regex(RegexMatcher::new("/a/.*").unwrap());
    let re2 = MatchPath::Regex(RegexMatcher::new("/a/.*").unwrap());
    let re3 = MatchPath::Regex(RegexMatcher::new("/b/.*").unwrap());
    assert!(re1 == re2);
    assert!(re1 != re3);
}

#[test]
fn invalid_regex_patterns_are_rejected() {
    assert!(RegexMatcher::new("(unclosed").is_none());
    assert!(RegexMatcher::new("qu+x").is_some());
}

#[test]
fn query_param_regex() {
    let m = MatchRequest {
        query_params: vec![MatchQueryParam::Regex(
            b"id".to_vec(),
            RegexMatcher::new(r"\d+").unwrap(),
        )],
        ..MatchRequest::default()
    };

    let req = request("https://example.org/?id=1234");
    assert_eq!(
        m.summarize_match(&req),
        Some(RequestMatch { query_params: 1, ..RequestMatch::default() })
    );

    // The value must match over its whole length.
    let req = request("https://example.org/?id=12a");
    assert_eq!(m.summarize_match(&req), None);
    // A missing parameter fails the requirement.
    let req = request("https://example.org/?other=1");
    assert_eq!(m.summarize_match(&req), None);
}
