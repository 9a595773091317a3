//! The authority-override middleware: URI rewriting and header
//! stripping, and the classifier's rule set.

use proxy_retry::authority::{set_authority, AuthorityOverride, NewOverrideAuthority};
use proxy_retry::classify::{is_failure, ResponseClass};
use proxy_retry::filter::Scheme;
use proxy_retry::http_types::{Extensions, HttpVersion, RequestHead, Uri};

fn head() -> RequestHead {
    RequestHead {
        method: b"GET".to_vec(),
        uri: Uri {
            scheme: Some(Scheme::Https),
            host: b"old.example.com".to_vec(),
            path: b"/docs".to_vec(),
            query: vec![],
        },
        version: HttpVersion::H2,
        headers: vec![
            (b"l5d-dst-override".to_vec(), b"svc".to_vec()),
            (b"x-keep".to_vec(), b"yes".to_vec()),
            (b"l5d-remote-ip".to_vec(), b"10.0.0.1".to_vec()),
        ],
        extensions: Extensions { client_handle: None, classify_override: None },
    }
}

#[test]
fn set_authority_gives_origin_form_targets_a_scheme() {
    // An origin-form target (it has a path) cannot carry an authority
    // alone: it is also given the HTTP scheme.
    let mut uri = Uri {
        scheme: None,
        host: b"a".to_vec(),
        path: b"/docs".to_vec(),
        query: vec![],
    };
    set_authority(&mut uri, b"example.com".to_vec());
    assert_eq!(uri.host, b"example.com".to_vec());
    assert_eq!(uri.scheme, Some(Scheme::Http));
    assert_eq!(uri.path, b"/docs".to_vec());

    // An authority-form target (CONNECT: no path) keeps its scheme, since
    // adding one would change its meaning.
    let mut uri = Uri {
        scheme: None,
        host: b"a".to_vec(),
        path: Vec::new(),
        query: vec![],
    };
    set_authority(&mut uri, b"example.com".to_vec());
    assert_eq!(uri.host, b"example.com".to_vec());
    assert_eq!(uri.scheme, None);
}

#[test]
fn override_strips_headers_and_rewrites_the_authority() {
    let new = NewOverrideAuthority::new(vec![
        b"l5d-dst-override".to_vec(),
        b"l5d-remote-ip".to_vec(),
    ]);
    let svc = new.new_service(Some(AuthorityOverride(b"new.example.com".to_vec())));

    let mut req = head();
    svc.call(&mut req);
    assert_eq!(req.uri.host, b"new.example.com".to_vec());
    assert_eq!(req.headers, vec![(b"x-keep".to_vec(), b"yes".to_vec())]);
}

#[test]
fn no_override_passes_the_request_through() {
    let new = NewOverrideAuthority::new(vec![b"l5d-dst-override".to_vec()]);
    let svc = new.new_service(None);

    let mut req = head();
    let before = head();
    svc.call(&mut req);
    assert_eq!(req.uri.host, before.uri.host);
    assert_eq!(req.headers, before.headers);
}

#[test]
fn classifier_rules_and_defaults() {
    // No rules: the default applies. A gRPC status decides when present.
    assert!(is_failure(&vec![], 200, Some(14)));
    assert!(!is_failure(&vec![], 500, Some(0)));
    // Without one, a server error is a failure.
    assert!(is_failure(&vec![], 500, None));
    assert!(is_failure(&vec![], 503, None));
    assert!(!is_failure(&vec![], 200, None));
    assert!(!is_failure(&vec![], 404, None));

    // The first matching rule decides.
    let classes = vec![
        ResponseClass { min_status: 404, max_status: 404, is_failure: true },
        ResponseClass { min_status: 400, max_status: 499, is_failure: false },
    ];
    assert!(is_failure(&classes, 404, None));
    assert!(!is_failure(&classes, 400, None));
    // Statuses no rule covers fall back to the default.
    assert!(is_failure(&classes, 500, None));
    assert!(!is_failure(&classes, 200, None));
}
