//! Authority override: a middleware that, when a target carries an
//! authority override, strips a configured set of headers from the
//! request and rewrites the request URI's authority; without an override
//! it passes the request through untouched.

use vstd::prelude::*;

use crate::filter::Scheme;
use crate::http_types::{RequestHead, Uri};
use crate::strings::{bytes_eq, clone_byte_list, clone_bytes};

verus! {

/// The authority a target wants requests rewritten to.
pub struct AuthorityOverride(pub Vec<u8>);

/// Sets the authority of a URI. An origin-form target (one that has a
/// path) cannot legally carry only an authority, so such a URI is also
/// given the HTTP scheme; an authority-form target (no path, as in
/// CONNECT) keeps its scheme untouched, since adding one would change
/// its meaning.
pub fn set_authority(uri: &mut Uri, auth: Vec<u8>)
    ensures
        final(uri).host@ == auth@,
        final(uri).path == old(uri).path,
        final(uri).query == old(uri).query,
        old(uri).path@.len() > 0 ==> final(uri).scheme == Some(Scheme::Http),
        old(uri).path@.len() == 0 ==> final(uri).scheme == old(uri).scheme,
{
    uri.host = auth;
    if uri.path.len() > 0 {
        uri.scheme = Some(Scheme::Http);
    }
}

/// Whether `name` occurs in `names`.
pub open spec fn spec_name_in(name: Seq<u8>, names: Seq<Seq<u8>>) -> bool {
    exists|i: int| 0 <= i < names.len() && #[trigger] names[i] == name
}

/// The headers left after every header whose name occurs in `names` is
/// removed, in their original order.
pub open spec fn spec_strip_headers(
    headers: Seq<(Seq<u8>, Seq<u8>)>,
    names: Seq<Seq<u8>>,
) -> Seq<(Seq<u8>, Seq<u8>)>
    decreases headers.len(),
{
    if headers.len() == 0 {
        Seq::empty()
    } else {
        let rest = spec_strip_headers(headers.drop_last(), names);
        if spec_name_in(headers.last().0, names) {
            rest
        } else {
            rest.push(headers.last())
        }
    }
}

fn name_in(name: &Vec<u8>, names: &Vec<Vec<u8>>) -> (r: bool)
    ensures
        r == spec_name_in(name@, names.deep_view()),
{
    let mut i: usize = 0;
    while i < names.len()
        invariant
            i <= names.len(),
            forall|j: int| 0 <= j < i ==> #[trigger] names.deep_view()[j] != name@,
        decreases names.len() - i,
    {
        let hit = bytes_eq(names[i].as_slice(), name.as_slice());
        proof {
            assert(names.deep_view()[i as int] =~= names@[i as int]@);
        }
        if hit {
            return true;
        }
        i = i + 1;
    }
    false
}

fn strip_headers(headers: &Vec<(Vec<u8>, Vec<u8>)>, names: &Vec<Vec<u8>>) -> (r: Vec<
    (Vec<u8>, Vec<u8>),
>)
    ensures
        r.deep_view() == spec_strip_headers(headers.deep_view(), names.deep_view()),
{
    let mut r: Vec<(Vec<u8>, Vec<u8>)> = Vec::new();
    let mut i: usize = 0;
    while i < headers.len()
        invariant
            i <= headers.len(),
            r.deep_view() == spec_strip_headers(
                headers.deep_view().subrange(0, i as int),
                names.deep_view(),
            ),
        decreases headers.len() - i,
    {
        let ghost prefix = headers.deep_view().subrange(0, i as int);
        let ghost next_prefix = headers.deep_view().subrange(0, i + 1 as int);
        let ghost before = r.deep_view();
        let pair = &headers[i];
        proof {
            assert(headers@[i as int].0.deep_view() =~= headers@[i as int].0@);
            assert(headers@[i as int].1.deep_view() =~= headers@[i as int].1@);
        }
        let keep = !name_in(&pair.0, names);
        if keep {
            let cloned_name = clone_bytes(&pair.0);
            let cloned_value = clone_bytes(&pair.1);
            proof {
                assert(cloned_name.deep_view() =~= headers@[i as int].0@);
                assert(cloned_value.deep_view() =~= headers@[i as int].1@);
            }
            r.push((cloned_name, cloned_value));
            proof {
                assert(r.deep_view() =~= before.push(headers.deep_view()[i as int]));
            }
        }
        proof {
            assert(next_prefix.drop_last() =~= prefix);
            assert(next_prefix.last() == headers.deep_view()[i as int]);
            assert(r.deep_view() =~= spec_strip_headers(next_prefix, names.deep_view()));
        }
        i = i + 1;
    }
    proof {
        assert(headers.deep_view().subrange(0, headers@.len() as int) =~= headers.deep_view());
    }
    r
}

/// Builds one authority-override service per target, each stripping the
/// same configured headers.
pub struct NewOverrideAuthority {
    pub headers_to_strip: Vec<Vec<u8>>,
}

/// The per-target service: the target's optional authority override and
/// the headers to strip before rewriting.
pub struct OverrideAuthority {
    pub authority: Option<Vec<u8>>,
    pub headers_to_strip: Vec<Vec<u8>>,
}

impl NewOverrideAuthority {
    pub fn new(headers_to_strip: Vec<Vec<u8>>) -> (r: NewOverrideAuthority)
        ensures
            r.headers_to_strip == headers_to_strip,
    {
        NewOverrideAuthority { headers_to_strip }
    }

    /// The service for one target: the target's optional authority
    /// override, with the configured headers to strip.
    pub fn new_service(&self, authority_override: Option<AuthorityOverride>) -> (r:
        OverrideAuthority)
        ensures
            r.headers_to_strip.deep_view() == self.headers_to_strip.deep_view(),
            (r.authority is Some) == (authority_override is Some),
            r.authority matches Some(a) ==> authority_override matches Some(ov) && a == ov.0,
    {
        OverrideAuthority {
            authority: match authority_override {
                Some(ov) => Some(ov.0),
                None => None,
            },
            headers_to_strip: clone_byte_list(&self.headers_to_strip),
        }
    }
}

impl OverrideAuthority {
    /// What the middleware does to a request before handing it on: with
    /// an authority override present, the configured headers are stripped
    /// and the URI's authority is rewritten; without one, the request
    /// passes through untouched.
    pub fn call(&self, head: &mut RequestHead)
        ensures
            self.authority is None ==> *final(head) == *old(head),
            self.authority matches Some(auth) ==> {
                &&& final(head).headers.deep_view() == spec_strip_headers(
                    old(head).headers.deep_view(),
                    self.headers_to_strip.deep_view(),
                )
                &&& final(head).uri.host@ == auth@
                &&& final(head).uri.path == old(head).uri.path
                &&& final(head).uri.query == old(head).uri.query
                &&& (old(head).uri.path@.len() > 0 ==> final(head).uri.scheme == Some(
                    Scheme::Http,
                ))
                &&& (old(head).uri.path@.len() == 0 ==> final(head).uri.scheme == old(
                    head,
                ).uri.scheme)
                &&& final(head).method == old(head).method
                &&& final(head).version == old(head).version
                &&& final(head).extensions == old(head).extensions
            },
    {
        match &self.authority {
            None => {},
            Some(auth) => {
                let stripped = strip_headers(&head.headers, &self.headers_to_strip);
                head.headers = stripped;
                set_authority(&mut head.uri, clone_bytes(auth));
            },
        }
    }
}

} // verus!
