//! Plain-value models of the HTTP message pieces the retry core reads.
//!
//! The retry logic never parses wire bytes itself; it only looks at a few
//! fields of a request or response: the protocol version, the method, the
//! URI, the headers, and two extension slots that must survive a retry.
//! Those fields are held here as plain values — textual ones as their
//! UTF-8 bytes — so that every function over them can be verified, and so
//! that a cloned request can be shown to reproduce them byte for byte.

use vstd::prelude::*;

use crate::classify::ResponseClass;
use crate::filter::Scheme;
use crate::strings::{clone_byte_pairs, clone_bytes};

verus! {

/// An HTTP protocol version.
#[derive(Clone, Copy, Debug, PartialEq, Eq, Structural)]
pub enum HttpVersion {
    Http09,
    Http10,
    Http11,
    H2,
    H3,
}

impl HttpVersion {
    /// Whether this protocol version can carry a trailers frame at all.
    /// Versions before HTTP/2 have no trailer support worth peeking.
    pub open spec fn spec_supports_trailers(self) -> bool {
        self is H2 || self is H3
    }

    pub fn supports_trailers(&self) -> (r: bool)
        ensures
            r == self.spec_supports_trailers(),
    {
        match self {
            HttpVersion::H2 => true,
            HttpVersion::H3 => true,
            _ => false,
        }
    }
}

/// The parts of a request URI the core reads: the scheme (when one is
/// present), the host, the path, and the query parameters (already split
/// into key/value pairs), textual parts as bytes. An authority-form
/// target, as in CONNECT, has an empty path.
#[derive(Debug, PartialEq, Eq)]
pub struct Uri {
    pub scheme: Option<Scheme>,
    pub host: Vec<u8>,
    pub path: Vec<u8>,
    pub query: Vec<(Vec<u8>, Vec<u8>)>,
}

/// Stands for the server-side handle identifying the client connection a
/// request arrived on; a retried request must carry the same handle so it
/// can still be attributed to the original client connection.
#[derive(Clone, Copy, Debug, PartialEq, Eq, Structural)]
pub struct ClientHandle {
    pub id: u64,
}

/// The request extension slots the retry path must carry onto a cloned
/// request: the client-connection handle, and a per-request override of
/// the route's response-classification rules, so a retried request is
/// classified consistently with the original.
#[derive(Debug, PartialEq, Eq)]
pub struct Extensions {
    pub client_handle: Option<ClientHandle>,
    pub classify_override: Option<Vec<ResponseClass>>,
}

/// Everything of a request except its body.
#[derive(Debug, PartialEq, Eq)]
pub struct RequestHead {
    pub method: Vec<u8>,
    pub uri: Uri,
    pub version: HttpVersion,
    pub headers: Vec<(Vec<u8>, Vec<u8>)>,
    pub extensions: Extensions,
}

/// A request with body `B`.
#[derive(Debug, PartialEq, Eq)]
pub struct Request<B> {
    pub head: RequestHead,
    pub body: B,
}

/// A response with body `B`.
#[derive(Debug, PartialEq, Eq)]
pub struct Response<B> {
    pub status: u16,
    pub version: HttpVersion,
    pub body: B,
}

/// Whether two URIs hold the same scheme, host, path and query, byte
/// for byte.
pub open spec fn spec_same_uri(a: Uri, b: Uri) -> bool {
    &&& a.scheme == b.scheme
    &&& a.host@ == b.host@
    &&& a.path@ == b.path@
    &&& a.query.deep_view() == b.query.deep_view()
}

/// Whether two extension sets carry the same values.
pub open spec fn spec_same_extensions(a: Extensions, b: Extensions) -> bool {
    &&& a.client_handle == b.client_handle
    &&& (a.classify_override is Some <==> b.classify_override is Some)
    &&& a.classify_override matches Some(ov) ==> b.classify_override matches Some(bv) && ov@
        == bv@
}

/// Whether two request heads agree on method, URI, headers, version and
/// extensions, byte for byte.
pub open spec fn spec_same_head(a: RequestHead, b: RequestHead) -> bool {
    &&& a.method@ == b.method@
    &&& spec_same_uri(a.uri, b.uri)
    &&& a.version == b.version
    &&& a.headers.deep_view() == b.headers.deep_view()
    &&& spec_same_extensions(a.extensions, b.extensions)
}

/// An element-for-element copy of a list of response classes.
pub fn clone_classes(v: &Vec<ResponseClass>) -> (r: Vec<ResponseClass>)
    ensures
        r@ == v@,
{
    let mut r: Vec<ResponseClass> = Vec::new();
    let mut i: usize = 0;
    while i < v.len()
        invariant
            i <= v.len(),
            r@ =~= v@.subrange(0, i as int),
        decreases v.len() - i,
    {
        r.push(v[i]);
        proof {
            assert(v@.subrange(0, i + 1 as int) =~= v@.subrange(0, i as int).push(v@[i as int]));
        }
        i = i + 1;
    }
    proof {
        assert(r@ =~= v@);
    }
    r
}

impl Uri {
    /// A byte-for-byte copy.
    pub fn duplicate(&self) -> (r: Uri)
        ensures
            spec_same_uri(r, *self),
    {
        let r = Uri {
            scheme: self.scheme,
            host: clone_bytes(&self.host),
            path: clone_bytes(&self.path),
            query: clone_byte_pairs(&self.query),
        };
        proof {
            assert(r.query.deep_view() =~= self.query.deep_view());
        }
        r
    }
}

impl Extensions {
    /// A value-for-value copy of both extension slots.
    pub fn duplicate(&self) -> (r: Extensions)
        ensures
            spec_same_extensions(r, *self),
    {
        Extensions {
            client_handle: self.client_handle,
            classify_override: match &self.classify_override {
                Some(ov) => Some(clone_classes(ov)),
                None => None,
            },
        }
    }
}

impl RequestHead {
    /// A byte-for-byte copy: method, URI, headers, version and extensions
    /// all reproduced exactly.
    pub fn duplicate(&self) -> (r: RequestHead)
        ensures
            spec_same_head(r, *self),
    {
        let r = RequestHead {
            method: clone_bytes(&self.method),
            uri: self.uri.duplicate(),
            version: self.version,
            headers: clone_byte_pairs(&self.headers),
            extensions: self.extensions.duplicate(),
        };
        proof {
            assert(r.headers.deep_view() =~= self.headers.deep_view());
        }
        r
    }
}

} // verus!
