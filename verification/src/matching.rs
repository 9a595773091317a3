//! Request matching: the per-rule requirements a request must satisfy —
//! method, path, headers, query parameters and host — and the match
//! summaries whose ordering decides which of several matching rules wins.

use vstd::prelude::*;

use crate::http_types::RequestHead;
use crate::path::{MatchPath, RegexMatcher};
use crate::strings::{bytes_eq, bytes_ends_with, is_suffix_of};

verus! {

/// A requirement on one request header: the named header must be present
/// with exactly this value, or with a value the expression matches over
/// its whole length.
pub enum MatchHeader {
    Exact(Vec<u8>, Vec<u8>),
    Regex(Vec<u8>, RegexMatcher),
}

impl MatchHeader {
    /// Whether one header satisfies this requirement.
    pub open spec fn spec_matches_pair(self, pair: (Vec<u8>, Vec<u8>)) -> bool {
        match self {
            MatchHeader::Exact(name, value) => pair.0@ == name@ && pair.1@ == value@,
            MatchHeader::Regex(name, re) => pair.0@ == name@ && re.spec_full_match(pair.1@),
        }
    }

    /// Whether some header in the list satisfies this requirement.
    pub open spec fn spec_is_match(self, headers: Seq<(Vec<u8>, Vec<u8>)>) -> bool {
        exists|i: int| 0 <= i < headers.len() && #[trigger] self.spec_matches_pair(headers[i])
    }

    pub fn matches_pair(&self, pair: &(Vec<u8>, Vec<u8>)) -> (r: bool)
        ensures
            r == self.spec_matches_pair(*pair),
    {
        match self {
            MatchHeader::Exact(name, value) => bytes_eq(pair.0.as_slice(), name.as_slice())
                && bytes_eq(pair.1.as_slice(), value.as_slice()),
            MatchHeader::Regex(name, re) => bytes_eq(pair.0.as_slice(), name.as_slice())
                && re.is_full_match(pair.1.as_slice()),
        }
    }

    pub fn is_match(&self, headers: &Vec<(Vec<u8>, Vec<u8>)>) -> (r: bool)
        ensures
            r == self.spec_is_match(headers@),
    {
        let mut i: usize = 0;
        while i < headers.len()
            invariant
                i <= headers.len(),
                forall|j: int| 0 <= j < i ==> !(#[trigger] self.spec_matches_pair(headers@[j])),
            decreases headers.len() - i,
        {
            if self.matches_pair(&headers[i]) {
                return true;
            }
            i = i + 1;
        }
        false
    }
}

/// A requirement on one query parameter, in the same two shapes as
/// [`MatchHeader`].
pub enum MatchQueryParam {
    Exact(Vec<u8>, Vec<u8>),
    Regex(Vec<u8>, RegexMatcher),
}

impl MatchQueryParam {
    /// Whether one query parameter satisfies this requirement.
    pub open spec fn spec_matches_pair(self, pair: (Vec<u8>, Vec<u8>)) -> bool {
        match self {
            MatchQueryParam::Exact(name, value) => pair.0@ == name@ && pair.1@ == value@,
            MatchQueryParam::Regex(name, re) => pair.0@ == name@ && re.spec_full_match(pair.1@),
        }
    }

    /// Whether some query parameter in the list satisfies this
    /// requirement.
    pub open spec fn spec_is_match(self, params: Seq<(Vec<u8>, Vec<u8>)>) -> bool {
        exists|i: int| 0 <= i < params.len() && #[trigger] self.spec_matches_pair(params[i])
    }

    pub fn matches_pair(&self, pair: &(Vec<u8>, Vec<u8>)) -> (r: bool)
        ensures
            r == self.spec_matches_pair(*pair),
    {
        match self {
            MatchQueryParam::Exact(name, value) => bytes_eq(pair.0.as_slice(), name.as_slice())
                && bytes_eq(pair.1.as_slice(), value.as_slice()),
            MatchQueryParam::Regex(name, re) => bytes_eq(pair.0.as_slice(), name.as_slice())
                && re.is_full_match(pair.1.as_slice()),
        }
    }

    pub fn is_match(&self, params: &Vec<(Vec<u8>, Vec<u8>)>) -> (r: bool)
        ensures
            r == self.spec_is_match(params@),
    {
        let mut i: usize = 0;
        while i < params.len()
            invariant
                i <= params.len(),
                forall|j: int| 0 <= j < i ==> !(#[trigger] self.spec_matches_pair(params@[j])),
            decreases params.len() - i,
        {
            if self.matches_pair(&params[i]) {
                return true;
            }
            i = i + 1;
        }
        false
    }
}

/// A requirement on the request's host: an exact host name, or a
/// wildcard — any host made of at least one more label in front of the
/// given suffix.
pub enum MatchHost {
    Exact(Vec<u8>),
    Suffix(Vec<u8>),
}

/// How a host requirement was satisfied, carrying the length of what
/// matched. An exact match outranks every wildcard match; between two of
/// a kind, the longer match wins.
#[derive(Clone, Copy, Debug, PartialEq, Eq, Structural)]
pub enum HostMatch {
    Exact(usize),
    Suffix(usize),
}

/// The precedence between host matches: any exact match outranks any
/// suffix match, and within one kind the longer match outranks the
/// shorter.
pub open spec fn spec_host_lt(a: HostMatch, b: HostMatch) -> bool {
    match (a, b) {
        (HostMatch::Suffix(_), HostMatch::Exact(_)) => true,
        (HostMatch::Exact(x), HostMatch::Exact(y)) => x < y,
        (HostMatch::Suffix(x), HostMatch::Suffix(y)) => x < y,
        (HostMatch::Exact(_), HostMatch::Suffix(_)) => false,
    }
}

impl HostMatch {
    pub fn less_than(&self, other: &HostMatch) -> (r: bool)
        ensures
            r == spec_host_lt(*self, *other),
    {
        match (self, other) {
            (HostMatch::Suffix(_), HostMatch::Exact(_)) => true,
            (HostMatch::Exact(x), HostMatch::Exact(y)) => x < y,
            (HostMatch::Suffix(x), HostMatch::Suffix(y)) => x < y,
            (HostMatch::Exact(_), HostMatch::Suffix(_)) => false,
        }
    }
}

impl MatchHost {
    /// The summary credited to this requirement on the given host, if the
    /// host satisfies it. A wildcard requires at least one label, then a
    /// dot, in front of the suffix.
    pub open spec fn spec_summarize(self, host: Seq<u8>) -> Option<HostMatch> {
        match self {
            MatchHost::Exact(h) => if h@ == host {
                Some(HostMatch::Exact(h@.len() as usize))
            } else {
                None
            },
            MatchHost::Suffix(sfx) => if host.len() >= sfx@.len() + 2 && is_suffix_of(sfx@, host)
                && host[host.len() - sfx@.len() - 1] == 46 {
                Some(HostMatch::Suffix(sfx@.len() as usize))
            } else {
                None
            },
        }
    }

    pub fn summarize_match(&self, host: &Vec<u8>) -> (r: Option<HostMatch>)
        ensures
            r == self.spec_summarize(host@),
    {
        match self {
            MatchHost::Exact(h) => {
                if bytes_eq(h.as_slice(), host.as_slice()) {
                    Some(HostMatch::Exact(h.len()))
                } else {
                    None
                }
            },
            MatchHost::Suffix(sfx) => {
                if host.len() >= 2 && sfx.len() <= host.len() - 2 && bytes_ends_with(
                    host.as_slice(),
                    sfx.as_slice(),
                ) && host[host.len() - sfx.len() - 1] == 46 {
                    Some(HostMatch::Suffix(sfx.len()))
                } else {
                    None
                }
            },
        }
    }
}

/// The requirements of one rule on a request. An empty set of
/// requirements matches every request.
#[derive(Default)]
pub struct MatchRequest {
    pub path: Option<MatchPath>,
    pub headers: Vec<MatchHeader>,
    pub query_params: Vec<MatchQueryParam>,
    pub method: Option<Vec<u8>>,
}

/// The summary of how a rule matched a request, used to rank competing
/// rules: the matched path length, then how many header requirements
/// matched, then how many query-parameter requirements, then whether the
/// method was pinned.
#[derive(Clone, Copy, Debug, PartialEq, Eq, Structural)]
pub struct RequestMatch {
    pub path_match_length: usize,
    pub headers: usize,
    pub query_params: usize,
    pub method: bool,
}

impl RequestMatch {
    /// The summary of a rule with no requirements. Such a rule behaves as
    /// a prefix match on `/`, which matches every request: it is credited
    /// one byte of path.
    pub open spec fn spec_default() -> RequestMatch {
        RequestMatch { path_match_length: 1, headers: 0, query_params: 0, method: false }
    }
}

impl Default for RequestMatch {
    fn default() -> (r: RequestMatch)
        ensures
            r == RequestMatch::spec_default(),
    {
        RequestMatch { path_match_length: 1, headers: 0, query_params: 0, method: false }
    }
}

/// The precedence between request-match summaries: matched path length
/// first, then matched header count, then matched query-parameter count,
/// then a pinned method over none.
pub open spec fn spec_request_match_lt(a: RequestMatch, b: RequestMatch) -> bool {
    ||| a.path_match_length < b.path_match_length
    ||| (a.path_match_length == b.path_match_length && {
        ||| a.headers < b.headers
        ||| (a.headers == b.headers && {
            ||| a.query_params < b.query_params
            ||| (a.query_params == b.query_params && !a.method && b.method)
        })
    })
}

impl RequestMatch {
    pub fn less_than(&self, other: &RequestMatch) -> (r: bool)
        ensures
            r == spec_request_match_lt(*self, *other),
    {
        if self.path_match_length != other.path_match_length {
            self.path_match_length < other.path_match_length
        } else if self.headers != other.headers {
            self.headers < other.headers
        } else if self.query_params != other.query_params {
            self.query_params < other.query_params
        } else {
            !self.method && other.method
        }
    }
}

impl MatchRequest {
    /// The summary of this rule against a request, if every requirement
    /// is satisfied: a pinned method must equal the request's, a path
    /// requirement must match (crediting its matched length; without one,
    /// the default single byte is credited), and every header and
    /// query-parameter requirement must be satisfied.
    pub open spec fn spec_summarize(self, req: RequestHead) -> Option<RequestMatch> {
        let method_ok = match self.method {
            Some(m) => req.method@ == m@,
            None => true,
        };
        let path_len = match self.path {
            Some(p) => p.spec_match_length(req.uri.path@),
            None => Some(1usize),
        };
        let headers_ok = forall|i: int|
            0 <= i < self.headers@.len() ==> (#[trigger] self.headers@[i]).spec_is_match(
                req.headers@,
            );
        let query_ok = forall|i: int|
            0 <= i < self.query_params@.len() ==> (#[trigger] self.query_params@[i]).spec_is_match(
                req.uri.query@,
            );
        if method_ok && headers_ok && query_ok {
            match path_len {
                Some(l) => Some(
                    RequestMatch {
                        path_match_length: l,
                        headers: self.headers@.len() as usize,
                        query_params: self.query_params@.len() as usize,
                        method: self.method is Some,
                    },
                ),
                None => None,
            }
        } else {
            None
        }
    }

    pub fn summarize_match(&self, req: &RequestHead) -> (r: Option<RequestMatch>)
        ensures
            r == self.spec_summarize(*req),
    {
        match &self.method {
            Some(m) => {
                if !bytes_eq(req.method.as_slice(), m.as_slice()) {
                    return None;
                }
            },
            None => {},
        }

        let path_match_length: usize = match &self.path {
            Some(p) => {
                match p.match_length(&req.uri) {
                    Some(l) => l,
                    None => {
                        return None;
                    },
                }
            },
            None => 1,
        };

        let mut i: usize = 0;
        while i < self.headers.len()
            invariant
                i <= self.headers.len(),
                forall|j: int|
                    0 <= j < i ==> (#[trigger] self.headers@[j]).spec_is_match(req.headers@),
            decreases self.headers.len() - i,
        {
            let h = &self.headers[i];
            if !h.is_match(&req.headers) {
                return None;
            }
            i = i + 1;
        }

        let mut k: usize = 0;
        while k < self.query_params.len()
            invariant
                k <= self.query_params.len(),
                forall|j: int|
                    0 <= j < k ==> (#[trigger] self.query_params@[j]).spec_is_match(
                        req.uri.query@,
                    ),
            decreases self.query_params.len() - k,
        {
            let q = &self.query_params[k];
            if !q.is_match(&req.uri.query) {
                return None;
            }
            k = k + 1;
        }

        Some(
            RequestMatch {
                path_match_length,
                headers: self.headers.len(),
                query_params: self.query_params.len(),
                method: self.method.is_some(),
            },
        )
    }
}

} // verus!
