//! Path matching: a request path can be required to equal a string, to
//! start with a prefix at a path-segment boundary, or to match a regular
//! expression over its whole length.
//!
//! Regular-expression matching is the one piece delegated to an outside
//! crate; the compiled expression is kept beside the pattern it was
//! compiled from, so that contracts can speak of the match outcome as a
//! function of the pattern and the text.

use vstd::prelude::*;
use vstd::string::StringSliceAdditionalSpecFns;

use crate::http_types::Uri;
use crate::strings::{bytes_eq, bytes_starts_with, is_prefix_of};

verus! {

#[verifier::external_type_specification]
#[verifier::external_body]
pub struct ExRegex(regex::bytes::Regex);

/// What `regex::bytes::Regex::find` returns for a given pattern and
/// text: the byte offsets of the match it reports, if any. The outcome is
/// a function of the pattern and the text alone.
pub uninterp spec fn regex_find(pattern: Seq<u8>, text: Seq<u8>) -> Option<(usize, usize)>;

/// A compiled regular expression together with its pattern.
pub struct RegexMatcher {
    pattern: Vec<u8>,
    re: regex::bytes::Regex,
}

impl RegexMatcher {
    /// The pattern this expression was compiled from, as bytes.
    pub closed spec fn spec_pattern(self) -> Seq<u8> {
        self.pattern@
    }

    /// Relies on `regex::bytes::Regex::new`: compiles the pattern, or
    /// reports `None` when the pattern is not a valid regular expression.
    #[verifier::external_body]
    pub fn new(pattern: &str) -> (r: Option<RegexMatcher>)
        ensures
            r matches Some(m) ==> m.spec_pattern() == pattern.spec_bytes(),
    {
        match regex::bytes::Regex::new(pattern) {
            Ok(re) => Some(RegexMatcher { pattern: pattern.as_bytes().to_vec(), re }),
            Err(_) => None,
        }
    }

    /// Relies on `regex::bytes::Regex::find`: the match it reports for
    /// this text, as byte offsets.
    #[verifier::external_body]
    pub fn find(&self, text: &[u8]) -> (r: Option<(usize, usize)>)
        ensures
            r == regex_find(self.spec_pattern(), text@),
    {
        self.re.find(text).map(|m| (m.start(), m.end()))
    }

    /// Whether two expressions were compiled from the same pattern.
    pub fn pattern_eq(&self, other: &RegexMatcher) -> (r: bool)
        ensures
            r == (self.spec_pattern() == other.spec_pattern()),
    {
        bytes_eq(self.pattern.as_slice(), other.pattern.as_slice())
    }

    /// Whether the expression's reported match covers the whole text.
    pub open spec fn spec_full_match(self, text: Seq<u8>) -> bool {
        regex_find(self.spec_pattern(), text) == Some((0usize, text.len() as usize))
    }

    pub fn is_full_match(&self, text: &[u8]) -> (r: bool)
        ensures
            r == self.spec_full_match(text@),
    {
        match self.find(text) {
            Some((start, end)) => start == 0 && end == text.len(),
            None => false,
        }
    }
}

/// A requirement on a request's path.
pub enum MatchPath {
    Exact(Vec<u8>),
    Prefix(Vec<u8>),
    Regex(RegexMatcher),
}

impl MatchPath {
    /// The length credited to this requirement on the given path, if the
    /// path satisfies it; longer matched lengths take precedence between
    /// competing rules. An exact match credits the whole path. A prefix
    /// matches only at a path-segment boundary: either the path is the
    /// prefix itself, or (when the prefix does not end in a slash) a
    /// slash follows it, crediting the prefix and that slash. A regular
    /// expression matches only over the whole path.
    pub open spec fn spec_match_length(self, path: Seq<u8>) -> Option<usize> {
        match self {
            MatchPath::Exact(s) => if s@ == path {
                Some(s@.len() as usize)
            } else {
                None
            },
            MatchPath::Regex(m) => if m.spec_full_match(path) {
                Some(path.len() as usize)
            } else {
                None
            },
            MatchPath::Prefix(prefix) => {
                let p = prefix@;
                if is_prefix_of(p, path) {
                    if p.len() == path.len() {
                        Some(p.len() as usize)
                    } else if (p.len() == 0 || p[p.len() - 1] != 47) && path[p.len() as int]
                        == 47 {
                        Some((p.len() + 1) as usize)
                    } else {
                        None
                    }
                } else {
                    None
                }
            },
        }
    }

    /// Whether two path requirements are the same rule: same shape, and
    /// the same string or pattern byte for byte. This is what `==` on
    /// [`MatchPath`] means.
    pub open spec fn spec_same_rule(self, other: MatchPath) -> bool {
        match (self, other) {
            (MatchPath::Exact(a), MatchPath::Exact(b)) => a@ == b@,
            (MatchPath::Prefix(a), MatchPath::Prefix(b)) => a@ == b@,
            (MatchPath::Regex(a), MatchPath::Regex(b)) => a.spec_pattern() == b.spec_pattern(),
            _ => false,
        }
    }

    pub fn match_length(&self, uri: &Uri) -> (r: Option<usize>)
        ensures
            r == self.spec_match_length(uri.path@),
    {
        match self {
            MatchPath::Exact(s) => {
                if bytes_eq(s.as_slice(), uri.path.as_slice()) {
                    Some(s.len())
                } else {
                    None
                }
            },
            MatchPath::Regex(m) => {
                if m.is_full_match(uri.path.as_slice()) {
                    Some(uri.path.len())
                } else {
                    None
                }
            },
            MatchPath::Prefix(prefix) => {
                let p = prefix.as_slice();
                let s = uri.path.as_slice();
                if bytes_starts_with(s, p) {
                    if p.len() == s.len() {
                        Some(p.len())
                    } else if (p.len() == 0 || p[p.len() - 1] != 47) && s[p.len()] == 47 {
                        Some(p.len() + 1)
                    } else {
                        None
                    }
                } else {
                    None
                }
            },
        }
    }
}

impl PartialEq for MatchPath {
    fn eq(&self, other: &MatchPath) -> (r: bool) {
        match (self, other) {
            (MatchPath::Exact(a), MatchPath::Exact(b)) => bytes_eq(a.as_slice(), b.as_slice()),
            (MatchPath::Prefix(a), MatchPath::Prefix(b)) => bytes_eq(a.as_slice(), b.as_slice()),
            (MatchPath::Regex(a), MatchPath::Regex(b)) => a.pattern_eq(b),
            _ => false,
        }
    }
}

impl vstd::std_specs::cmp::PartialEqSpecImpl for MatchPath {
    open spec fn obeys_eq_spec() -> bool {
        true
    }

    open spec fn eq_spec(&self, other: &MatchPath) -> bool {
        self.spec_same_rule(*other)
    }
}

} // verus!
