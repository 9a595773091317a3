//! The request filters a route's rules may attach: header rewrites and
//! redirects. These are configuration data carried alongside the matching
//! rules.

use vstd::prelude::*;

verus! {

/// A URI scheme, as far as redirects need one.
#[derive(Clone, Copy, Debug, PartialEq, Eq, Structural)]
pub enum Scheme {
    Http,
    Https,
}

/// A filter a matched rule applies to the request.
pub enum Filter {
    ModifyRequestHeader(ModifyRequestHeader),
    RedirectRequest(RedirectRequest),
}

/// A header rewrite: headers to append, headers to replace, and headers
/// to strip.
pub struct ModifyRequestHeader {
    pub add: Vec<(Vec<u8>, Vec<u8>)>,
    pub set: Vec<(Vec<u8>, Vec<u8>)>,
    pub remove: Vec<Vec<u8>>,
}

/// A redirect: where to send the request instead.
pub struct RedirectRequest {
    pub scheme: Option<Scheme>,
    pub authority: Vec<u8>,
    pub path: Option<PathModifier>,
    pub status_code: u16,
}

/// How a redirect may rewrite the path.
pub enum PathModifier {
    ReplaceFullPath(Vec<u8>),
}

} // verus!
