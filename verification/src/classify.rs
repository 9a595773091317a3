//! Classification of a completed response as a failure or not.
//!
//! A route carries an ordered list of response classes; the first class
//! whose status range covers the response decides. When no class matches,
//! a default rule applies: a gRPC status carried in peeked trailers counts
//! as a failure when it is non-zero, and otherwise a server-error status
//! (500 and above) does.

use vstd::prelude::*;

verus! {

/// Trailing metadata of a response, as the classifier reads it: the
/// decoded `grpc-status` value, if the trailers carried one, alongside the
/// trailer fields themselves (which the classifier does not read but which
/// must be delivered to the caller unmodified).
#[derive(Clone, Debug, PartialEq, Eq)]
pub struct Trailers {
    pub grpc_status: Option<u32>,
    pub fields: Vec<(Vec<u8>, Vec<u8>)>,
}

/// One classification rule: responses whose status falls in
/// `min_status ..= max_status` are a failure or a success as `is_failure`
/// says.
#[derive(Clone, Copy, Debug, PartialEq, Eq, Structural)]
pub struct ResponseClass {
    pub min_status: u16,
    pub max_status: u16,
    pub is_failure: bool,
}

impl ResponseClass {
    pub open spec fn spec_matches(self, status: u16) -> bool {
        self.min_status <= status <= self.max_status
    }
}

/// The first class at or after position `i` that covers `status`.
pub open spec fn spec_first_match_from(
    classes: Seq<ResponseClass>,
    status: u16,
    i: int,
) -> Option<ResponseClass>
    decreases classes.len() - i,
{
    if i < 0 || i >= classes.len() {
        None
    } else if classes[i].spec_matches(status) {
        Some(classes[i])
    } else {
        spec_first_match_from(classes, status, i + 1)
    }
}

/// The first class that covers `status`, if any.
pub open spec fn spec_first_match(classes: Seq<ResponseClass>, status: u16) -> Option<
    ResponseClass,
> {
    spec_first_match_from(classes, status, 0)
}

/// The default verdict when no class matches: a non-zero gRPC status is a
/// failure; absent one, a server-error HTTP status is.
pub open spec fn spec_default_is_failure(status: u16, grpc_status: Option<u32>) -> bool {
    match grpc_status {
        Some(code) => code != 0,
        None => 500 <= status,
    }
}

/// The classifier's verdict over a response's status and the gRPC status
/// peeked from its trailers, under the given classes.
pub open spec fn spec_is_failure(
    classes: Seq<ResponseClass>,
    status: u16,
    grpc_status: Option<u32>,
) -> bool {
    match spec_first_match(classes, status) {
        Some(c) => c.is_failure,
        None => spec_default_is_failure(status, grpc_status),
    }
}

pub fn is_failure(classes: &Vec<ResponseClass>, status: u16, grpc_status: Option<u32>) -> (r:
    bool)
    ensures
        r == spec_is_failure(classes@, status, grpc_status),
{
    let mut i: usize = 0;
    while i < classes.len()
        invariant
            i <= classes.len(),
            spec_first_match(classes@, status) == spec_first_match_from(classes@, status, i as int),
        decreases classes.len() - i,
    {
        let c = classes[i];
        if c.min_status <= status && status <= c.max_status {
            return c.is_failure;
        }
        i = i + 1;
    }
    match grpc_status {
        Some(code) => code != 0,
        None => 500 <= status,
    }
}

} // verus!
