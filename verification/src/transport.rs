//! Transport parameter types: the optional TCP keepalive period and the
//! optional TCP user timeout a connection is configured with. Applying
//! them to a socket is I/O and lives outside this crate; these types only
//! carry the configured values.

use vstd::prelude::*;

use core::time::Duration;

verus! {

/// An optional TCP keepalive period.
pub struct Keepalive(pub Option<Duration>);

/// An optional TCP user timeout.
pub struct UserTimeout(pub Option<Duration>);

impl core::convert::From<Keepalive> for Option<Duration> {
    fn from(value: Keepalive) -> (r: Option<Duration>) {
        value.0
    }
}

impl vstd::std_specs::convert::FromSpecImpl<Keepalive> for Option<Duration> {
    open spec fn obeys_from_spec() -> bool {
        true
    }

    open spec fn from_spec(v: Keepalive) -> Option<Duration> {
        v.0
    }
}

impl core::convert::From<UserTimeout> for Option<Duration> {
    fn from(value: UserTimeout) -> (r: Option<Duration>) {
        value.0
    }
}

impl vstd::std_specs::convert::FromSpecImpl<UserTimeout> for Option<Duration> {
    open spec fn obeys_from_spec() -> bool {
        true
    }

    open spec fn from_spec(v: UserTimeout) -> Option<Duration> {
        v.0
    }
}

} // verus!
