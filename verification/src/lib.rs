//! Verified core of an HTTP proxy's retry subsystem.
//!
//! The crate covers two pieces of logic. The first is a retry policy: given a
//! completed exchange (a request whose body was wrapped for replay, and a
//! response or a transport error), it decides whether the exchange may be
//! retried, consulting a shared retry budget so that retries cannot amplify
//! load. The second is a trailer-peeking body adapter: it inspects the first
//! frames of a response body, without ever waiting for a frame that is not
//! immediately available, to discover whether the body's trailers can be
//! reported ahead of time.
//!
//! Around those two sit the route-matching rules that select a policy for a
//! request, an authority-override rewrite, and small transport parameter
//! types.

pub mod authority;
pub mod budget;
pub mod classify;
pub mod filter;
pub mod http_types;
pub mod matching;
pub mod path;
pub mod peek_trailers;
pub mod replay;
pub mod retry;
pub mod routes;
pub mod strings;
pub mod transport;
