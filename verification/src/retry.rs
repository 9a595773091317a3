//! The per-route retry policy: decides, once per completed exchange,
//! whether a retry may be issued, and prepares the request and response
//! wrappers the retry path needs.
//!
//! The decision runs in a fixed order. A transport error (no response) is
//! never retried: a token is returned to the budget and the exchange ends.
//! A response is classified — with the peeked trailers, when the body
//! adapter could observe them — and the exchange is retryable only if the
//! classifier calls it a failure *and* the request body is known to have
//! streamed completely within the buffering ceiling. An unretryable
//! exchange returns a token to the budget. A retryable one attempts to
//! withdraw a token; the attempt's outcome is recorded, and only a
//! successful withdrawal yields a retry.

use vstd::prelude::*;

use std::sync::Arc;
use tower::retry::budget::TpsBudget;

use crate::budget::{budget_deposit, budget_withdraw, share_budget};
use crate::classify::{spec_is_failure, is_failure, ResponseClass, Trailers};
use crate::http_types::{
    clone_classes, spec_same_extensions, spec_same_head, Extensions, Request, RequestHead,
    Response,
};
use crate::peek_trailers::PeekTrailersBody;
use crate::replay::ReplayBody;

verus! {

/// The buffering ceiling: how many bytes of a request body may be
/// retained for replay before buffering is abandoned and the body is
/// marked capped.
pub const MAX_BUFFERED_BYTES: usize = 64 * 1024;

/// Counts of retryable exchanges, split by whether the budget permitted
/// the retry. Each policy records its own outcomes.
#[derive(Clone, Copy, Debug, PartialEq, Eq, Structural)]
pub struct RetryMetrics {
    pub budget_available: u64,
    pub budget_exhausted: u64,
}

/// `x + 1`, clamped to the largest representable value.
pub open spec fn spec_sat_inc(x: u64) -> u64 {
    if x == u64::MAX {
        x
    } else {
        (x + 1) as u64
    }
}

impl RetryMetrics {
    /// Record one retryable exchange: `withdrew` says whether the budget
    /// permitted the retry.
    pub fn incr_retryable(&mut self, withdrew: bool)
        ensures
            withdrew ==> *final(self) == (RetryMetrics {
                budget_available: spec_sat_inc(old(self).budget_available),
                ..*old(self)
            }),
            !withdrew ==> *final(self) == (RetryMetrics {
                budget_exhausted: spec_sat_inc(old(self).budget_exhausted),
                ..*old(self)
            }),
    {
        if withdrew {
            if self.budget_available < u64::MAX {
                self.budget_available = self.budget_available + 1;
            }
        } else {
            if self.budget_exhausted < u64::MAX {
                self.budget_exhausted = self.budget_exhausted + 1;
            }
        }
    }
}

/// A route's retry configuration: the shared budget all exchanges on the
/// route draw from. Absent on routes where retries are not enabled.
pub struct RetryConfig {
    pub budget: Arc<TpsBudget>,
}

/// A route descriptor, as the policy factory reads it: the optional retry
/// configuration, and the response-classification rules in force.
pub struct Route {
    pub retries: Option<RetryConfig>,
    pub response_classes: Vec<ResponseClass>,
}

/// The per-route retry policy. All copies for one route share one logical
/// budget through the `Arc` handle.
#[derive(Clone)]
pub struct RetryPolicy {
    pub budget: Arc<TpsBudget>,
    pub response_classes: Vec<ResponseClass>,
    pub metrics: RetryMetrics,
}

/// The process-wide policy factory: stateless, it builds one policy per
/// route that carries retry configuration.
pub struct NewRetryPolicy {}

impl NewRetryPolicy {
    pub fn new() -> NewRetryPolicy {
        NewRetryPolicy {  }
    }

    /// `Some(policy)` exactly when the route carries retry configuration;
    /// `None` means no retry layer applies to the route at all. The
    /// policy's budget handle is the route's own, shared, not copied.
    pub fn new_policy(&self, route: &Route) -> (r: Option<RetryPolicy>)
        ensures
            r is Some <==> route.retries is Some,
            r matches Some(p) ==> {
                &&& route.retries matches Some(cfg) && p.budget == cfg.budget
                &&& p.response_classes@ == route.response_classes@
                &&& p.metrics == (RetryMetrics { budget_available: 0, budget_exhausted: 0 })
            },
    {
        match &route.retries {
            None => None,
            Some(cfg) => Some(
                RetryPolicy {
                    budget: share_budget(&cfg.budget),
                    response_classes: clone_classes(&route.response_classes),
                    metrics: RetryMetrics { budget_available: 0, budget_exhausted: 0 },
                },
            ),
        }
    }
}

/// The gRPC status carried by peeked trailers, if any were peeked and
/// they carried one.
pub open spec fn spec_peeked_grpc(peeked: Option<Trailers>) -> Option<u32> {
    match peeked {
        Some(t) => t.grpc_status,
        None => None,
    }
}

/// A request prepared for dispatch: either on the retry path, its body
/// wrapped for replay and the policy attached, or passed through
/// unwrapped — and thereby permanently ineligible for retry — because its
/// body was already known to exceed the buffering ceiling.
pub enum PreparedRequest<B> {
    Retryable(RetryPolicy, Request<ReplayBody<B>>),
    Passthru(Request<B>),
}

impl RetryPolicy {
    /// The classification rules in force for a request: its per-request
    /// override when it carries one, the route's rules otherwise.
    pub open spec fn spec_classes_in_effect(self, ext: Extensions) -> Seq<ResponseClass> {
        match ext.classify_override {
            Some(ov) => ov@,
            None => self.response_classes@,
        }
    }

    /// Whether the classifier calls this response a failure, judging by
    /// its status and whatever trailers the peek adapter observed.
    pub open spec fn spec_classified_failure<D, E2>(
        self,
        ext: Extensions,
        rsp: Response<PeekTrailersBody<D, Trailers, E2>>,
    ) -> bool {
        spec_is_failure(
            self.spec_classes_in_effect(ext),
            rsp.status,
            spec_peeked_grpc(rsp.body.spec_peek_trailers()),
        )
    }

    /// Whether a completed exchange may be retried: never on a transport
    /// error; on a response, only when the classifier calls it a failure
    /// and the request body is known to have streamed completely within
    /// the ceiling (`Some(false)`). A capped body cannot be replayed, and
    /// a body whose fate is still unknown is conservatively not retried.
    pub open spec fn spec_retryable<B, D, E2, E>(
        self,
        req: Request<ReplayBody<B>>,
        result: Result<Response<PeekTrailersBody<D, Trailers, E2>>, E>,
    ) -> bool {
        match result {
            Err(_) => false,
            Ok(rsp) => self.spec_classified_failure(req.head.extensions, rsp)
                && req.body.spec_is_capped() == Some(false),
        }
    }

    /// Decide the exchange. `None` means no retry; `Some(())` means a
    /// retry is to be dispatched now — the decision itself never
    /// suspends. An unretryable exchange returns a token to the budget; a
    /// retryable one attempts a withdrawal, whose outcome is recorded and
    /// decides the answer.
    pub fn retry<B, D, E2, E>(
        &mut self,
        req: &Request<ReplayBody<B>>,
        result: &Result<Response<PeekTrailersBody<D, Trailers, E2>>, E>,
    ) -> (r: Option<()>)
        ensures
            final(self).budget == old(self).budget,
            final(self).response_classes@ == old(self).response_classes@,
            r is Some ==> old(self).spec_retryable(*req, *result),
            !old(self).spec_retryable(*req, *result) ==> r is None && final(self).metrics == old(
                self,
            ).metrics,
            old(self).spec_retryable(*req, *result) ==> {
                ||| (r is Some && final(self).metrics == (RetryMetrics {
                    budget_available: spec_sat_inc(old(self).metrics.budget_available),
                    ..old(self).metrics
                }))
                ||| (r is None && final(self).metrics == (RetryMetrics {
                    budget_exhausted: spec_sat_inc(old(self).metrics.budget_exhausted),
                    ..old(self).metrics
                }))
            },
    {
        let retryable: bool = match result {
            Err(_) => false,
            Ok(rsp) => {
                let grpc_status: Option<u32> = match rsp.body.peek_trailers() {
                    Some(t) => t.grpc_status,
                    None => None,
                };
                let classes: &Vec<ResponseClass> = match &req.head.extensions.classify_override {
                    Some(ov) => ov,
                    None => &self.response_classes,
                };
                let failed = is_failure(classes, rsp.status, grpc_status);
                match req.body.is_capped() {
                    Some(false) => failed,
                    _ => false,
                }
            },
        };

        if !retryable {
            budget_deposit(&self.budget);
            return None;
        }

        let withdrew = budget_withdraw(&self.budget);
        self.metrics.incr_retryable(withdrew);
        if !withdrew {
            return None;
        }
        Some(())
    }

    /// Duplicate a request for a retry attempt: method, URI, headers and
    /// version are reproduced value for value, the client-connection
    /// handle and any classification override are carried over, and the
    /// replay body is duplicated under its contract. Always succeeds —
    /// a body on the retry path was wrapped for replay up front.
    pub fn clone_request<B: Clone>(&self, req: &Request<ReplayBody<B>>) -> (r: Option<
        Request<ReplayBody<B>>,
    >)
        ensures
            r is Some,
            r matches Some(c) ==> {
                &&& spec_same_head(c.head, req.head)
                &&& c.body.max_bytes == req.body.max_bytes
                &&& c.body.buffered == req.body.buffered
                &&& c.body.complete == req.body.complete
                &&& c.body.capped == req.body.capped
                &&& c.body.spec_is_capped() == req.body.spec_is_capped()
            },
    {
        Some(
            Request {
                head: req.head.duplicate(),
                body: req.body.duplicate(),
            },
        )
    }

    /// Wrap an outbound request for the retry path, before dispatch:
    /// retrying requires the original bytes, so buffering must begin at
    /// first send. `known_min_len` is the least body length known before
    /// any bytes are read; a body already known to exceed the ceiling is
    /// dispatched unwrapped and is permanently ineligible for retry.
    pub fn prepare_request<B>(self, req: Request<B>, known_min_len: usize) -> (r: PreparedRequest<
        B,
    >)
        ensures
            known_min_len <= MAX_BUFFERED_BYTES <==> r is Retryable,
            r matches PreparedRequest::Retryable(p, rq) ==> {
                &&& p == self
                &&& rq.head == req.head
                &&& rq.body == (ReplayBody {
                    inner: req.body,
                    max_bytes: MAX_BUFFERED_BYTES,
                    buffered: 0,
                    complete: false,
                    capped: false,
                })
            },
            r matches PreparedRequest::Passthru(unchanged) ==> unchanged == req,
    {
        let Request { head, body } = req;
        match ReplayBody::try_new(body, known_min_len, MAX_BUFFERED_BYTES) {
            Ok(replay_body) => PreparedRequest::Retryable(
                self,
                Request { head, body: replay_body },
            ),
            Err(body) => PreparedRequest::Passthru(Request { head, body }),
        }
    }
}

/// For every request whose body is at or under the buffering ceiling,
/// preparing it wraps it on the retry path, and any clone the policy then
/// produces for a retry attempt exists (cloning never fails on the retry
/// path) and reproduces the original request's method, URI, headers,
/// version and extensions byte for byte.
pub proof fn lemma_clone_after_prepare_reproduces_head<B: Clone>(
    policy: RetryPolicy,
    req: Request<B>,
    known_min_len: usize,
    prepared: PreparedRequest<B>,
    clone_result: Option<Request<ReplayBody<B>>>,
)
    requires
        known_min_len <= MAX_BUFFERED_BYTES,
        call_ensures(RetryPolicy::prepare_request::<B>, (policy, req, known_min_len), prepared),
        prepared matches PreparedRequest::Retryable(p, rq) ==> call_ensures(
            RetryPolicy::clone_request::<B>,
            (&p, &rq),
            clone_result,
        ),
    ensures
        prepared is Retryable,
        prepared matches PreparedRequest::Retryable(_, rq) ==> rq.head == req.head,
        prepared is Retryable ==> clone_result is Some,
        clone_result matches Some(c) ==> (prepared is Retryable ==> spec_same_head(
            c.head,
            req.head,
        )),
{
}

/// A transport error — no response was received — is never retryable,
/// whatever the classifier and whatever the request body's state: the
/// policy returns the budget token and stops.
pub proof fn lemma_transport_error_never_retryable<B, D, E2, E>(
    p: RetryPolicy,
    req: Request<ReplayBody<B>>,
    e: E,
)
    ensures
        !p.spec_retryable::<B, D, E2, E>(
            req,
            Err::<Response<PeekTrailersBody<D, Trailers, E2>>, E>(e),
        ),
{
}

/// A request body that is not known to have streamed completely within
/// the ceiling — capped, or still of unknown fate — is never retryable,
/// whatever the response and however it was classified.
pub proof fn lemma_unreplayable_body_never_retryable<B, D, E2, E>(
    p: RetryPolicy,
    req: Request<ReplayBody<B>>,
    result: Result<Response<PeekTrailersBody<D, Trailers, E2>>, E>,
)
    requires
        req.body.spec_is_capped() != Some(false),
    ensures
        !p.spec_retryable(req, result),
{
}

/// A classified failure whose request body streamed completely within the
/// ceiling is retryable: exactly then does the policy attempt the single
/// budget withdrawal whose outcome decides the retry.
pub proof fn lemma_classified_failure_retryable<B, D, E2, E>(
    p: RetryPolicy,
    req: Request<ReplayBody<B>>,
    rsp: Response<PeekTrailersBody<D, Trailers, E2>>,
)
    requires
        req.body.spec_is_capped() == Some(false),
        p.spec_classified_failure(req.head.extensions, rsp),
    ensures
        p.spec_retryable::<B, D, E2, E>(
            req,
            Ok::<Response<PeekTrailersBody<D, Trailers, E2>>, E>(rsp),
        ),
{
}

} // verus!
