//! Route tables and the search that picks, for a request, the rule that
//! wins.
//!
//! Each route carries host requirements and a list of rules; each rule
//! carries request requirements. Every matching (route, rule) pair is
//! summarised as a [`RouteMatch`], and the pair with the best summary is
//! chosen — with the earliest of equally good pairs winning, so that
//! configuration order breaks ties.

use vstd::prelude::*;

use crate::filter::Filter;
use crate::http_types::RequestHead;
use crate::matching::{
    spec_host_lt, spec_request_match_lt, HostMatch, MatchHost, MatchRequest, RequestMatch,
};

verus! {

/// The inbound route table.
pub struct InboundRoutes(pub Vec<InboundRoute>);

/// The outbound route table.
pub struct OutboundRoutes(pub Vec<OutboundRoute>);

/// An inbound route: host requirements, rules, and labels.
pub struct InboundRoute {
    pub hosts: Vec<MatchHost>,
    pub rules: Vec<InboundRule>,
    pub labels: Vec<(String, String)>,
}

/// One rule of an inbound route.
pub struct InboundRule {
    pub matches: Vec<MatchRequest>,
    pub filters: Vec<Filter>,
    pub labels: Vec<(String, String)>,
}

/// An outbound route: host requirements, rules, and labels.
pub struct OutboundRoute {
    pub hosts: Vec<MatchHost>,
    pub rules: Vec<OutboundRule>,
    pub labels: Vec<(String, String)>,
}

/// One rule of an outbound route, with the backends traffic goes to.
pub struct OutboundRule {
    pub matches: Vec<MatchRequest>,
    pub filters: Vec<Filter>,
    pub backends: Vec<Backend>,
    pub labels: Vec<(String, String)>,
}

/// One backend of an outbound rule.
pub struct Backend {
    pub filters: Vec<Filter>,
    pub coordinate: BackendCoordinate,
}

/// The name under which a backend is resolved.
pub struct BackendCoordinate(pub String);

/// How well a (route, rule) pair matched a request: the route's host
/// match, if the route constrained the host, and the rule's request
/// match.
#[derive(Clone, Copy, Debug, PartialEq, Eq, Structural)]
pub struct RouteMatch {
    pub host_match: Option<HostMatch>,
    pub request_match: RequestMatch,
}

/// The precedence between optional host matches: any host match outranks
/// none, and two host matches rank as host matches do.
pub open spec fn spec_opt_host_lt(a: Option<HostMatch>, b: Option<HostMatch>) -> bool {
    match (a, b) {
        (None, Some(_)) => true,
        (Some(x), Some(y)) => spec_host_lt(x, y),
        _ => false,
    }
}

/// The precedence between route matches: the host match decides first,
/// and the request match breaks host ties.
pub open spec fn spec_route_match_lt(a: RouteMatch, b: RouteMatch) -> bool {
    ||| spec_opt_host_lt(a.host_match, b.host_match)
    ||| (a.host_match == b.host_match && spec_request_match_lt(a.request_match, b.request_match))
}

impl RouteMatch {
    pub fn less_than(&self, other: &RouteMatch) -> (r: bool)
        ensures
            r == spec_route_match_lt(*self, *other),
    {
        match (&self.host_match, &other.host_match) {
            (None, None) => self.request_match.less_than(&other.request_match),
            (None, Some(_)) => true,
            (Some(_), None) => false,
            (Some(x), Some(y)) => {
                if x.less_than(y) {
                    true
                } else if y.less_than(x) {
                    false
                } else {
                    self.request_match.less_than(&other.request_match)
                }
            },
        }
    }
}

/// One rule of a route, as the search reads it: the request requirements
/// under which the rule matches.
pub trait HasMatches {
    spec fn spec_matches(&self) -> Seq<MatchRequest>;

    fn rule_matches(&self) -> (r: &Vec<MatchRequest>)
        ensures
            r@ == self.spec_matches(),
    ;
}

impl HasMatches for InboundRule {
    open spec fn spec_matches(&self) -> Seq<MatchRequest> {
        self.matches@
    }

    fn rule_matches(&self) -> (r: &Vec<MatchRequest>) {
        &self.matches
    }
}

impl HasMatches for OutboundRule {
    open spec fn spec_matches(&self) -> Seq<MatchRequest> {
        self.matches@
    }

    fn rule_matches(&self) -> (r: &Vec<MatchRequest>) {
        &self.matches
    }
}

/// A route, as the search reads it: its host requirements and its rules.
pub trait RouteLike {
    type Rule: HasMatches;

    spec fn spec_hosts(&self) -> Seq<MatchHost>;

    spec fn spec_rules(&self) -> Seq<Self::Rule>;

    fn route_hosts(&self) -> (r: &Vec<MatchHost>)
        ensures
            r@ == self.spec_hosts(),
    ;

    fn route_rules(&self) -> (r: &Vec<Self::Rule>)
        ensures
            r@ == self.spec_rules(),
    ;
}

impl RouteLike for InboundRoute {
    type Rule = InboundRule;

    open spec fn spec_hosts(&self) -> Seq<MatchHost> {
        self.hosts@
    }

    open spec fn spec_rules(&self) -> Seq<InboundRule> {
        self.rules@
    }

    fn route_hosts(&self) -> (r: &Vec<MatchHost>) {
        &self.hosts
    }

    fn route_rules(&self) -> (r: &Vec<InboundRule>) {
        &self.rules
    }
}

impl RouteLike for OutboundRoute {
    type Rule = OutboundRule;

    open spec fn spec_hosts(&self) -> Seq<MatchHost> {
        self.hosts@
    }

    open spec fn spec_rules(&self) -> Seq<OutboundRule> {
        self.rules@
    }

    fn route_hosts(&self) -> (r: &Vec<MatchHost>) {
        &self.hosts
    }

    fn route_rules(&self) -> (r: &Vec<OutboundRule>) {
        &self.rules
    }
}

/// The best host summary among the first `i` host requirements: a later
/// one replaces the incumbent only when strictly better, so the first of
/// equals wins.
pub open spec fn spec_best_host_prefix(hosts: Seq<MatchHost>, host: Seq<u8>, i: int) -> Option<
    HostMatch,
>
    decreases i,
{
    if i <= 0 {
        None
    } else {
        let prev = spec_best_host_prefix(hosts, host, i - 1);
        let cur = hosts[i - 1].spec_summarize(host);
        match (prev, cur) {
            (p, None) => p,
            (None, Some(c)) => Some(c),
            (Some(p), Some(c)) => if spec_host_lt(p, c) {
                Some(c)
            } else {
                Some(p)
            },
        }
    }
}

fn best_host(hosts: &Vec<MatchHost>, host: &Vec<u8>) -> (r: Option<HostMatch>)
    ensures
        r == spec_best_host_prefix(hosts@, host@, hosts@.len() as int),
{
    let mut best: Option<HostMatch> = None;
    let mut i: usize = 0;
    while i < hosts.len()
        invariant
            i <= hosts.len(),
            best == spec_best_host_prefix(hosts@, host@, i as int),
        decreases hosts.len() - i,
    {
        let cur = hosts[i].summarize_match(host);
        best = match (best, cur) {
            (p, None) => p,
            (None, Some(c)) => Some(c),
            (Some(p), Some(c)) => if p.less_than(&c) {
                Some(c)
            } else {
                Some(p)
            },
        };
        i = i + 1;
    }
    best
}

/// The best request summary among the first `i` requirement sets, the
/// first of equals winning.
pub open spec fn spec_best_match_prefix(
    matches: Seq<MatchRequest>,
    req: RequestHead,
    i: int,
) -> Option<RequestMatch>
    decreases i,
{
    if i <= 0 {
        None
    } else {
        let prev = spec_best_match_prefix(matches, req, i - 1);
        let cur = matches[i - 1].spec_summarize(req);
        match (prev, cur) {
            (p, None) => p,
            (None, Some(c)) => Some(c),
            (Some(p), Some(c)) => if spec_request_match_lt(p, c) {
                Some(c)
            } else {
                Some(p)
            },
        }
    }
}

/// A rule's summary against a request: a rule with no requirements is an
/// implicit default match; otherwise the best of its requirement
/// summaries, if any requirement matches at all.
pub open spec fn spec_rule_summary(matches: Seq<MatchRequest>, req: RequestHead) -> Option<
    RequestMatch,
> {
    if matches.len() == 0 {
        Some(RequestMatch::spec_default())
    } else {
        spec_best_match_prefix(matches, req, matches.len() as int)
    }
}

fn rule_summary(matches: &Vec<MatchRequest>, req: &RequestHead) -> (r: Option<RequestMatch>)
    ensures
        r == spec_rule_summary(matches@, *req),
{
    if matches.len() == 0 {
        return Some(RequestMatch::default());
    }
    let mut best: Option<RequestMatch> = None;
    let mut i: usize = 0;
    while i < matches.len()
        invariant
            i <= matches.len(),
            best == spec_best_match_prefix(matches@, *req, i as int),
        decreases matches.len() - i,
    {
        let m = &matches[i];
        let cur = m.summarize_match(req);
        best = match (best, cur) {
            (p, None) => p,
            (None, Some(c)) => Some(c),
            (Some(p), Some(c)) => if p.less_than(&c) {
                Some(c)
            } else {
                Some(p)
            },
        };
        i = i + 1;
    }
    best
}

/// The best rule among the first `i` rules, by request-match precedence,
/// the first of equals winning; the winner's index comes with its
/// summary.
pub open spec fn spec_best_rule_prefix<R: HasMatches>(
    rules: Seq<R>,
    req: RequestHead,
    i: int,
) -> Option<(usize, RequestMatch)>
    decreases i,
{
    if i <= 0 {
        None
    } else {
        let prev = spec_best_rule_prefix(rules, req, i - 1);
        let cur = spec_rule_summary(rules[i - 1].spec_matches(), req);
        match (prev, cur) {
            (p, None) => p,
            (None, Some(c)) => Some(((i - 1) as usize, c)),
            (Some((pi, pm)), Some(c)) => if spec_request_match_lt(pm, c) {
                Some(((i - 1) as usize, c))
            } else {
                Some((pi, pm))
            },
        }
    }
}

impl RouteMatch {
    /// The winning rule for a request under one route's requirements: the
    /// rule whose summary ranks highest, the earliest of equals winning.
    /// When the route constrains the host, a request whose host satisfies
    /// no requirement matches no rule at all; the best host summary
    /// becomes part of every returned match.
    pub open spec fn spec_find<R: HasMatches>(
        req: RequestHead,
        hosts: Seq<MatchHost>,
        rules: Seq<R>,
    ) -> Option<(usize, RouteMatch)> {
        if hosts.len() > 0 && spec_best_host_prefix(hosts, req.uri.host@, hosts.len() as int)
            is None {
            None
        } else {
            let host_match = if hosts.len() == 0 {
                None
            } else {
                spec_best_host_prefix(hosts, req.uri.host@, hosts.len() as int)
            };
            match spec_best_rule_prefix(rules, req, rules.len() as int) {
                None => None,
                Some((idx, m)) => Some((idx, RouteMatch { host_match, request_match: m })),
            }
        }
    }

    pub fn find<R: HasMatches>(req: &RequestHead, hosts: &Vec<MatchHost>, rules: &Vec<R>) -> (r:
        Option<(usize, RouteMatch)>)
        ensures
            r == Self::spec_find(*req, hosts@, rules@),
            r matches Some((idx, _)) ==> idx < rules@.len(),
    {
        let host_match: Option<HostMatch>;
        if hosts.len() == 0 {
            host_match = None;
        } else {
            match best_host(hosts, &req.uri.host) {
                Some(hm) => {
                    host_match = Some(hm);
                },
                None => {
                    return None;
                },
            }
        }

        let mut best: Option<(usize, RequestMatch)> = None;
        let mut i: usize = 0;
        while i < rules.len()
            invariant
                i <= rules.len(),
                best == spec_best_rule_prefix(rules@, *req, i as int),
                best matches Some((idx, _)) ==> idx < i,
            decreases rules.len() - i,
        {
            let rule = &rules[i];
            let cur = rule_summary(rule.rule_matches(), req);
            best = match (best, cur) {
                (p, None) => p,
                (None, Some(c)) => Some((i, c)),
                (Some((pi, pm)), Some(c)) => if pm.less_than(&c) {
                    Some((i, c))
                } else {
                    Some((pi, pm))
                },
            };
            i = i + 1;
        }
        match best {
            Some((idx, m)) => Some((idx, RouteMatch { host_match, request_match: m })),
            None => None,
        }
    }
}

/// The best (route, rule) pair among the first `i` routes, by route-match
/// precedence, the first of equals winning.
pub open spec fn spec_best_route_prefix<RT: RouteLike>(
    routes: Seq<RT>,
    req: RequestHead,
    i: int,
) -> Option<(usize, usize, RouteMatch)>
    decreases i,
{
    if i <= 0 {
        None
    } else {
        let prev = spec_best_route_prefix(routes, req, i - 1);
        let cur = RouteMatch::spec_find(req, routes[i - 1].spec_hosts(), routes[i - 1].spec_rules());
        match (prev, cur) {
            (p, None) => p,
            (None, Some((ri, m))) => Some(((i - 1) as usize, ri, m)),
            (Some((pr, pi, pm)), Some((ri, m))) => if spec_route_match_lt(pm, m) {
                Some(((i - 1) as usize, ri, m))
            } else {
                Some((pr, pi, pm))
            },
        }
    }
}

/// The winning (route, rule) pair for a request, as indices into the
/// table: the pair whose route match ranks highest, the earliest of
/// equally ranked pairs winning.
pub open spec fn spec_find_route<RT: RouteLike>(routes: Seq<RT>, req: RequestHead) -> Option<
    (usize, usize),
> {
    match spec_best_route_prefix(routes, req, routes.len() as int) {
        None => None,
        Some((route_idx, rule_idx, _)) => Some((route_idx, rule_idx)),
    }
}

fn find_route_in<RT: RouteLike>(routes: &Vec<RT>, req: &RequestHead) -> (r: Option<
    (usize, usize),
>)
    ensures
        r == spec_find_route(routes@, *req),
        r matches Some((route_idx, _)) ==> route_idx < routes@.len(),
{
    let mut best: Option<(usize, usize, RouteMatch)> = None;
    let mut i: usize = 0;
    while i < routes.len()
        invariant
            i <= routes.len(),
            best == spec_best_route_prefix(routes@, *req, i as int),
            best matches Some((route_idx, _, _)) ==> route_idx < i,
        decreases routes.len() - i,
    {
        let route = &routes[i];
        let cur = RouteMatch::find(req, route.route_hosts(), route.route_rules());
        best = match (best, cur) {
            (p, None) => p,
            (None, Some((ri, m))) => Some((i, ri, m)),
            (Some((pr, pi, pm)), Some((ri, m))) => if pm.less_than(&m) {
                Some((i, ri, m))
            } else {
                Some((pr, pi, pm))
            },
        };
        i = i + 1;
    }
    match best {
        Some((route_idx, rule_idx, _)) => Some((route_idx, rule_idx)),
        None => None,
    }
}

impl InboundRoutes {
    /// The winning (route, rule) pair for a request, as indices into this
    /// table.
    pub fn find_route(&self, req: &RequestHead) -> (r: Option<(usize, usize)>)
        ensures
            r == spec_find_route(self.0@, *req),
            r matches Some((route_idx, _)) ==> route_idx < self.0@.len(),
    {
        find_route_in(&self.0, req)
    }
}

impl InboundRoute {
    /// The winning rule of this route for a request, as an index, with
    /// its match summary.
    pub fn find_rule(&self, req: &RequestHead) -> (r: Option<(usize, RouteMatch)>)
        ensures
            r == RouteMatch::spec_find(*req, self.hosts@, self.rules@),
            r matches Some((idx, _)) ==> idx < self.rules@.len(),
    {
        RouteMatch::find(req, &self.hosts, &self.rules)
    }
}

impl OutboundRoutes {
    /// The winning (route, rule) pair for a request, as indices into this
    /// table.
    pub fn find_route(&self, req: &RequestHead) -> (r: Option<(usize, usize)>)
        ensures
            r == spec_find_route(self.0@, *req),
            r matches Some((route_idx, _)) ==> route_idx < self.0@.len(),
    {
        find_route_in(&self.0, req)
    }
}

impl OutboundRoute {
    /// The winning rule of this route for a request, as an index, with
    /// its match summary.
    pub fn find_rule(&self, req: &RequestHead) -> (r: Option<(usize, RouteMatch)>)
        ensures
            r == RouteMatch::spec_find(*req, self.hosts@, self.rules@),
            r matches Some((idx, _)) ==> idx < self.rules@.len(),
    {
        RouteMatch::find(req, &self.hosts, &self.rules)
    }
}

} // verus!
