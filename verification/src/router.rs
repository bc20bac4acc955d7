//! Routing of service requests to handlers by method and route.

use vstd::prelude::*;
use vstd::string::StringSliceAdditionalSpecFns;

use crate::bytes::{bytes_eq, bytes_starts_with};
use crate::service::{HandleOutcome, ServiceError, ServiceHandler, ServiceMethod, ServiceReply, ServiceRequest};

verus! {

/// Route matching strategy: exact string match or prefix match.
#[derive(Debug, Clone, Copy, PartialEq, Eq)]
pub enum RouteMatch {
    Exact(&'static str),
    Prefix(&'static str),
}

impl RouteMatch {
    /// Whether a route (given by its bytes) is accepted by this matcher.
    pub open spec fn spec_matches(self, route: Seq<u8>) -> bool {
        match self {
            RouteMatch::Exact(expected) => route == expected.spec_bytes(),
            RouteMatch::Prefix(prefix) => prefix.spec_bytes().is_prefix_of(route),
        }
    }

    fn matches(self, route: &str) -> (r: bool)
        ensures
            r == self.spec_matches(route.spec_bytes()),
    {
        match self {
            RouteMatch::Exact(expected) => bytes_eq(route.as_bytes(), expected.as_bytes()),
            RouteMatch::Prefix(prefix) => bytes_starts_with(route.as_bytes(), prefix.as_bytes()),
        }
    }
}

/// The handler a route leads to.
///
/// `spec_call` states what `call` returns and what the response buffer holds
/// afterwards, for the request (method, route bytes, payload) and the buffer
/// before the call.
pub trait RouteHandler {
    closed spec fn spec_call(
        &self,
        method: ServiceMethod,
        route: Seq<u8>,
        payload: Seq<u8>,
        response: Seq<u8>,
    ) -> HandleOutcome {
        arbitrary()
    }

    fn call(&self, request: ServiceRequest<'_>, response: &mut [u8]) -> (r: Result<
        ServiceReply,
        ServiceError,
    >)
        ensures
            final(response)@.len() == old(response)@.len(),
            (r, final(response)@) == self.spec_call(
                request.method,
                request.route.spec_bytes(),
                request.payload@,
                old(response)@,
            ),
    ;
}

/// A route definition with method, matcher, and handler.
#[derive(Debug, Clone, Copy)]
pub struct Route<H> {
    pub method: ServiceMethod,
    pub matcher: RouteMatch,
    pub handler: H,
}

/// Whether a route accepts both the method and the route of a request.
pub open spec fn full_match<H>(r: Route<H>, method: ServiceMethod, route: Seq<u8>) -> bool {
    r.matcher.spec_matches(route) && r.method == method
}

/// Index of the first of the first `n` routes that accepts method and route.
pub open spec fn first_match<H>(routes: Seq<Route<H>>, method: ServiceMethod, route: Seq<u8>, n: int) -> Option<
    int,
>
    decreases n,
{
    if n <= 0 {
        None
    } else {
        match first_match(routes, method, route, n - 1) {
            Some(i) => Some(i),
            None => if full_match(routes[n - 1], method, route) {
                Some(n - 1)
            } else {
                None
            },
        }
    }
}

/// Whether one of the first `n` routes accepts the route, whatever its method.
pub open spec fn any_matcher<H>(routes: Seq<Route<H>>, route: Seq<u8>, n: int) -> bool
    decreases n,
{
    if n <= 0 {
        false
    } else {
        any_matcher(routes, route, n - 1) || routes[n - 1].matcher.spec_matches(route)
    }
}

/// What a route table answers to a request.
pub open spec fn spec_route<H: RouteHandler>(
    routes: Seq<Route<H>>,
    method: ServiceMethod,
    route: Seq<u8>,
    payload: Seq<u8>,
    response: Seq<u8>,
) -> HandleOutcome {
    match first_match(routes, method, route, routes.len() as int) {
        Some(i) => routes[i].handler.spec_call(method, route, payload, response),
        None => if any_matcher(routes, route, routes.len() as int) {
            (Err(ServiceError::MethodNotAllowed), response)
        } else {
            (Err(ServiceError::NotFound), response)
        },
    }
}

/// Routes requests to matching handlers based on method and path.
#[derive(Debug, Clone, Copy)]
pub struct Router<'a, H> {
    routes: &'a [Route<H>],
}

impl<'a, H> Router<'a, H> {
    /// The routes, in the order they are tried.
    pub closed spec fn route_table(&self) -> Seq<Route<H>> {
        self.routes@
    }

    /// Creates a new router from a slice of routes.
    pub fn new(routes: &'a [Route<H>]) -> (r: Self)
        ensures
            r.route_table() == routes@,
    {
        Router { routes }
    }
}

impl<'a, H: RouteHandler> ServiceHandler for Router<'a, H> {
    open spec fn spec_handle(
        &self,
        method: ServiceMethod,
        route: Seq<u8>,
        payload: Seq<u8>,
        response: Seq<u8>,
    ) -> HandleOutcome {
        spec_route(self.route_table(), method, route, payload, response)
    }

    fn handle(&mut self, request: ServiceRequest<'_>, response: &mut [u8]) -> (r: Result<
        ServiceReply,
        ServiceError,
    >) {
        let ghost table = self.routes@;
        let ghost rb = request.route.spec_bytes();
        let ghost orig = response@;
        let mut method_seen = false;
        let n = self.routes.len();
        let mut i: usize = 0;
        while i < n
            invariant
                0 <= i <= n,
                n == table.len(),
                table == self.routes@,
                rb == request.route.spec_bytes(),
                response@ == orig,
                orig == old(response)@,
                *self == *old(self),
                first_match(table, request.method, rb, i as int) is None,
                method_seen == any_matcher(table, rb, i as int),
            decreases n - i,
        {
            let r = &self.routes[i];
            if r.matcher.matches(request.route) {
                if r.method == request.method {
                    proof {
                        assert(first_match(table, request.method, rb, i + 1) == Some(i as int));
                        lemma_first_match_stable(table, request.method, rb, i + 1, n as int);
                    }
                    return r.handler.call(request, response);
                }
                method_seen = true;
            }
            i = i + 1;
        }
        if method_seen {
            Err(ServiceError::MethodNotAllowed)
        } else {
            Err(ServiceError::NotFound)
        }
    }
}

/// A route that no matcher of the table accepts is answered `NotFound`, and one
/// that some matcher accepts but only under other methods `MethodNotAllowed`;
/// the response buffer is left as it was.
pub proof fn lemma_unrouted_requests<H: RouteHandler>(
    routes: Seq<Route<H>>,
    method: ServiceMethod,
    route: Seq<u8>,
    payload: Seq<u8>,
    response: Seq<u8>,
)
    requires
        forall|i: int| 0 <= i < routes.len() ==> !full_match(#[trigger] routes[i], method, route),
    ensures
        any_matcher(routes, route, routes.len() as int) ==> spec_route(
            routes,
            method,
            route,
            payload,
            response,
        ) == (Err::<ServiceReply, ServiceError>(ServiceError::MethodNotAllowed), response),
        !any_matcher(routes, route, routes.len() as int) ==> spec_route(
            routes,
            method,
            route,
            payload,
            response,
        ) == (Err::<ServiceReply, ServiceError>(ServiceError::NotFound), response),
        !(exists|i: int| 0 <= i < routes.len() && (#[trigger] routes[i]).matcher.spec_matches(route))
            ==> !any_matcher(routes, route, routes.len() as int),
{
    lemma_first_match_none(routes, method, route, routes.len() as int);
    lemma_any_matcher_exists(routes, route, routes.len() as int);
}

/// Routes are tried in table order: the first route whose method and matcher
/// accept the request handles it, whatever the routes after it.
pub proof fn lemma_first_accepting_route_handles<H: RouteHandler>(
    routes: Seq<Route<H>>,
    method: ServiceMethod,
    route: Seq<u8>,
    payload: Seq<u8>,
    response: Seq<u8>,
    k: int,
)
    requires
        0 <= k < routes.len(),
        full_match(routes[k], method, route),
        forall|i: int| 0 <= i < k ==> !full_match(#[trigger] routes[i], method, route),
    ensures
        spec_route(routes, method, route, payload, response) == routes[k].handler.spec_call(
            method,
            route,
            payload,
            response,
        ),
{
    lemma_first_match_none_below(routes, method, route, k);
    assert(first_match(routes, method, route, k + 1) == Some(k));
    lemma_first_match_stable(routes, method, route, k + 1, routes.len() as int);
}

proof fn lemma_first_match_none_below<H>(routes: Seq<Route<H>>, method: ServiceMethod, route: Seq<u8>, n: int)
    requires
        n <= routes.len(),
        forall|i: int| 0 <= i < n ==> !full_match(#[trigger] routes[i], method, route),
    ensures
        first_match(routes, method, route, n) is None,
    decreases n,
{
    if n > 0 {
        lemma_first_match_none_below(routes, method, route, n - 1);
        assert(!full_match(routes[n - 1], method, route));
    }
}

proof fn lemma_first_match_stable<H>(
    routes: Seq<Route<H>>,
    method: ServiceMethod,
    route: Seq<u8>,
    k: int,
    n: int,
)
    requires
        k <= n,
        first_match(routes, method, route, k) is Some,
    ensures
        first_match(routes, method, route, n) == first_match(routes, method, route, k),
    decreases n - k,
{
    if k < n {
        lemma_first_match_stable(routes, method, route, k, n - 1);
    }
}

proof fn lemma_first_match_none<H>(routes: Seq<Route<H>>, method: ServiceMethod, route: Seq<u8>, n: int)
    requires
        n <= routes.len(),
        forall|i: int| 0 <= i < routes.len() ==> !full_match(#[trigger] routes[i], method, route),
    ensures
        first_match(routes, method, route, n) is None,
    decreases n,
{
    if n > 0 {
        lemma_first_match_none(routes, method, route, n - 1);
        assert(!full_match(routes[n - 1], method, route));
    }
}

proof fn lemma_any_matcher_exists<H>(routes: Seq<Route<H>>, route: Seq<u8>, n: int)
    requires
        0 <= n <= routes.len(),
    ensures
        any_matcher(routes, route, n) ==> exists|i: int|
            0 <= i < n && (#[trigger] routes[i]).matcher.spec_matches(route),
    decreases n,
{
    if n > 0 {
        lemma_any_matcher_exists(routes, route, n - 1);
        if routes[n - 1].matcher.spec_matches(route) {
            assert(routes[n - 1].matcher.spec_matches(route));
        }
    }
}

} // verus!
