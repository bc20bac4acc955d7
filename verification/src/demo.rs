//! Demo service: health, info, echo, a small RPC namespace and a Cashu-style
//! mint API, all answered with fixed JSON documents.

use vstd::prelude::*;
use vstd::string::StringSliceAdditionalSpecFns;

use crate::bytes::{bytes_eq, spliced, write_bytes};
use crate::router::{
    full_match, lemma_first_accepting_route_handles, spec_route, Route, RouteHandler, RouteMatch, Router,
};
use crate::service::{
    route_suffix, written_front, ContentType, HandleOutcome, ServiceError, ServiceHandler,
    ServiceMethod, ServiceReply, ServiceRequest, ServiceStatus,
};

verus! {

pub const HEALTH_JSON: &'static str = r#"{"ok":true,"transport":"fips","adapter":"service"}"#;

pub const INFO_JSON: &'static str =
    r#"{"name":"microfips-http-demo","protocol":"microfips-service","http":"optional"}"#;

pub const KEYS_JSON: &'static str =
    r#"{"keysets":[{"id":"demo-keyset","unit":"sat","keys":{"1":"02aaaaaaaaaaaaaaaaaaaaaaaaaaaaaaaaaaaaaaaaaaaaaaaaaaaaaaaaaaaaaaaa"}}]}"#;

pub const KEYSETS_JSON: &'static str =
    r#"{"keysets":[{"id":"demo-keyset","unit":"sat","active":true}]}"#;

pub const MINT_QUOTE_JSON: &'static str =
    r#"{"quote":"mint-quote-demo","request":"lnbc1demo","paid":false,"expiry":1735689600}"#;

pub const MELT_QUOTE_JSON: &'static str =
    r#"{"quote":"melt-quote-demo","amount":21,"fee_reserve":1,"paid":false,"expiry":1735689600}"#;

pub const MINT_RESULT_JSON: &'static str =
    r#"{"signatures":[],"quote":"mint-quote-demo","paid":true}"#;

pub const MELT_RESULT_JSON: &'static str = r#"{"paid":true,"preimage":"demo-preimage","change":[]}"#;

pub const SWAP_RESULT_JSON: &'static str = r#"{"signatures":[]}"#;

pub const PING_RESULT_JSON: &'static str = r#"{"method":"ping","result":"pong"}"#;

pub const MINT_INFO_JSON: &'static str =
    r#"{"name":"microfips demo mint","pubkey":"demo","version":"0.1","nuts":{"4":{"methods":["bolt11"]},"6":{"supported":true}}}"#;

pub const RPC_PREFIX: &'static str = "/rpc/";

pub const MINT_QUOTE_PREFIX: &'static str = "/v1/mint/quote/bolt11/";

pub const MELT_QUOTE_PREFIX: &'static str = "/v1/melt/quote/bolt11/";

pub const QUOTE_OPEN: &'static str = r#"{"quote":""#;

pub const MINT_QUOTE_CLOSE: &'static str =
    r#"","paid":false,"request":"lnbc1demo","expiry":1735689600}"#;

pub const MELT_QUOTE_CLOSE: &'static str = r#"","paid":false,"fee_reserve":1,"amount":21}"#;

pub const UNKNOWN_QUOTE: &'static str = "unknown";

/// The endpoints of the demo service.
#[derive(Debug, Clone, Copy, PartialEq, Eq, Structural)]
pub enum DemoEndpoint {
    Health,
    Info,
    Echo,
    Rpc,
    CashuInfo,
    CashuKeys,
    CashuKeysets,
    MintQuoteCreate,
    MintQuoteGet,
    MintTokens,
    MeltQuoteCreate,
    MeltQuoteGet,
    MeltTokens,
    SwapTokens,
}

/// Answer with `body` when the buffer can hold it.
pub open spec fn spec_copy_response(
    response: Seq<u8>,
    body: Seq<u8>,
    status: ServiceStatus,
    content_type: ContentType,
) -> HandleOutcome {
    if response.len() < body.len() {
        (Err(ServiceError::BufferTooSmall), response)
    } else {
        (
            Ok(ServiceReply { status, content_type, body_len: body.len() as usize }),
            written_front(response, body),
        )
    }
}

/// A JSON document answered with 200 OK.
pub open spec fn spec_json_ok(response: Seq<u8>, body: &'static str) -> HandleOutcome {
    spec_copy_response(response, body.spec_bytes(), ServiceStatus(200), ContentType::Json)
}

/// The route remainder after `prefix`, or `default` when the route lacks it.
pub open spec fn suffix_or(route: Seq<u8>, prefix: &'static str, default: Seq<u8>) -> Seq<u8> {
    if prefix.spec_bytes().is_prefix_of(route) {
        route.subrange(prefix.spec_bytes().len() as int, route.len() as int)
    } else {
        default
    }
}

/// The RPC method named by the route, and what it answers.
pub open spec fn spec_rpc(route: Seq<u8>, response: Seq<u8>) -> HandleOutcome {
    let method = suffix_or(route, RPC_PREFIX, Seq::empty());
    if method == "ping".spec_bytes() {
        spec_json_ok(response, PING_RESULT_JSON)
    } else if method == "health".spec_bytes() {
        spec_json_ok(response, HEALTH_JSON)
    } else if method == "info".spec_bytes() {
        spec_json_ok(response, INFO_JSON)
    } else {
        (Err(ServiceError::NotFound), response)
    }
}

/// A quote document: `open`, the quote id taken from the route, `close`.
pub open spec fn spec_quote(
    route: Seq<u8>,
    prefix: &'static str,
    close: &'static str,
    response: Seq<u8>,
) -> HandleOutcome {
    let id = suffix_or(route, prefix, UNKNOWN_QUOTE.spec_bytes());
    let body = QUOTE_OPEN.spec_bytes() + id + close.spec_bytes();
    spec_copy_response(response, body, ServiceStatus(200), ContentType::Json)
}

impl RouteHandler for DemoEndpoint {
    open spec fn spec_call(
        &self,
        method: ServiceMethod,
        route: Seq<u8>,
        payload: Seq<u8>,
        response: Seq<u8>,
    ) -> HandleOutcome {
        match *self {
            DemoEndpoint::Health => spec_json_ok(response, HEALTH_JSON),
            DemoEndpoint::Info => spec_json_ok(response, INFO_JSON),
            DemoEndpoint::Echo => spec_copy_response(
                response,
                payload,
                ServiceStatus(200),
                ContentType::Binary,
            ),
            DemoEndpoint::Rpc => spec_rpc(route, response),
            DemoEndpoint::CashuInfo => spec_json_ok(response, MINT_INFO_JSON),
            DemoEndpoint::CashuKeys => spec_json_ok(response, KEYS_JSON),
            DemoEndpoint::CashuKeysets => spec_json_ok(response, KEYSETS_JSON),
            DemoEndpoint::MintQuoteCreate => spec_json_ok(response, MINT_QUOTE_JSON),
            DemoEndpoint::MintQuoteGet => spec_quote(
                route,
                MINT_QUOTE_PREFIX,
                MINT_QUOTE_CLOSE,
                response,
            ),
            DemoEndpoint::MintTokens => spec_json_ok(response, MINT_RESULT_JSON),
            DemoEndpoint::MeltQuoteCreate => spec_json_ok(response, MELT_QUOTE_JSON),
            DemoEndpoint::MeltQuoteGet => spec_quote(
                route,
                MELT_QUOTE_PREFIX,
                MELT_QUOTE_CLOSE,
                response,
            ),
            DemoEndpoint::MeltTokens => spec_json_ok(response, MELT_RESULT_JSON),
            DemoEndpoint::SwapTokens => spec_json_ok(response, SWAP_RESULT_JSON),
        }
    }

    fn call(&self, request: ServiceRequest<'_>, response: &mut [u8]) -> (r: Result<
        ServiceReply,
        ServiceError,
    >) {
        match *self {
            DemoEndpoint::Health => health(request, response),
            DemoEndpoint::Info => info(request, response),
            DemoEndpoint::Echo => echo(request, response),
            DemoEndpoint::Rpc => rpc(request, response),
            DemoEndpoint::CashuInfo => cashu_info(request, response),
            DemoEndpoint::CashuKeys => cashu_keys(request, response),
            DemoEndpoint::CashuKeysets => cashu_keysets(request, response),
            DemoEndpoint::MintQuoteCreate => mint_quote_create(request, response),
            DemoEndpoint::MintQuoteGet => mint_quote_get(request, response),
            DemoEndpoint::MintTokens => mint_tokens(request, response),
            DemoEndpoint::MeltQuoteCreate => melt_quote_create(request, response),
            DemoEndpoint::MeltQuoteGet => melt_quote_get(request, response),
            DemoEndpoint::MeltTokens => melt_tokens(request, response),
            DemoEndpoint::SwapTokens => swap_tokens(request, response),
        }
    }
}

/// The demo route table, in the order routes are tried.
pub open spec fn spec_demo_routes() -> Seq<Route<DemoEndpoint>> {
    seq![
        Route { method: ServiceMethod::Get, matcher: RouteMatch::Exact("/health"), handler: DemoEndpoint::Health },
        Route { method: ServiceMethod::Get, matcher: RouteMatch::Exact("/info"), handler: DemoEndpoint::Info },
        Route { method: ServiceMethod::Post, matcher: RouteMatch::Exact("/echo"), handler: DemoEndpoint::Echo },
        Route { method: ServiceMethod::Post, matcher: RouteMatch::Prefix("/rpc/"), handler: DemoEndpoint::Rpc },
        Route { method: ServiceMethod::Get, matcher: RouteMatch::Exact("/v1/info"), handler: DemoEndpoint::CashuInfo },
        Route { method: ServiceMethod::Get, matcher: RouteMatch::Exact("/v1/keys"), handler: DemoEndpoint::CashuKeys },
        Route { method: ServiceMethod::Get, matcher: RouteMatch::Exact("/v1/keysets"), handler: DemoEndpoint::CashuKeysets },
        Route { method: ServiceMethod::Post, matcher: RouteMatch::Exact("/v1/mint/quote/bolt11"), handler: DemoEndpoint::MintQuoteCreate },
        Route { method: ServiceMethod::Get, matcher: RouteMatch::Prefix("/v1/mint/quote/bolt11/"), handler: DemoEndpoint::MintQuoteGet },
        Route { method: ServiceMethod::Post, matcher: RouteMatch::Exact("/v1/mint/bolt11"), handler: DemoEndpoint::MintTokens },
        Route { method: ServiceMethod::Post, matcher: RouteMatch::Exact("/v1/melt/quote/bolt11"), handler: DemoEndpoint::MeltQuoteCreate },
        Route { method: ServiceMethod::Get, matcher: RouteMatch::Prefix("/v1/melt/quote/bolt11/"), handler: DemoEndpoint::MeltQuoteGet },
        Route { method: ServiceMethod::Post, matcher: RouteMatch::Exact("/v1/melt/bolt11"), handler: DemoEndpoint::MeltTokens },
        Route { method: ServiceMethod::Post, matcher: RouteMatch::Exact("/v1/swap"), handler: DemoEndpoint::SwapTokens },
    ]
}

/// The demo route table.
pub fn demo_routes() -> (r: &'static [Route<DemoEndpoint>])
    ensures
        r@ == spec_demo_routes(),
{
    let routes: &'static [Route<DemoEndpoint>] = &[
        Route { method: ServiceMethod::Get, matcher: RouteMatch::Exact("/health"), handler: DemoEndpoint::Health },
        Route { method: ServiceMethod::Get, matcher: RouteMatch::Exact("/info"), handler: DemoEndpoint::Info },
        Route { method: ServiceMethod::Post, matcher: RouteMatch::Exact("/echo"), handler: DemoEndpoint::Echo },
        Route { method: ServiceMethod::Post, matcher: RouteMatch::Prefix("/rpc/"), handler: DemoEndpoint::Rpc },
        Route { method: ServiceMethod::Get, matcher: RouteMatch::Exact("/v1/info"), handler: DemoEndpoint::CashuInfo },
        Route { method: ServiceMethod::Get, matcher: RouteMatch::Exact("/v1/keys"), handler: DemoEndpoint::CashuKeys },
        Route { method: ServiceMethod::Get, matcher: RouteMatch::Exact("/v1/keysets"), handler: DemoEndpoint::CashuKeysets },
        Route { method: ServiceMethod::Post, matcher: RouteMatch::Exact("/v1/mint/quote/bolt11"), handler: DemoEndpoint::MintQuoteCreate },
        Route { method: ServiceMethod::Get, matcher: RouteMatch::Prefix("/v1/mint/quote/bolt11/"), handler: DemoEndpoint::MintQuoteGet },
        Route { method: ServiceMethod::Post, matcher: RouteMatch::Exact("/v1/mint/bolt11"), handler: DemoEndpoint::MintTokens },
        Route { method: ServiceMethod::Post, matcher: RouteMatch::Exact("/v1/melt/quote/bolt11"), handler: DemoEndpoint::MeltQuoteCreate },
        Route { method: ServiceMethod::Get, matcher: RouteMatch::Prefix("/v1/melt/quote/bolt11/"), handler: DemoEndpoint::MeltQuoteGet },
        Route { method: ServiceMethod::Post, matcher: RouteMatch::Exact("/v1/melt/bolt11"), handler: DemoEndpoint::MeltTokens },
        Route { method: ServiceMethod::Post, matcher: RouteMatch::Exact("/v1/swap"), handler: DemoEndpoint::SwapTokens },
    ];
    assert(routes@ =~= spec_demo_routes());
    routes
}

/// What the demo service answers to POST `/rpc/<method>`.
pub open spec fn rpc_answer(method: &'static str, payload: Seq<u8>, response: Seq<u8>) -> HandleOutcome {
    spec_route(spec_demo_routes(), ServiceMethod::Post, RPC_PREFIX.spec_bytes() + method.spec_bytes(), payload, response)
}

/// The RPC namespace mirrors the plain endpoints: POST `/rpc/info` answers
/// exactly what GET `/info` answers, and POST `/rpc/health` exactly what GET
/// `/health` answers, whatever the payloads and into any buffer.
pub proof fn lemma_rpc_mirrors_endpoints(p1: Seq<u8>, p2: Seq<u8>, response: Seq<u8>)
    ensures
        rpc_answer("info", p1, response) == spec_route(
            spec_demo_routes(),
            ServiceMethod::Get,
            "/info".spec_bytes(),
            p2,
            response,
        ),
        rpc_answer("health", p1, response) == spec_route(
            spec_demo_routes(),
            ServiceMethod::Get,
            "/health".spec_bytes(),
            p2,
            response,
        ),
{
    broadcast use vstd::string::is_ascii_spec_bytes;

    reveal_strlit("/rpc/");
    reveal_strlit("/health");
    reveal_strlit("/info");
    reveal_strlit("/echo");
    reveal_strlit("info");
    reveal_strlit("health");
    reveal_strlit("ping");
    assert(vstd::string::is_ascii(RPC_PREFIX));
    assert(vstd::string::is_ascii("/health"));
    assert(vstd::string::is_ascii("/info"));
    assert(vstd::string::is_ascii("/echo"));
    assert(vstd::string::is_ascii("info"));
    assert(vstd::string::is_ascii("health"));
    assert(vstd::string::is_ascii("ping"));
    let routes = spec_demo_routes();
    let info_route = RPC_PREFIX.spec_bytes() + "info".spec_bytes();
    let health_route = RPC_PREFIX.spec_bytes() + "health".spec_bytes();
    assert(info_route.len() == 9);
    assert(health_route.len() == 11);
    assert(RPC_PREFIX.spec_bytes() =~= info_route.subrange(0, 5));
    assert(RPC_PREFIX.spec_bytes() =~= health_route.subrange(0, 5));
    assert(info_route.subrange(5, 9) =~= "info".spec_bytes());
    assert(health_route.subrange(5, 11) =~= "health".spec_bytes());
    assert("info".spec_bytes()[0] != "ping".spec_bytes()[0]);
    assert("info".spec_bytes() != "ping".spec_bytes());
    assert("info".spec_bytes() != "health".spec_bytes());
    assert("health".spec_bytes() != "ping".spec_bytes());
    assert(info_route != "/echo".spec_bytes());
    assert(health_route != "/echo".spec_bytes());
    assert(!full_match(routes[2], ServiceMethod::Post, info_route));
    assert(!full_match(routes[2], ServiceMethod::Post, health_route));
    lemma_first_accepting_route_handles(routes, ServiceMethod::Post, info_route, p1, response, 3);
    lemma_first_accepting_route_handles(routes, ServiceMethod::Post, health_route, p1, response, 3);
    assert("/info".spec_bytes() != "/health".spec_bytes());
    assert(!full_match(routes[0], ServiceMethod::Get, "/info".spec_bytes()));
    lemma_first_accepting_route_handles(routes, ServiceMethod::Get, "/info".spec_bytes(), p2, response, 1);
    lemma_first_accepting_route_handles(routes, ServiceMethod::Get, "/health".spec_bytes(), p2, response, 0);
}

/// The three RPC methods each answer 200 with a JSON document of their own:
/// into a buffer that holds them, ping, health and info write three different
/// bodies, and info's is the document GET `/info` serves.
pub proof fn lemma_rpc_methods_distinct(payload: Seq<u8>, response: Seq<u8>)
    requires
        response.len() >= 128,
    ensures
        ({
            let ping = rpc_answer("ping", payload, response);
            let health = rpc_answer("health", payload, response);
            let info = rpc_answer("info", payload, response);
            &&& ping.0 is Ok && health.0 is Ok && info.0 is Ok
            &&& ping.0->Ok_0.status == ServiceStatus(200) && ping.0->Ok_0.content_type == ContentType::Json
            &&& health.0->Ok_0.status == ServiceStatus(200) && health.0->Ok_0.content_type == ContentType::Json
            &&& info.0->Ok_0.status == ServiceStatus(200) && info.0->Ok_0.content_type == ContentType::Json
            &&& ping.0->Ok_0.body_len != health.0->Ok_0.body_len
            &&& ping.0->Ok_0.body_len != info.0->Ok_0.body_len
            &&& health.0->Ok_0.body_len != info.0->Ok_0.body_len
            &&& info.1.subrange(0, info.0->Ok_0.body_len as int) == INFO_JSON.spec_bytes()
        }),
{
    broadcast use vstd::string::is_ascii_spec_bytes;

    reveal_strlit("/rpc/");
    reveal_strlit("/echo");
    reveal_strlit("info");
    reveal_strlit("health");
    reveal_strlit("ping");
    assert(vstd::string::is_ascii(RPC_PREFIX));
    assert(vstd::string::is_ascii("/echo"));
    assert(vstd::string::is_ascii("info"));
    assert(vstd::string::is_ascii("health"));
    assert(vstd::string::is_ascii("ping"));
    reveal_strlit(r#"{"ok":true,"transport":"fips","adapter":"service"}"#);
    reveal_strlit(r#"{"name":"microfips-http-demo","protocol":"microfips-service","http":"optional"}"#);
    reveal_strlit(r#"{"method":"ping","result":"pong"}"#);
    assert(vstd::string::is_ascii(PING_RESULT_JSON));
    assert(vstd::string::is_ascii(HEALTH_JSON));
    assert(vstd::string::is_ascii(INFO_JSON));
    let routes = spec_demo_routes();
    let ping_route = RPC_PREFIX.spec_bytes() + "ping".spec_bytes();
    let info_route = RPC_PREFIX.spec_bytes() + "info".spec_bytes();
    let health_route = RPC_PREFIX.spec_bytes() + "health".spec_bytes();
    assert(RPC_PREFIX.spec_bytes() =~= ping_route.subrange(0, 5));
    assert(RPC_PREFIX.spec_bytes() =~= info_route.subrange(0, 5));
    assert(RPC_PREFIX.spec_bytes() =~= health_route.subrange(0, 5));
    assert(ping_route.subrange(5, 9) =~= "ping".spec_bytes());
    assert(info_route.subrange(5, 9) =~= "info".spec_bytes());
    assert(health_route.subrange(5, 11) =~= "health".spec_bytes());
    assert("info".spec_bytes()[0] != "ping".spec_bytes()[0]);
    assert("info".spec_bytes() != "ping".spec_bytes());
    assert("info".spec_bytes() != "health".spec_bytes());
    assert("health".spec_bytes() != "ping".spec_bytes());
    assert(ping_route != "/echo".spec_bytes());
    assert(info_route != "/echo".spec_bytes());
    assert(health_route != "/echo".spec_bytes());
    assert(!full_match(routes[2], ServiceMethod::Post, ping_route));
    assert(!full_match(routes[2], ServiceMethod::Post, info_route));
    assert(!full_match(routes[2], ServiceMethod::Post, health_route));
    lemma_first_accepting_route_handles(routes, ServiceMethod::Post, ping_route, payload, response, 3);
    lemma_first_accepting_route_handles(routes, ServiceMethod::Post, info_route, payload, response, 3);
    lemma_first_accepting_route_handles(routes, ServiceMethod::Post, health_route, payload, response, 3);
    assert(INFO_JSON.spec_bytes().len() == 79);
    assert(HEALTH_JSON.spec_bytes().len() == 50);
    assert(PING_RESULT_JSON.spec_bytes().len() == 33);
}

/// The demo service: the demo route table behind a router.
pub struct DemoService {
    router: Router<'static, DemoEndpoint>,
}

impl DemoService {
    #[verifier::type_invariant]
    spec fn routes_are_demo(self) -> bool {
        self.router.route_table() == spec_demo_routes()
    }

    /// The route table the service dispatches on.
    pub closed spec fn routes(self) -> Seq<Route<DemoEndpoint>> {
        self.router.route_table()
    }

    pub fn new() -> (r: Self)
        ensures
            r.routes() == spec_demo_routes(),
    {
        DemoService { router: Router::new(demo_routes()) }
    }
}

impl Default for DemoService {
    fn default() -> (r: Self)
        ensures
            r.routes() == spec_demo_routes(),
    {
        Self::new()
    }
}

impl ServiceHandler for DemoService {
    open spec fn spec_handle(
        &self,
        method: ServiceMethod,
        route: Seq<u8>,
        payload: Seq<u8>,
        response: Seq<u8>,
    ) -> HandleOutcome {
        spec_route(spec_demo_routes(), method, route, payload, response)
    }

    fn handle(&mut self, request: ServiceRequest<'_>, response: &mut [u8]) -> (r: Result<
        ServiceReply,
        ServiceError,
    >) {
        proof {
            use_type_invariant(&*self);
        }
        let mut router = self.router;
        router.handle(request, response)
    }
}

/// Copies `body` to the front of `response` when it fits.
fn copy_response(response: &mut [u8], body: &[u8], status: ServiceStatus, content_type: ContentType) -> (r:
    Result<ServiceReply, ServiceError>)
    ensures
        final(response)@.len() == old(response)@.len(),
        (r, final(response)@) == spec_copy_response(old(response)@, body@, status, content_type),
{
    if response.len() < body.len() {
        return Err(ServiceError::BufferTooSmall);
    }
    let ghost orig = response@;
    write_bytes(response, 0, body);
    assert(spliced(orig, 0, body@) =~= written_front(orig, body@));
    Ok(ServiceReply { status, content_type, body_len: body.len() })
}

/// A fixed JSON document with 200 OK.
fn json_ok(response: &mut [u8], body: &'static str) -> (r: Result<ServiceReply, ServiceError>)
    ensures
        final(response)@.len() == old(response)@.len(),
        (r, final(response)@) == spec_json_ok(old(response)@, body),
{
    copy_response(response, body.as_bytes(), ServiceStatus::ok(), ContentType::Json)
}

fn health(_request: ServiceRequest<'_>, response: &mut [u8]) -> (r: Result<ServiceReply, ServiceError>)
    ensures
        final(response)@.len() == old(response)@.len(),
        (r, final(response)@) == spec_json_ok(old(response)@, HEALTH_JSON),
{
    json_ok(response, HEALTH_JSON)
}

fn info(_request: ServiceRequest<'_>, response: &mut [u8]) -> (r: Result<ServiceReply, ServiceError>)
    ensures
        final(response)@.len() == old(response)@.len(),
        (r, final(response)@) == spec_json_ok(old(response)@, INFO_JSON),
{
    json_ok(response, INFO_JSON)
}

fn echo(request: ServiceRequest<'_>, response: &mut [u8]) -> (r: Result<ServiceReply, ServiceError>)
    ensures
        final(response)@.len() == old(response)@.len(),
        (r, final(response)@) == spec_copy_response(
            old(response)@,
            request.payload@,
            ServiceStatus(200),
            ContentType::Binary,
        ),
{
    copy_response(response, request.payload, ServiceStatus::ok(), ContentType::Binary)
}

fn rpc(request: ServiceRequest<'_>, response: &mut [u8]) -> (r: Result<ServiceReply, ServiceError>)
    ensures
        final(response)@.len() == old(response)@.len(),
        (r, final(response)@) == spec_rpc(request.route.spec_bytes(), old(response)@),
{
    let method = match route_suffix(request.route, RPC_PREFIX) {
        Some(m) => m.as_bytes(),
        None => "".as_bytes(),
    };
    proof {
        reveal_strlit("");
        assert("".spec_bytes() =~= Seq::<u8>::empty());
    }
    if bytes_eq(method, "ping".as_bytes()) {
        json_ok(response, PING_RESULT_JSON)
    } else if bytes_eq(method, "health".as_bytes()) {
        json_ok(response, HEALTH_JSON)
    } else if bytes_eq(method, "info".as_bytes()) {
        json_ok(response, INFO_JSON)
    } else {
        Err(ServiceError::NotFound)
    }
}

fn cashu_info(_request: ServiceRequest<'_>, response: &mut [u8]) -> (r: Result<ServiceReply, ServiceError>)
    ensures
        final(response)@.len() == old(response)@.len(),
        (r, final(response)@) == spec_json_ok(old(response)@, MINT_INFO_JSON),
{
    json_ok(response, MINT_INFO_JSON)
}

fn cashu_keys(_request: ServiceRequest<'_>, response: &mut [u8]) -> (r: Result<ServiceReply, ServiceError>)
    ensures
        final(response)@.len() == old(response)@.len(),
        (r, final(response)@) == spec_json_ok(old(response)@, KEYS_JSON),
{
    json_ok(response, KEYS_JSON)
}

fn cashu_keysets(_request: ServiceRequest<'_>, response: &mut [u8]) -> (r: Result<ServiceReply, ServiceError>)
    ensures
        final(response)@.len() == old(response)@.len(),
        (r, final(response)@) == spec_json_ok(old(response)@, KEYSETS_JSON),
{
    json_ok(response, KEYSETS_JSON)
}

fn mint_quote_create(_request: ServiceRequest<'_>, response: &mut [u8]) -> (r: Result<
    ServiceReply,
    ServiceError,
>)
    ensures
        final(response)@.len() == old(response)@.len(),
        (r, final(response)@) == spec_json_ok(old(response)@, MINT_QUOTE_JSON),
{
    json_ok(response, MINT_QUOTE_JSON)
}

fn mint_tokens(_request: ServiceRequest<'_>, response: &mut [u8]) -> (r: Result<ServiceReply, ServiceError>)
    ensures
        final(response)@.len() == old(response)@.len(),
        (r, final(response)@) == spec_json_ok(old(response)@, MINT_RESULT_JSON),
{
    json_ok(response, MINT_RESULT_JSON)
}

fn melt_quote_create(_request: ServiceRequest<'_>, response: &mut [u8]) -> (r: Result<
    ServiceReply,
    ServiceError,
>)
    ensures
        final(response)@.len() == old(response)@.len(),
        (r, final(response)@) == spec_json_ok(old(response)@, MELT_QUOTE_JSON),
{
    json_ok(response, MELT_QUOTE_JSON)
}

fn melt_tokens(_request: ServiceRequest<'_>, response: &mut [u8]) -> (r: Result<ServiceReply, ServiceError>)
    ensures
        final(response)@.len() == old(response)@.len(),
        (r, final(response)@) == spec_json_ok(old(response)@, MELT_RESULT_JSON),
{
    json_ok(response, MELT_RESULT_JSON)
}

fn swap_tokens(_request: ServiceRequest<'_>, response: &mut [u8]) -> (r: Result<ServiceReply, ServiceError>)
    ensures
        final(response)@.len() == old(response)@.len(),
        (r, final(response)@) == spec_json_ok(old(response)@, SWAP_RESULT_JSON),
{
    json_ok(response, SWAP_RESULT_JSON)
}

/// Writes a quote document for the id the route carries after `prefix`.
fn quote_document(request: ServiceRequest<'_>, response: &mut [u8], prefix: &'static str, close: &'static str) -> (r:
    Result<ServiceReply, ServiceError>)
    ensures
        final(response)@.len() == old(response)@.len(),
        (r, final(response)@) == spec_quote(request.route.spec_bytes(), prefix, close, old(response)@),
{
    let quote_id = match route_suffix(request.route, prefix) {
        Some(id) => id.as_bytes(),
        None => UNKNOWN_QUOTE.as_bytes(),
    };
    let pre = QUOTE_OPEN.as_bytes();
    let suf = close.as_bytes();
    let ghost body = pre@ + quote_id@ + suf@;
    if response.len() < pre.len() || response.len() - pre.len() < quote_id.len() || response.len()
        - pre.len() - quote_id.len() < suf.len() {
        return Err(ServiceError::BufferTooSmall);
    }
    let ghost orig = response@;
    let mut pos: usize = 0;
    write_bytes(response, pos, pre);
    pos = pos + pre.len();
    write_bytes(response, pos, quote_id);
    pos = pos + quote_id.len();
    write_bytes(response, pos, suf);
    pos = pos + suf.len();
    assert(response@ =~= written_front(orig, body));
    Ok(ServiceReply { status: ServiceStatus::ok(), content_type: ContentType::Json, body_len: pos })
}

fn mint_quote_get(request: ServiceRequest<'_>, response: &mut [u8]) -> (r: Result<ServiceReply, ServiceError>)
    ensures
        final(response)@.len() == old(response)@.len(),
        (r, final(response)@) == spec_quote(
            request.route.spec_bytes(),
            MINT_QUOTE_PREFIX,
            MINT_QUOTE_CLOSE,
            old(response)@,
        ),
{
    quote_document(request, response, MINT_QUOTE_PREFIX, MINT_QUOTE_CLOSE)
}

fn melt_quote_get(request: ServiceRequest<'_>, response: &mut [u8]) -> (r: Result<ServiceReply, ServiceError>)
    ensures
        final(response)@.len() == old(response)@.len(),
        (r, final(response)@) == spec_quote(
            request.route.spec_bytes(),
            MELT_QUOTE_PREFIX,
            MELT_QUOTE_CLOSE,
            old(response)@,
        ),
{
    quote_document(request, response, MELT_QUOTE_PREFIX, MELT_QUOTE_CLOSE)
}

} // verus!
