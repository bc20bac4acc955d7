//! The client side of the service layer: a call encodes a request envelope,
//! runs it through a handler and decodes the response; and the HTTP response
//! a gateway answers with for the outcome.

use vstd::prelude::*;
use vstd::string::StringSliceAdditionalSpecFns;

use crate::service::{
    decode_response, dispatch_request, encode_request, lemma_request_roundtrip, lemma_response_roundtrip,
    request_wire, response_wire, spec_decode_response, spec_dispatch, ContentType, ServiceError,
    ServiceHandler, ServiceMethod,
};
use vstd::utf8::valid_utf8;

verus! {

/// A decoded service response that owns its body.
pub struct OwnedServiceResponse {
    pub status: u16,
    pub content_type: ContentType,
    pub body: Vec<u8>,
}

/// A call's outcome as plain values: status, content type and body.
pub type CallOutcome = Result<(u16, ContentType, Seq<u8>), ServiceError>;

/// The outcome `r` carries.
pub open spec fn outcome_of(r: Result<OwnedServiceResponse, ServiceError>) -> CallOutcome {
    match r {
        Ok(resp) => Ok((resp.status, resp.content_type, resp.body@)),
        Err(e) => Err(e),
    }
}

/// Something that answers service calls.
pub trait ServiceClient {
    /// What a call with these arguments returns.
    closed spec fn spec_call(&self, method: ServiceMethod, route: Seq<u8>, payload: Seq<u8>) -> CallOutcome {
        arbitrary()
    }

    /// Performs one request/response exchange.
    fn call(&mut self, method: ServiceMethod, route: &str, payload: &[u8]) -> (r: Result<
        OwnedServiceResponse,
        ServiceError,
    >)
        requires
            route.spec_bytes().len() + payload@.len() + 16 <= usize::MAX,
        ensures
            outcome_of(r) == old(self).spec_call(method, route.spec_bytes(), payload@),
    ;
}

/// A client that serves calls with an in-process handler.
pub struct LocalServiceClient<H> {
    handler: H,
    pub request_buffer_size: usize,
    pub response_buffer_size: usize,
}

/// A zeroed buffer of `n` bytes.
pub open spec fn zeroes(n: nat) -> Seq<u8> {
    Seq::new(n, |i: int| 0u8)
}

/// A local call: the request is encoded into a buffer of at least
/// `request_buffer_size` bytes, dispatched into a zeroed response buffer of
/// `response_buffer_size` bytes, and the response envelope decoded; the first
/// failure is the result.
pub open spec fn spec_local_call<H: ServiceHandler>(
    handler: H,
    response_buffer_size: usize,
    method: ServiceMethod,
    route: Seq<u8>,
    payload: Seq<u8>,
) -> CallOutcome {
    if route.len() > u16::MAX || payload.len() > u16::MAX {
        Err(ServiceError::BufferTooSmall)
    } else {
        let (res, response) = spec_dispatch(
            handler,
            request_wire(method, route, payload),
            zeroes(response_buffer_size as nat),
        );
        match res {
            Err(e) => Err(e),
            Ok(n) => match spec_decode_response(response.take(n as int)) {
                Ok((status, ct, body)) => Ok((status.0, ct, body)),
                Err(e) => Err(e),
            },
        }
    }
}

impl<H> LocalServiceClient<H> {
    pub closed spec fn spec_handler(&self) -> H {
        self.handler
    }

    pub closed spec fn spec_request_buffer_size(&self) -> usize {
        self.request_buffer_size
    }

    pub closed spec fn spec_response_buffer_size(&self) -> usize {
        self.response_buffer_size
    }

    pub fn new(handler: H, request_buffer_size: usize, response_buffer_size: usize) -> (c: Self)
        ensures
            c.spec_handler() == handler,
            c.spec_request_buffer_size() == request_buffer_size,
            c.spec_response_buffer_size() == response_buffer_size,
    {
        LocalServiceClient { handler, request_buffer_size, response_buffer_size }
    }
}

impl<H: ServiceHandler> ServiceClient for LocalServiceClient<H> {
    open spec fn spec_call(&self, method: ServiceMethod, route: Seq<u8>, payload: Seq<u8>) -> CallOutcome {
        spec_local_call(self.spec_handler(), self.spec_response_buffer_size(), method, route, payload)
    }

    fn call(&mut self, method: ServiceMethod, route: &str, payload: &[u8]) -> (r: Result<
        OwnedServiceResponse,
        ServiceError,
    >) {
        let needed = payload.len() + route.len() + 16;
        let size = if self.request_buffer_size > needed {
            self.request_buffer_size
        } else {
            needed
        };
        let mut request = vec![0u8; size];
        let request_len = match encode_request(method, route, payload, request.as_mut_slice()) {
            Ok(n) => n,
            Err(e) => return Err(e),
        };
        let mut response = vec![0u8; self.response_buffer_size];
        proof {
            assert(response@ =~= zeroes(self.response_buffer_size as nat));
            assert(request@.subrange(0, request_len as int) =~= request_wire(
                method,
                route.spec_bytes(),
                payload@,
            ));
        }
        let response_len = match dispatch_request(
            &mut self.handler,
            &request.as_slice()[0..request_len],
            response.as_mut_slice(),
        ) {
            Ok(n) => n,
            Err(e) => return Err(e),
        };
        let decoded = match decode_response(&response.as_slice()[0..response_len]) {
            Ok(d) => d,
            Err(e) => return Err(e),
        };
        proof {
            assert(response@.subrange(0, response_len as int) =~= response@.take(response_len as int));
        }
        Ok(
            OwnedServiceResponse {
                status: decoded.status.as_u16(),
                content_type: decoded.content_type,
                body: vstd::slice::slice_to_vec(decoded.body),
            },
        )
    }
}

/// The MIME type of a content type.
pub open spec fn mime_of(content_type: ContentType) -> Seq<char> {
    match content_type {
        ContentType::Binary => "application/octet-stream"@,
        ContentType::Json => "application/json"@,
        ContentType::Text => "text/plain; charset=utf-8"@,
    }
}

/// The MIME type of a content type.
pub fn content_type_name(content_type: ContentType) -> (r: &'static str)
    ensures
        r@ == mime_of(content_type),
{
    match content_type {
        ContentType::Binary => "application/octet-stream",
        ContentType::Json => "application/json",
        ContentType::Text => "text/plain; charset=utf-8",
    }
}

/// An HTTP response of the gateway: status, MIME type and body.
pub struct HttpResponse {
    pub status: u16,
    pub content_type: &'static str,
    pub body: Vec<u8>,
}

/// The HTTP response for a call's outcome: a decoded response keeps its
/// status and body under its MIME type; an error answers with its status and
/// its message as plain text.
pub open spec fn spec_http_response(outcome: CallOutcome) -> (u16, Seq<char>, Seq<u8>) {
    match outcome {
        Ok((status, ct, body)) => (status, mime_of(ct), body),
        Err(e) => (e.spec_status().0, mime_of(ContentType::Text), e.message_text().spec_bytes()),
    }
}

/// The plain values an HTTP response carries.
pub open spec fn http_parts(r: HttpResponse) -> (u16, Seq<char>, Seq<u8>) {
    (r.status, r.content_type@, r.body@)
}

/// The HTTP response for a call's result.
pub fn http_response(result: Result<OwnedServiceResponse, ServiceError>) -> (r: HttpResponse)
    ensures
        http_parts(r) == spec_http_response(outcome_of(result)),
{
    match result {
        Ok(response) => HttpResponse {
            status: response.status,
            content_type: content_type_name(response.content_type),
            body: response.body,
        },
        Err(err) => HttpResponse {
            status: err.status().as_u16(),
            content_type: content_type_name(ContentType::Text),
            body: vstd::slice::slice_to_vec(err.message().as_bytes()),
        },
    }
}

/// Calls the backend and answers with the HTTP response for the outcome.
pub fn call_backend<B: ServiceClient>(backend: &mut B, method: ServiceMethod, route: &str, payload: &[u8]) -> (r:
    HttpResponse)
    requires
        route.spec_bytes().len() + payload@.len() + 16 <= usize::MAX,
    ensures
        http_parts(r) == spec_http_response(old(backend).spec_call(method, route.spec_bytes(), payload@)),
{
    http_response(backend.call(method, route, payload))
}

/// The response bytes a dispatch leaves for a successful reply.
pub open spec fn reply_bytes(reply: crate::service::ServiceReply, body: Seq<u8>) -> Seq<u8> {
    response_wire(reply.status, reply.content_type, Seq::empty()).subrange(0, 6) + crate::bytes::le16(
        reply.body_len as nat,
    ) + body
}

proof fn lemma_dispatch_ok<H: ServiceHandler>(
    handler: H,
    response_buffer_size: usize,
    method: ServiceMethod,
    route: Seq<u8>,
    payload: Seq<u8>,
)
    requires
        valid_utf8(route),
        route.len() <= u16::MAX,
        payload.len() <= u16::MAX,
        response_buffer_size >= 8,
        ({
            let (res, body) = handler.spec_handle(method, route, payload, zeroes((response_buffer_size - 8) as nat));
            res matches Ok(reply) && reply.body_len <= response_buffer_size - 8 && reply.body_len <= u16::MAX
        }),
    ensures
        ({
            let (res, body) = handler.spec_handle(method, route, payload, zeroes((response_buffer_size - 8) as nat));
            res matches Ok(reply) && spec_dispatch(
                handler,
                request_wire(method, route, payload),
                zeroes(response_buffer_size as nat),
            ) == (Ok::<usize, ServiceError>((8 + reply.body_len) as usize), reply_bytes(reply, body))
        }),
{
    lemma_request_roundtrip(method, route, payload);
    let zs = zeroes(response_buffer_size as nat);
    assert(zs.subrange(8, zs.len() as int) =~= zeroes((response_buffer_size - 8) as nat));
}

proof fn lemma_reply_bytes_decode(reply: crate::service::ServiceReply, body: Seq<u8>)
    requires
        reply.body_len <= body.len(),
        reply.body_len <= u16::MAX,
    ensures
        spec_decode_response(reply_bytes(reply, body).take(8 + reply.body_len)) == Ok::<
            (crate::service::ServiceStatus, ContentType, Seq<u8>),
            ServiceError,
        >((reply.status, reply.content_type, body.take(reply.body_len as int))),
{
    let n = reply.body_len as int;
    assert(reply_bytes(reply, body).take(8 + n) =~= response_wire(reply.status, reply.content_type, body.take(n)));
    lemma_response_roundtrip(reply.status, reply.content_type, body.take(n));
}

/// A local call hands the handler exactly the request it was given, and
/// answers with exactly the reply the handler wrote: its status, its content
/// type and the first `body_len` bytes it wrote.
pub proof fn lemma_local_call_returns_handler_reply<H: ServiceHandler>(
    handler: H,
    response_buffer_size: usize,
    method: ServiceMethod,
    route: Seq<u8>,
    payload: Seq<u8>,
)
    requires
        valid_utf8(route),
        route.len() <= u16::MAX,
        payload.len() <= u16::MAX,
        response_buffer_size >= 8,
        ({
            let (res, body) = handler.spec_handle(method, route, payload, zeroes((response_buffer_size - 8) as nat));
            &&& body.len() == response_buffer_size - 8
            &&& res matches Ok(reply) && reply.body_len <= response_buffer_size - 8 && reply.body_len <= u16::MAX
        }),
    ensures
        ({
            let (res, body) = handler.spec_handle(method, route, payload, zeroes((response_buffer_size - 8) as nat));
            res matches Ok(reply) && spec_local_call(handler, response_buffer_size, method, route, payload) == Ok::<
                (u16, ContentType, Seq<u8>),
                ServiceError,
            >((reply.status.0, reply.content_type, body.take(reply.body_len as int)))
        }),
{
    lemma_dispatch_ok(handler, response_buffer_size, method, route, payload);
    let (res, body) = handler.spec_handle(method, route, payload, zeroes((response_buffer_size - 8) as nat));
    if let Ok(reply) = res {
        lemma_reply_bytes_decode(reply, body);
    }
}

/// Whether `data` is a well-formed response envelope with status 200.
pub fn is_ok_service_response(data: &[u8]) -> (r: bool)
    ensures
        r == (spec_decode_response(data@) matches Ok((status, _, _)) && status.0 == 200),
{
    match decode_response(data) {
        Ok(response) => response.status.as_u16() == 200,
        Err(_) => false,
    }
}

} // verus!
