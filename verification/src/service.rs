//! Transport-neutral request/response service layer.
//!
//! A request travels as an 8-byte envelope header followed by the route and
//! the payload; a response as an 8-byte header followed by the body. All
//! multi-byte header fields are little-endian.

use vstd::prelude::*;
use vstd::string::StringSliceAdditionalSpecFns;
use vstd::utf8::*;

use crate::bytes::{bytes_eq, bytes_starts_with, le16, le16_value, write_bytes, write_le16};

verus! {

broadcast use vstd::utf8::encode_utf8_valid_utf8;

pub const SERVICE_VERSION: u8 = 1;
pub const SERVICE_KIND_REQUEST: u8 = 1;
pub const SERVICE_KIND_RESPONSE: u8 = 2;
pub const SERVICE_REQUEST_HEADER_LEN: usize = 8;
pub const SERVICE_RESPONSE_HEADER_LEN: usize = 8;

/// HTTP-like methods for service requests.
#[derive(Debug, Clone, Copy, PartialEq, Eq, Structural)]
pub enum ServiceMethod {
    Get,
    Post,
    Put,
    Delete,
}

impl ServiceMethod {
    /// Wire code of the method.
    pub open spec fn code(self) -> u8 {
        match self {
            ServiceMethod::Get => 1,
            ServiceMethod::Post => 2,
            ServiceMethod::Put => 3,
            ServiceMethod::Delete => 4,
        }
    }

    /// The method whose wire code is `value`, if any.
    pub open spec fn spec_from_u8(value: u8) -> Option<ServiceMethod> {
        if value == 1 {
            Some(ServiceMethod::Get)
        } else if value == 2 {
            Some(ServiceMethod::Post)
        } else if value == 3 {
            Some(ServiceMethod::Put)
        } else if value == 4 {
            Some(ServiceMethod::Delete)
        } else {
            None
        }
    }

    pub fn from_u8(value: u8) -> (r: Option<ServiceMethod>)
        ensures
            r == Self::spec_from_u8(value),
    {
        match value {
            1 => Some(ServiceMethod::Get),
            2 => Some(ServiceMethod::Post),
            3 => Some(ServiceMethod::Put),
            4 => Some(ServiceMethod::Delete),
            _ => None,
        }
    }

    pub fn as_u8(self) -> (r: u8)
        ensures
            r == self.code(),
    {
        match self {
            ServiceMethod::Get => 1,
            ServiceMethod::Post => 2,
            ServiceMethod::Put => 3,
            ServiceMethod::Delete => 4,
        }
    }
}

/// Content types for service request/response payloads.
#[derive(Debug, Clone, Copy, PartialEq, Eq, Structural)]
pub enum ContentType {
    Binary,
    Json,
    Text,
}

impl ContentType {
    /// Wire code of the content type.
    pub open spec fn code(self) -> u8 {
        match self {
            ContentType::Binary => 0,
            ContentType::Json => 1,
            ContentType::Text => 2,
        }
    }

    pub open spec fn spec_from_u8(value: u8) -> Option<ContentType> {
        if value == 0 {
            Some(ContentType::Binary)
        } else if value == 1 {
            Some(ContentType::Json)
        } else if value == 2 {
            Some(ContentType::Text)
        } else {
            None
        }
    }

    pub fn from_u8(value: u8) -> (r: Option<ContentType>)
        ensures
            r == Self::spec_from_u8(value),
    {
        match value {
            0 => Some(ContentType::Binary),
            1 => Some(ContentType::Json),
            2 => Some(ContentType::Text),
            _ => None,
        }
    }

    pub fn as_u8(self) -> (r: u8)
        ensures
            r == self.code(),
    {
        match self {
            ContentType::Binary => 0,
            ContentType::Json => 1,
            ContentType::Text => 2,
        }
    }
}

/// HTTP-like status codes for service responses.
#[derive(Debug, Clone, Copy, PartialEq, Eq, Structural)]
pub struct ServiceStatus(pub u16);

impl ServiceStatus {
    /// 200 OK.
    pub fn ok() -> (r: ServiceStatus)
        ensures
            r.0 == 200,
    {
        ServiceStatus(200)
    }

    /// 201 Created.
    pub fn created() -> (r: ServiceStatus)
        ensures
            r.0 == 201,
    {
        ServiceStatus(201)
    }

    /// 400 Bad Request.
    pub fn bad_request() -> (r: ServiceStatus)
        ensures
            r.0 == 400,
    {
        ServiceStatus(400)
    }

    /// 404 Not Found.
    pub fn not_found() -> (r: ServiceStatus)
        ensures
            r.0 == 404,
    {
        ServiceStatus(404)
    }

    /// 405 Method Not Allowed.
    pub fn method_not_allowed() -> (r: ServiceStatus)
        ensures
            r.0 == 405,
    {
        ServiceStatus(405)
    }

    /// 413 Payload Too Large.
    pub fn payload_too_large() -> (r: ServiceStatus)
        ensures
            r.0 == 413,
    {
        ServiceStatus(413)
    }

    /// 500 Internal Error.
    pub fn internal_error() -> (r: ServiceStatus)
        ensures
            r.0 == 500,
    {
        ServiceStatus(500)
    }

    pub fn as_u16(self) -> (r: u16)
        ensures
            r == self.0,
    {
        self.0
    }
}

/// A service request containing method, route, and payload.
#[derive(Debug, Clone, Copy, PartialEq, Eq)]
pub struct ServiceRequest<'a> {
    pub method: ServiceMethod,
    pub route: &'a str,
    pub payload: &'a [u8],
}

/// A service response containing status, content type, and body.
#[derive(Debug, Clone, Copy, PartialEq, Eq)]
pub struct ServiceResponse<'a> {
    pub status: ServiceStatus,
    pub content_type: ContentType,
    pub body: &'a [u8],
}

/// Handler return value with status, content type, and body length.
#[derive(Debug, Clone, Copy, PartialEq, Eq, Structural)]
pub struct ServiceReply {
    pub status: ServiceStatus,
    pub content_type: ContentType,
    pub body_len: usize,
}

/// Errors that can occur during service request handling.
#[derive(Debug, Clone, Copy, PartialEq, Eq, Structural)]
pub enum ServiceError {
    BufferTooSmall,
    InvalidEnvelope,
    InvalidVersion,
    InvalidKind,
    InvalidMethod,
    InvalidUtf8,
    NotFound,
    MethodNotAllowed,
}

impl ServiceError {
    /// The status a response reporting this error carries.
    pub open spec fn spec_status(self) -> ServiceStatus {
        match self {
            ServiceError::BufferTooSmall => ServiceStatus(413),
            ServiceError::InvalidEnvelope => ServiceStatus(400),
            ServiceError::InvalidVersion => ServiceStatus(400),
            ServiceError::InvalidKind => ServiceStatus(400),
            ServiceError::InvalidMethod => ServiceStatus(400),
            ServiceError::InvalidUtf8 => ServiceStatus(400),
            ServiceError::NotFound => ServiceStatus(404),
            ServiceError::MethodNotAllowed => ServiceStatus(405),
        }
    }

    /// The human-readable text that describes this error.
    pub open spec fn message_text(self) -> &'static str {
        match self {
            ServiceError::BufferTooSmall => "response buffer too small",
            ServiceError::InvalidEnvelope => "invalid service envelope",
            ServiceError::InvalidVersion => "unsupported service envelope version",
            ServiceError::InvalidKind => "unexpected service envelope kind",
            ServiceError::InvalidMethod => "invalid service method",
            ServiceError::InvalidUtf8 => "route is not valid utf-8",
            ServiceError::NotFound => "route not found",
            ServiceError::MethodNotAllowed => "method not allowed",
        }
    }

    pub fn status(self) -> (r: ServiceStatus)
        ensures
            r == self.spec_status(),
    {
        match self {
            ServiceError::BufferTooSmall => ServiceStatus::payload_too_large(),
            ServiceError::InvalidEnvelope
            | ServiceError::InvalidVersion
            | ServiceError::InvalidKind
            | ServiceError::InvalidMethod
            | ServiceError::InvalidUtf8 => ServiceStatus::bad_request(),
            ServiceError::NotFound => ServiceStatus::not_found(),
            ServiceError::MethodNotAllowed => ServiceStatus::method_not_allowed(),
        }
    }

    pub fn message(self) -> (r: &'static str)
        ensures
            r@ == self.message_text()@,
    {
        match self {
            ServiceError::BufferTooSmall => "response buffer too small",
            ServiceError::InvalidEnvelope => "invalid service envelope",
            ServiceError::InvalidVersion => "unsupported service envelope version",
            ServiceError::InvalidKind => "unexpected service envelope kind",
            ServiceError::InvalidMethod => "invalid service method",
            ServiceError::InvalidUtf8 => "route is not valid utf-8",
            ServiceError::NotFound => "route not found",
            ServiceError::MethodNotAllowed => "method not allowed",
        }
    }
}

/// Every error is reported with a client-error status (4xx).
pub proof fn lemma_error_status_is_client_error(e: ServiceError)
    ensures
        400 <= e.spec_status().0 < 500,
{
}

/// The bytes of a request envelope.
pub open spec fn request_wire(method: ServiceMethod, route: Seq<u8>, payload: Seq<u8>) -> Seq<u8> {
    request_header(method, route.len(), payload.len()) + route + payload
}

/// The 8-byte header of a request envelope.
pub open spec fn request_header(method: ServiceMethod, route_len: nat, payload_len: nat) -> Seq<u8> {
    seq![SERVICE_VERSION, SERVICE_KIND_REQUEST, method.code(), 0u8] + le16(route_len) + le16(
        payload_len,
    )
}

/// The bytes of a response envelope.
pub open spec fn response_wire(status: ServiceStatus, content_type: ContentType, body: Seq<u8>) -> Seq<
    u8,
> {
    seq![SERVICE_VERSION, SERVICE_KIND_RESPONSE] + le16(status.0 as nat) + seq![
        content_type.code(),
        0u8,
    ] + le16(body.len()) + body
}

/// Route length announced by a request header.
pub open spec fn header_route_len(data: Seq<u8>) -> nat {
    le16_value(data[4], data[5])
}

/// Payload length announced by a request header.
pub open spec fn header_payload_len(data: Seq<u8>) -> nat {
    le16_value(data[6], data[7])
}

/// What a request envelope decodes to: method, route bytes and payload.
pub open spec fn spec_decode_request(data: Seq<u8>) -> Result<
    (ServiceMethod, Seq<u8>, Seq<u8>),
    ServiceError,
> {
    if data.len() < 8 {
        Err(ServiceError::InvalidEnvelope)
    } else if data[0] != SERVICE_VERSION {
        Err(ServiceError::InvalidVersion)
    } else if data[1] != SERVICE_KIND_REQUEST {
        Err(ServiceError::InvalidKind)
    } else {
        match ServiceMethod::spec_from_u8(data[2]) {
            None => Err(ServiceError::InvalidMethod),
            Some(method) => {
                let rl = header_route_len(data);
                let pl = header_payload_len(data);
                if data.len() < 8 + rl + pl {
                    Err(ServiceError::InvalidEnvelope)
                } else if !valid_utf8(data.subrange(8, 8 + rl as int)) {
                    Err(ServiceError::InvalidUtf8)
                } else {
                    Ok((method, data.subrange(8, 8 + rl as int), data.subrange(8 + rl as int, 8 + rl + pl as int)))
                }
            },
        }
    }
}

/// What a response envelope decodes to: status, content type and body.
pub open spec fn spec_decode_response(data: Seq<u8>) -> Result<
    (ServiceStatus, ContentType, Seq<u8>),
    ServiceError,
> {
    if data.len() < 8 {
        Err(ServiceError::InvalidEnvelope)
    } else if data[0] != SERVICE_VERSION {
        Err(ServiceError::InvalidVersion)
    } else if data[1] != SERVICE_KIND_RESPONSE {
        Err(ServiceError::InvalidKind)
    } else {
        match ContentType::spec_from_u8(data[4]) {
            None => Err(ServiceError::InvalidEnvelope),
            Some(ct) => {
                let bl = le16_value(data[6], data[7]);
                if data.len() < 8 + bl {
                    Err(ServiceError::InvalidEnvelope)
                } else {
                    Ok((ServiceStatus(le16_value(data[2], data[3]) as u16), ct, data.subrange(8, 8 + bl as int)))
                }
            },
        }
    }
}

/// Whether a decoded request matches what the spec decoder yields.
pub open spec fn request_is(req: ServiceRequest, m: ServiceMethod, route: Seq<u8>, payload: Seq<u8>) -> bool {
    &&& req.method == m
    &&& req.route.spec_bytes() == route
    &&& req.payload@ == payload
}

/// A buffer after `bytes` were written at its front, the rest untouched.
pub open spec fn written_front(old_buf: Seq<u8>, bytes: Seq<u8>) -> Seq<u8> {
    bytes + old_buf.subrange(bytes.len() as int, old_buf.len() as int)
}

/// Encodes a service request into the wire format.
pub fn encode_request(method: ServiceMethod, route: &str, payload: &[u8], out: &mut [u8]) -> (r: Result<
    usize,
    ServiceError,
>)
    ensures
        final(out)@.len() == old(out)@.len(),
        ({
            let rb = route.spec_bytes();
            let total = 8 + rb.len() + payload@.len();
            if old(out)@.len() < total || rb.len() > u16::MAX || payload@.len() > u16::MAX {
                r == Err::<usize, ServiceError>(ServiceError::BufferTooSmall) && final(out)@ == old(out)@
            } else {
                &&& r == Ok::<usize, ServiceError>(total as usize)
                &&& final(out)@ == written_front(old(out)@, request_wire(method, rb, payload@))
            }
        }),
{
    let route_bytes = route.as_bytes();
    let rl = route_bytes.len();
    let pl = payload.len();
    if rl > 65535 || pl > 65535 {
        return Err(ServiceError::BufferTooSmall);
    }
    let total = SERVICE_REQUEST_HEADER_LEN + rl + pl;
    if out.len() < total {
        return Err(ServiceError::BufferTooSmall);
    }
    let ghost orig = out@;
    write_request_header(out, method, rl, pl);
    let ghost after_header = out@;
    write_bytes(out, SERVICE_REQUEST_HEADER_LEN, route_bytes);
    let ghost after_route = out@;
    assert(after_route =~= request_header(method, rl as nat, pl as nat) + route_bytes@ + orig.subrange(
        8 + rl as int,
        orig.len() as int,
    ));
    write_bytes(out, SERVICE_REQUEST_HEADER_LEN + rl, payload);
    assert(out@ =~= written_front(orig, request_wire(method, route_bytes@, payload@)));
    Ok(total)
}

/// Writes the 8-byte request header at the front of `out`.
fn write_request_header(out: &mut [u8], method: ServiceMethod, route_len: usize, payload_len: usize)
    requires
        old(out)@.len() >= 8,
        route_len <= u16::MAX,
        payload_len <= u16::MAX,
    ensures
        final(out)@ == request_header(method, route_len as nat, payload_len as nat) + old(
            out,
        )@.subrange(8, old(out)@.len() as int),
{
    let ghost orig = out@;
    out[0] = SERVICE_VERSION;
    out[1] = SERVICE_KIND_REQUEST;
    out[2] = method.as_u8();
    out[3] = 0;
    write_le16(out, 4, route_len as u16);
    write_le16(out, 6, payload_len as u16);
    assert(out@ =~= request_header(method, route_len as nat, payload_len as nat) + orig.subrange(
        8,
        orig.len() as int,
    ));
}

/// Decodes a service request from wire format bytes.
pub fn decode_request(data: &[u8]) -> (r: Result<ServiceRequest<'_>, ServiceError>)
    ensures
        match spec_decode_request(data@) {
            Ok((m, route, payload)) => r matches Ok(req) && request_is(req, m, route, payload),
            Err(e) => r == Err::<ServiceRequest, ServiceError>(e),
        },
{
    if data.len() < SERVICE_REQUEST_HEADER_LEN {
        return Err(ServiceError::InvalidEnvelope);
    }
    if data[0] != SERVICE_VERSION {
        return Err(ServiceError::InvalidVersion);
    }
    if data[1] != SERVICE_KIND_REQUEST {
        return Err(ServiceError::InvalidKind);
    }
    let method = match ServiceMethod::from_u8(data[2]) {
        Some(m) => m,
        None => return Err(ServiceError::InvalidMethod),
    };
    let route_len = (data[4] as usize) + (data[5] as usize) * 256;
    let payload_len = (data[6] as usize) + (data[7] as usize) * 256;
    let total = SERVICE_REQUEST_HEADER_LEN + route_len + payload_len;
    if data.len() < total {
        return Err(ServiceError::InvalidEnvelope);
    }
    let route_bytes = &data[SERVICE_REQUEST_HEADER_LEN..SERVICE_REQUEST_HEADER_LEN + route_len];
    let route = match crate::text::utf8_str(route_bytes) {
        Some(s) => s,
        None => return Err(ServiceError::InvalidUtf8),
    };
    let payload = &data[SERVICE_REQUEST_HEADER_LEN + route_len..total];
    Ok(ServiceRequest { method, route, payload })
}

/// Encodes a service response into the wire format.
pub fn encode_response(status: ServiceStatus, content_type: ContentType, body: &[u8], out: &mut [u8]) -> (r:
    Result<usize, ServiceError>)
    ensures
        final(out)@.len() == old(out)@.len(),
        ({
            let total = 8 + body@.len();
            if old(out)@.len() < total || body@.len() > u16::MAX {
                r == Err::<usize, ServiceError>(ServiceError::BufferTooSmall) && final(out)@ == old(out)@
            } else {
                &&& r == Ok::<usize, ServiceError>(total as usize)
                &&& final(out)@ == written_front(old(out)@, response_wire(status, content_type, body@))
            }
        }),
{
    let bl = body.len();
    if bl > 65535 {
        return Err(ServiceError::BufferTooSmall);
    }
    let total = SERVICE_RESPONSE_HEADER_LEN + bl;
    if out.len() < total {
        return Err(ServiceError::BufferTooSmall);
    }
    let ghost orig = out@;
    write_response_header(out, status, content_type, bl);
    write_bytes(out, SERVICE_RESPONSE_HEADER_LEN, body);
    assert(out@ =~= written_front(orig, response_wire(status, content_type, body@)));
    Ok(total)
}

/// Writes the 8-byte response header at the front of `out`.
fn write_response_header(out: &mut [u8], status: ServiceStatus, content_type: ContentType, body_len: usize)
    requires
        old(out)@.len() >= 8,
        body_len <= u16::MAX,
    ensures
        final(out)@ == response_wire(status, content_type, Seq::empty()).subrange(0, 6) + le16(
            body_len as nat,
        ) + old(out)@.subrange(8, old(out)@.len() as int),
{
    let ghost orig = out@;
    out[0] = SERVICE_VERSION;
    out[1] = SERVICE_KIND_RESPONSE;
    write_le16(out, 2, status.as_u16());
    out[4] = content_type.as_u8();
    out[5] = 0;
    write_le16(out, 6, body_len as u16);
    assert(out@ =~= response_wire(status, content_type, Seq::empty()).subrange(0, 6) + le16(
        body_len as nat,
    ) + orig.subrange(8, orig.len() as int));
}

/// Decodes a service response from wire format bytes.
pub fn decode_response(data: &[u8]) -> (r: Result<ServiceResponse<'_>, ServiceError>)
    ensures
        match spec_decode_response(data@) {
            Ok((status, ct, body)) => r matches Ok(resp) && resp.status == status
                && resp.content_type == ct && resp.body@ == body,
            Err(e) => r == Err::<ServiceResponse, ServiceError>(e),
        },
{
    if data.len() < SERVICE_RESPONSE_HEADER_LEN {
        return Err(ServiceError::InvalidEnvelope);
    }
    if data[0] != SERVICE_VERSION {
        return Err(ServiceError::InvalidVersion);
    }
    if data[1] != SERVICE_KIND_RESPONSE {
        return Err(ServiceError::InvalidKind);
    }
    let status = ServiceStatus(((data[2] as u32) + (data[3] as u32) * 256) as u16);
    let content_type = match ContentType::from_u8(data[4]) {
        Some(ct) => ct,
        None => return Err(ServiceError::InvalidEnvelope),
    };
    let body_len = (data[6] as usize) + (data[7] as usize) * 256;
    let total = SERVICE_RESPONSE_HEADER_LEN + body_len;
    if data.len() < total {
        return Err(ServiceError::InvalidEnvelope);
    }
    Ok(ServiceResponse { status, content_type, body: &data[SERVICE_RESPONSE_HEADER_LEN..total] })
}

/// Decoding an encoded request gives back its method, route and payload.
pub proof fn lemma_request_roundtrip(method: ServiceMethod, route: Seq<u8>, payload: Seq<u8>)
    requires
        valid_utf8(route),
        route.len() <= u16::MAX,
        payload.len() <= u16::MAX,
    ensures
        spec_decode_request(request_wire(method, route, payload)) == Ok::<
            (ServiceMethod, Seq<u8>, Seq<u8>),
            ServiceError,
        >((method, route, payload)),
{
    let w = request_wire(method, route, payload);
    crate::bytes::lemma_le16_roundtrip(route.len());
    crate::bytes::lemma_le16_roundtrip(payload.len());
    assert(w.subrange(8, 8 + route.len() as int) =~= route);
    assert(w.subrange(8 + route.len() as int, 8 + route.len() + payload.len() as int) =~= payload);
}

/// Decoding an encoded response gives back its status, content type and body.
pub proof fn lemma_response_roundtrip(status: ServiceStatus, content_type: ContentType, body: Seq<u8>)
    requires
        body.len() <= u16::MAX,
    ensures
        spec_decode_response(response_wire(status, content_type, body)) == Ok::<
            (ServiceStatus, ContentType, Seq<u8>),
            ServiceError,
        >((status, content_type, body)),
{
    let w = response_wire(status, content_type, body);
    crate::bytes::lemma_le16_roundtrip(status.0 as nat);
    crate::bytes::lemma_le16_roundtrip(body.len());
    assert(w.subrange(8, 8 + body.len() as int) =~= body);
}

/// The exact outcome of handing a request to a handler: the result, and the
/// bytes of the response buffer afterwards.
pub type HandleOutcome = (Result<ServiceReply, ServiceError>, Seq<u8>);

/// Trait for handling service requests and producing responses.
///
/// `spec_handle` states, for the handler's state, the request (method, route
/// bytes, payload) and the response buffer before the call, what `handle`
/// returns and what the buffer holds after it.
pub trait ServiceHandler {
    closed spec fn spec_handle(
        &self,
        method: ServiceMethod,
        route: Seq<u8>,
        payload: Seq<u8>,
        response: Seq<u8>,
    ) -> HandleOutcome {
        arbitrary()
    }

    /// Handles a service request and writes the response to the provided buffer.
    fn handle(&mut self, request: ServiceRequest<'_>, response: &mut [u8]) -> (r: Result<
        ServiceReply,
        ServiceError,
    >)
        ensures
            final(response)@.len() == old(response)@.len(),
            (r, final(response)@) == old(self).spec_handle(
                request.method,
                request.route.spec_bytes(),
                request.payload@,
                old(response)@,
            ),
    ;
}

/// What `dispatch_request` returns for a request envelope and a response buffer,
/// given what the handler does with the decoded request.
pub open spec fn spec_dispatch<H: ServiceHandler>(handler: H, request: Seq<u8>, response: Seq<u8>) -> (
    Result<usize, ServiceError>,
    Seq<u8>,
) {
    match spec_decode_request(request) {
        Err(e) => (Err(e), response),
        Ok((m, route, payload)) => if response.len() < 8 {
            (Err(ServiceError::BufferTooSmall), response)
        } else {
            let body_buf = response.subrange(8, response.len() as int);
            let (res, body_after) = handler.spec_handle(m, route, payload, body_buf);
            match res {
                Ok(reply) => if reply.body_len > body_buf.len() || reply.body_len > u16::MAX {
                    (Err(ServiceError::BufferTooSmall), response.subrange(0, 8) + body_after)
                } else {
                    (
                        Ok((8 + reply.body_len) as usize),
                        response_wire(reply.status, reply.content_type, Seq::empty()).subrange(0, 6)
                            + le16(reply.body_len as nat) + body_after,
                    )
                },
                Err(err) => {
                    let msg = err.message_text().spec_bytes();
                    if response.len() < 8 + msg.len() || msg.len() > u16::MAX {
                        (Err(ServiceError::BufferTooSmall), response.subrange(0, 8) + body_after)
                    } else {
                        (
                            Ok((8 + msg.len()) as usize),
                            written_front(
                                response.subrange(0, 8) + body_after,
                                response_wire(err.spec_status(), ContentType::Text, msg),
                            ),
                        )
                    }
                },
            }
        },
    }
}

/// Decodes a request, dispatches it to a handler, and encodes the response.
pub fn dispatch_request<H: ServiceHandler>(
    handler: &mut H,
    request_bytes: &[u8],
    response_bytes: &mut [u8],
) -> (r: Result<usize, ServiceError>)
    ensures
        final(response_bytes)@.len() == old(response_bytes)@.len(),
        (r, final(response_bytes)@) == spec_dispatch(*old(handler), request_bytes@, old(response_bytes)@),
{
    let request = match decode_request(request_bytes) {
        Ok(req) => req,
        Err(e) => return Err(e),
    };
    if response_bytes.len() < SERVICE_RESPONSE_HEADER_LEN {
        return Err(ServiceError::BufferTooSmall);
    }
    let ghost orig = response_bytes@;
    let (header_buf, body_buf) = response_bytes.split_at_mut(SERVICE_RESPONSE_HEADER_LEN);
    let ghost header_orig = header_buf@;
    let ghost body_orig = body_buf@;
    let res = handler.handle(request, body_buf);
    let ghost body_after = body_buf@;
    match res {
        Ok(reply) => {
            if reply.body_len > body_buf.len() || reply.body_len > 65535 {
                proof {
                    assert(header_buf@ == orig.subrange(0, 8));
                }
                return Err(ServiceError::BufferTooSmall);
            }
            header_buf[0] = SERVICE_VERSION;
            header_buf[1] = SERVICE_KIND_RESPONSE;
            write_le16(header_buf, 2, reply.status.as_u16());
            header_buf[4] = reply.content_type.as_u8();
            header_buf[5] = 0;
            write_le16(header_buf, 6, reply.body_len as u16);
            assert(header_buf@ =~= response_wire(reply.status, reply.content_type, Seq::empty()).subrange(
                0,
                6,
            ) + le16(reply.body_len as nat));
            Ok(SERVICE_RESPONSE_HEADER_LEN + reply.body_len)
        },
        Err(err) => {
            proof {
                assert(header_buf@ == orig.subrange(0, 8));
            }
            encode_error_response(err, response_bytes)
        },
    }
}

/// Encodes the text response that reports `err`.
fn encode_error_response(err: ServiceError, out: &mut [u8]) -> (r: Result<usize, ServiceError>)
    ensures
        final(out)@.len() == old(out)@.len(),
        ({
            let msg = err.message_text().spec_bytes();
            if old(out)@.len() < 8 + msg.len() || msg.len() > u16::MAX {
                r == Err::<usize, ServiceError>(ServiceError::BufferTooSmall) && final(out)@ == old(out)@
            } else {
                &&& r == Ok::<usize, ServiceError>((8 + msg.len()) as usize)
                &&& final(out)@ == written_front(
                    old(out)@,
                    response_wire(err.spec_status(), ContentType::Text, msg),
                )
            }
        }),
{
    let msg = err.message().as_bytes();
    encode_response(err.status(), ContentType::Text, msg, out)
}

/// Extracts the suffix of a route after a given prefix.
pub fn route_suffix<'a>(route: &'a str, prefix: &str) -> (r: Option<&'a str>)
    ensures
        r is Some <==> prefix.spec_bytes().is_prefix_of(route.spec_bytes()),
        r matches Some(s) ==> s.spec_bytes() == route.spec_bytes().subrange(
            prefix.spec_bytes().len() as int,
            route.spec_bytes().len() as int,
        ),
{
    crate::text::str_strip_prefix(route, prefix)
}

} // verus!
