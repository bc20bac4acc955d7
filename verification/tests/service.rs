use microfips::demo::DemoService;
use microfips::router::{Route, RouteHandler, RouteMatch, Router};
use microfips::service::{
    decode_request, decode_response, dispatch_request, encode_request, encode_response,
    route_suffix, ContentType, ServiceError, ServiceHandler, ServiceMethod, ServiceReply,
    ServiceRequest, ServiceStatus,
};

#[derive(Clone, Copy, Debug)]
enum TestEndpoint {
    Health,
    Prefix,
}

fn health_handler(
    _request: ServiceRequest<'_>,
    response: &mut [u8],
) -> Result<ServiceReply, ServiceError> {
    let body = br#"{"ok":true}"#;
    response[..body.len()].copy_from_slice(body);
    Ok(ServiceReply {
        status: ServiceStatus::ok(),
        content_type: ContentType::Json,
        body_len: body.len(),
    })
}

fn prefix_handler(
    request: ServiceRequest<'_>,
    response: &mut [u8],
) -> Result<ServiceReply, ServiceError> {
    let suffix = route_suffix(request.route, "/rpc/").unwrap_or("");
    response[..suffix.len()].copy_from_slice(suffix.as_bytes());
    Ok(ServiceReply {
        status: ServiceStatus::ok(),
        content_type: ContentType::Text,
        body_len: suffix.len(),
    })
}

impl RouteHandler for TestEndpoint {
    fn call(
        &self,
        request: ServiceRequest<'_>,
        response: &mut [u8],
    ) -> Result<ServiceReply, ServiceError> {
        match self {
            TestEndpoint::Health => health_handler(request, response),
            TestEndpoint::Prefix => prefix_handler(request, response),
        }
    }
}

#[test]
fn request_round_trip() {
    let mut buf = [0u8; 128];
    let len = encode_request(ServiceMethod::Get, "/health", b"", &mut buf).unwrap();
    let req = decode_request(&buf[..len]).unwrap();
    assert_eq!(req.method, ServiceMethod::Get);
    assert_eq!(req.route, "/health");
    assert!(req.payload.is_empty());
}

#[test]
fn router_dispatches_exact_and_prefix_routes() {
    let routes = [
        Route {
            method: ServiceMethod::Get,
            matcher: RouteMatch::Exact("/health"),
            handler: TestEndpoint::Health,
        },
        Route {
            method: ServiceMethod::Post,
            matcher: RouteMatch::Prefix("/rpc/"),
            handler: TestEndpoint::Prefix,
        },
    ];
    let mut router = Router::new(&routes);
    let mut body = [0u8; 64];
    let reply = router
        .handle(
            ServiceRequest {
                method: ServiceMethod::Post,
                route: "/rpc/ping",
                payload: b"",
            },
            &mut body,
        )
        .unwrap();
    assert_eq!(reply.status, ServiceStatus::ok());
    assert_eq!(&body[..reply.body_len], b"ping");
}

#[test]
fn dispatch_writes_error_response() {
    let routes = [Route {
        method: ServiceMethod::Get,
        matcher: RouteMatch::Exact("/health"),
        handler: TestEndpoint::Health,
    }];
    let mut router = Router::new(&routes);
    let mut req = [0u8; 64];
    let req_len = encode_request(ServiceMethod::Get, "/missing", b"", &mut req).unwrap();
    let mut resp = [0u8; 128];
    let resp_len = dispatch_request(&mut router, &req[..req_len], &mut resp).unwrap();
    let decoded = decode_response(&resp[..resp_len]).unwrap();
    assert_eq!(decoded.status, ServiceStatus::not_found());
    assert_eq!(decoded.body, b"route not found");
}

#[test]
fn demo_service_supports_info_echo_and_ping() {
    let mut service = DemoService::new();
    let mut buf = [0u8; 256];

    let info = service
        .handle(
            ServiceRequest {
                method: ServiceMethod::Get,
                route: "/info",
                payload: b"",
            },
            &mut buf,
        )
        .unwrap();
    assert_eq!(info.status, ServiceStatus::ok());
    assert!(core::str::from_utf8(&buf[..info.body_len])
        .unwrap()
        .contains("microfips-http-demo"));

    let echo = service
        .handle(
            ServiceRequest {
                method: ServiceMethod::Post,
                route: "/echo",
                payload: b"hello",
            },
            &mut buf,
        )
        .unwrap();
    assert_eq!(&buf[..echo.body_len], b"hello");

    let ping = service
        .handle(
            ServiceRequest {
                method: ServiceMethod::Post,
                route: "/rpc/ping",
                payload: b"",
            },
            &mut buf,
        )
        .unwrap();
    assert_eq!(ping.status, ServiceStatus::ok());
    assert!(core::str::from_utf8(&buf[..ping.body_len])
        .unwrap()
        .contains("pong"));
}

#[test]
fn demo_service_returns_structured_not_found() {
    let mut service = DemoService::new();
    let mut buf = [0u8; 64];
    let err = service
        .handle(
            ServiceRequest {
                method: ServiceMethod::Get,
                route: "/missing",
                payload: b"",
            },
            &mut buf,
        )
        .unwrap_err();
    assert_eq!(err, ServiceError::NotFound);
    assert_eq!(err.status(), ServiceStatus::not_found());
}

#[test]
fn response_round_trip_keeps_status_type_and_body() {
    let mut buf = [0u8; 64];
    let len = encode_response(ServiceStatus(418), ContentType::Text, b"teapot", &mut buf).unwrap();
    assert_eq!(len, 14);
    assert_eq!(&buf[..8], &[1, 2, 0xa2, 0x01, 2, 0, 6, 0]);
    let resp = decode_response(&buf[..len]).unwrap();
    assert_eq!(resp.status, ServiceStatus(418));
    assert_eq!(resp.content_type, ContentType::Text);
    assert_eq!(resp.body, b"teapot");
}
