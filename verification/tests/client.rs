use microfips::client::{
    call_backend, content_type_name, http_response, is_ok_service_response, LocalServiceClient,
    OwnedServiceResponse, ServiceClient,
};
use microfips::service::{encode_response, ServiceStatus};
use microfips::demo::DemoService;
use microfips::service::{ContentType, ServiceError, ServiceMethod};

fn demo_client() -> LocalServiceClient<DemoService> {
    LocalServiceClient::new(DemoService::new(), 2048, 4096)
}

#[test]
fn get_health_route_works() {
    let mut backend = demo_client();
    let response = call_backend(&mut backend, ServiceMethod::Get, "/health", b"");
    assert_eq!(response.status, 200);
    assert_eq!(response.content_type, "application/json");
    assert!(String::from_utf8(response.body).unwrap().contains("\"ok\":true"));
}

#[test]
fn post_rpc_route_reaches_service_layer() {
    let mut backend = demo_client();
    let response = call_backend(&mut backend, ServiceMethod::Post, "/rpc/ping", b"");
    assert_eq!(response.status, 200);
    assert!(String::from_utf8(response.body).unwrap().contains("\"pong\""));
}

#[test]
fn local_call_decodes_echo() {
    let mut client = demo_client();
    let reply = client.call(ServiceMethod::Post, "/echo", b"hello").unwrap();
    assert_eq!(reply.status, 200);
    assert_eq!(reply.content_type, ContentType::Binary);
    assert_eq!(reply.body, b"hello".to_vec());
}

#[test]
fn unknown_route_answers_not_found_as_text() {
    let mut backend = demo_client();
    let response = call_backend(&mut backend, ServiceMethod::Get, "/nope", b"");
    assert_eq!(response.status, 404);
    assert_eq!(response.content_type, "text/plain; charset=utf-8");
}

#[test]
fn tiny_response_buffer_is_reported_as_too_large() {
    let mut client = LocalServiceClient::new(DemoService::new(), 16, 4);
    let err = client.call(ServiceMethod::Get, "/health", b"").err().unwrap();
    assert_eq!(err, ServiceError::BufferTooSmall);
    let response = http_response(Err(err));
    assert_eq!(response.status, 413);
    assert_eq!(response.body, b"response buffer too small".to_vec());
}

#[test]
fn content_type_names() {
    assert_eq!(content_type_name(ContentType::Binary), "application/octet-stream");
    assert_eq!(content_type_name(ContentType::Json), "application/json");
    assert_eq!(content_type_name(ContentType::Text), "text/plain; charset=utf-8");
}

#[test]
fn http_response_keeps_decoded_reply() {
    let response = http_response(Ok(OwnedServiceResponse {
        status: 201,
        content_type: ContentType::Json,
        body: b"{}".to_vec(),
    }));
    assert_eq!(response.status, 201);
    assert_eq!(response.content_type, "application/json");
    assert_eq!(response.body, b"{}".to_vec());
}

#[test]
fn ok_response_detection() {
    let mut buf = [0u8; 64];
    let n = encode_response(ServiceStatus::ok(), ContentType::Json, b"{}", &mut buf).unwrap();
    assert!(is_ok_service_response(&buf[..n]));
    let n = encode_response(ServiceStatus::not_found(), ContentType::Text, b"x", &mut buf).unwrap();
    assert!(!is_ok_service_response(&buf[..n]));
    assert!(!is_ok_service_response(&buf[..3]));
}
