use hello_server::config::{build_config, ConfigError};
use hello_server::http::Method;
use hello_server::trace::{decimal_string, method_name, trace_message, TraceEvent};

fn addr() -> Option<String> {
    Some("127.0.0.1:3000".to_string())
}

fn backend() -> Option<String> {
    Some("http://localhost:3000".to_string())
}

fn frontend() -> Option<String> {
    Some("http://localhost:5173".to_string())
}

#[test]
fn config_with_all_values_succeeds() {
    let c = build_config(addr(), backend(), frontend()).unwrap();
    assert_eq!(c.service_addr, "127.0.0.1:3000");
    assert_eq!(c.backend_origin, "http://localhost:3000");
    assert_eq!(c.frontend_origin, "http://localhost:5173");
}

#[test]
fn missing_service_addr_is_fatal_first() {
    let r = build_config(None, backend(), frontend());
    assert!(matches!(r, Err(ConfigError::MissingServiceAddr)));
    // It is named even when the other values are missing too.
    let r = build_config(None, None, None);
    assert!(matches!(r, Err(ConfigError::MissingServiceAddr)));
}

#[test]
fn missing_backend_url_is_fatal() {
    let r = build_config(addr(), None, frontend());
    assert!(matches!(r, Err(ConfigError::MissingBackendUrl)));
}

#[test]
fn missing_frontend_url_is_fatal() {
    let r = build_config(addr(), backend(), None);
    assert!(matches!(r, Err(ConfigError::MissingFrontendUrl)));
}

#[test]
fn config_error_messages_name_the_variable() {
    assert_eq!(
        ConfigError::MissingServiceAddr.message(),
        "SERVICE_ADDR must be set."
    );
    assert_eq!(
        ConfigError::MissingBackendUrl.message(),
        "BACKEND_URL must be set."
    );
    assert_eq!(
        ConfigError::MissingFrontendUrl.message(),
        "FRONTEND_URL must be set."
    );
}

#[test]
fn decimal_rendering_is_exact() {
    assert_eq!(decimal_string(0), "0");
    assert_eq!(decimal_string(7), "7");
    assert_eq!(decimal_string(10), "10");
    assert_eq!(decimal_string(42), "42");
    assert_eq!(decimal_string(100), "100");
    assert_eq!(decimal_string(90210), "90210");
    assert_eq!(decimal_string(u64::MAX), "18446744073709551615");
}

#[test]
fn method_names_are_exact() {
    assert_eq!(method_name(Method::Get), "GET");
    assert_eq!(method_name(Method::Post), "POST");
    assert_eq!(method_name(Method::Options), "OPTIONS");
    assert_eq!(method_name(Method::Delete), "DELETE");
    assert_eq!(method_name(Method::Put), "PUT");
    assert_eq!(method_name(Method::Patch), "PATCH");
    assert_eq!(method_name(Method::Head), "HEAD");
}

#[test]
fn trace_messages_are_exact() {
    let started = TraceEvent::RequestStarted {
        method: Method::Get,
        path: "/foo".to_string(),
    };
    assert_eq!(trace_message(&started), "started GET /foo");
    let generated = TraceEvent::ResponseGenerated { elapsed_ms: 12 };
    assert_eq!(trace_message(&generated), "response generated in 12 ms");
    let chunk = TraceEvent::BodyChunk { bytes: 13 };
    assert_eq!(trace_message(&chunk), "sending 13 bytes");
    let closed = TraceEvent::StreamClosed { elapsed_ms: 250 };
    assert_eq!(trace_message(&closed), "stream closed after 250 ms");
    assert_eq!(trace_message(&TraceEvent::Failed), "something went wrong");
}
