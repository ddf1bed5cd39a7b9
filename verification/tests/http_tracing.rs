use service_kit::http_tracing::{OtelTracing, OtelTracingMiddleware, Outcome, TRACER_NAME};
use service_kit::span::SpanKind;

fn middleware() -> OtelTracingMiddleware<&'static str> {
    OtelTracing::new().new_transform("service")
}

fn response(status: u16) -> (Option<i64>, Option<String>) {
    let end = middleware().close_span(Outcome::Response(status));
    (end.status_code, end.error_status)
}

#[test]
fn the_middleware_keeps_the_service() {
    assert_eq!(middleware().service, "service");
    assert_eq!(OtelTracingMiddleware::new(5).service, 5);
    assert_eq!(format!("{:?}", OtelTracing::default()), "OtelTracing");
    assert_eq!(TRACER_NAME, "actix-web-middleware");
}

#[test]
fn a_span_is_named_after_the_route() {
    let span = middleware().open_span(Some("/users/{id}".to_owned()));
    assert_eq!(span.name, "/users/{id}");
    assert_eq!(span.kind, SpanKind::Server);
    assert_eq!(middleware().open_span(None).name, "default");
}

#[test]
fn a_response_leaves_its_status_code() {
    assert_eq!(response(200), (Some(200), None));
    assert_eq!(response(404), (Some(404), None));
    assert_eq!(response(499), (Some(499), None));
    assert_eq!(response(600), (Some(600), None));
}

#[test]
fn a_server_error_leaves_its_reason() {
    for (status, reason) in [
        (500, "Internal Server Error"),
        (501, "Not Implemented"),
        (502, "Bad Gateway"),
        (503, "Service Unavailable"),
        (504, "Gateway Timeout"),
        (505, "HTTP Version Not Supported"),
        (506, "Variant Also Negotiates"),
        (507, "Insufficient Storage"),
        (508, "Loop Detected"),
        (510, "Not Extended"),
        (511, "Network Authentication Required"),
    ] {
        assert_eq!(response(status), (Some(status as i64), Some(reason.to_owned())));
    }
}

#[test]
fn server_errors_without_a_reason_leave_an_empty_one() {
    for status in [509, 512, 550, 599] {
        assert_eq!(response(status), (Some(status as i64), Some(String::new())));
    }
}

#[test]
fn a_failed_service_leaves_its_error() {
    let end = middleware().close_span(Outcome::Failure("Boom".to_owned()));
    assert_eq!(end.status_code, None);
    assert_eq!(end.error_status, Some("Boom".to_owned()));
}
