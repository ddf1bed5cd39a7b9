//! The tracing of HTTP requests: the span opened for a request, and what it
//! records of the answer.

use crate::span::{SpanKind, SpanStart};
use actix_web::http::StatusCode;
use vstd::prelude::*;

verus! {

/// The name of the tracer that the middleware reports to.
pub const TRACER_NAME: &'static str = "actix-web-middleware";

/// The route of a request that matches no pattern.
pub const DEFAULT_ROUTE: &'static str = "default";

/// How a request was answered.
#[derive(Debug, PartialEq, Eq)]
pub enum Outcome {
    /// With a response of this status.
    Response(u16),
    /// Not at all: the service failed, with an error that reads like this.
    Failure(String),
}

/// What the span of a request records before it is closed.
#[derive(Debug, PartialEq, Eq)]
pub struct SpanEnd {
    /// The status code of the response, where there was one.
    pub status_code: Option<i64>,
    /// The description of the span's error status, where it gets one.
    pub error_status: Option<String>,
}

/// Whether a status says that the server failed.
pub open spec fn is_server_error(status: u16) -> bool {
    500 <= status < 600
}

/// The registered reason phrase of a server error, where the status has one.
pub open spec fn server_error_reason(status: u16) -> Option<Seq<char>> {
    match status {
        500 => Some("Internal Server Error"@),
        501 => Some("Not Implemented"@),
        502 => Some("Bad Gateway"@),
        503 => Some("Service Unavailable"@),
        504 => Some("Gateway Timeout"@),
        505 => Some("HTTP Version Not Supported"@),
        506 => Some("Variant Also Negotiates"@),
        507 => Some("Insufficient Storage"@),
        508 => Some("Loop Detected"@),
        510 => Some("Not Extended"@),
        511 => Some("Network Authentication Required"@),
        _ => None,
    }
}

/// The description of the error status that a response of this status gives its
/// span: the reason phrase of a server error, empty where it has none.
pub open spec fn response_error_status(status: u16) -> Option<Seq<char>> {
    if is_server_error(status) {
        match server_error_reason(status) {
            Some(reason) => Some(reason),
            None => Some(Seq::<char>::empty()),
        }
    } else {
        None
    }
}

/// `StatusCode::canonical_reason` of the `http` crate, on the status that
/// `StatusCode::from_u16` makes of `code`. Claimed without proof: for the codes of
/// server errors it returns the phrases of `server_error_reason`, and none for the
/// codes that are not listed there.
#[verifier::external_body]
fn canonical_reason(code: u16) -> (reason: Option<&'static str>)
    requires
        is_server_error(code),
    ensures
        match reason {
            Some(phrase) => server_error_reason(code) == Some(phrase@),
            None => server_error_reason(code) is None,
        },
{
    match StatusCode::from_u16(code) {
        Ok(status) => status.canonical_reason(),
        Err(_) => None,
    }
}

/// The factory of the tracing middleware.
#[derive(Debug)]
pub struct OtelTracing {}

impl Default for OtelTracing {
    fn default() -> (tracing: OtelTracing)
        ensures
            tracing == (OtelTracing {  }),
    {
        OtelTracing {  }
    }
}

impl OtelTracing {
    /// A factory.
    pub fn new() -> (tracing: OtelTracing)
        ensures
            tracing == (OtelTracing {  }),
    {
        OtelTracing::default()
    }

    /// The middleware around a service.
    pub fn new_transform<S>(&self, service: S) -> (middleware: OtelTracingMiddleware<S>)
        ensures
            middleware.service == service,
    {
        OtelTracingMiddleware::new(service)
    }
}

/// A service whose requests are traced.
#[derive(Debug)]
pub struct OtelTracingMiddleware<S> {
    /// The service that answers the requests.
    pub service: S,
}

impl<S> OtelTracingMiddleware<S> {
    /// The middleware around a service.
    pub fn new(service: S) -> (middleware: Self)
        ensures
            middleware.service == service,
    {
        OtelTracingMiddleware { service }
    }

    /// The span of a request, named after the pattern of the route that it
    /// matches.
    pub fn open_span(&self, match_pattern: Option<String>) -> (span: SpanStart)
        ensures
            span.kind == SpanKind::Server,
            span.name@ == (match match_pattern {
                Some(pattern) => pattern@,
                None => DEFAULT_ROUTE@,
            }),
            match_pattern is None ==> span.name@ == "default"@,
    {
        let name: String = match match_pattern {
            Some(pattern) => pattern,
            None => DEFAULT_ROUTE.to_owned(),
        };
        SpanStart { name, kind: SpanKind::Server }
    }

    /// What the span of a request records of the answer. A response leaves its
    /// status code, and an error status where the server failed; a failed service
    /// leaves an error status that reads like the error.
    pub fn close_span(&self, outcome: Outcome) -> (end: SpanEnd)
        ensures
            match outcome {
                Outcome::Response(status) => {
                    &&& end.status_code == Some(status as i64)
                    &&& match end.error_status {
                        Some(description) => response_error_status(status) == Some(description@),
                        None => response_error_status(status) is None,
                    }
                    &&& end.error_status is Some <==> 500 <= status <= 599
                },
                Outcome::Failure(error) => {
                    &&& end.status_code is None
                    &&& end.error_status == Some(error)
                },
            },
    {
        match outcome {
            Outcome::Response(status) => {
                let error_status: Option<String> = if 500 <= status && status < 600 {
                    match canonical_reason(status) {
                        Some(reason) => Some(reason.to_owned()),
                        None => Some(String::new()),
                    }
                } else {
                    None
                };
                SpanEnd { status_code: Some(status as i64), error_status }
            },
            Outcome::Failure(error) => SpanEnd { status_code: None, error_status: Some(error) },
        }
    }
}

/// A response gives its span an error status exactly where the server failed.
pub proof fn law_error_status_means_server_error(status: u16)
    ensures
        response_error_status(status) is Some <==> is_server_error(status),
{
}

/// A response gives its span an error status exactly where its status is from 500 to
/// 599. The description is the registered reason phrase, and empty for the statuses
/// without one.
pub proof fn law_error_statuses_are_the_five_hundreds(status: u16)
    ensures
        response_error_status(status) is Some <==> 500 <= status <= 599,
        500 <= status <= 599 ==> response_error_status(status) == Some(
            if status == 500 {
                "Internal Server Error"@
            } else if status == 501 {
                "Not Implemented"@
            } else if status == 502 {
                "Bad Gateway"@
            } else if status == 503 {
                "Service Unavailable"@
            } else if status == 504 {
                "Gateway Timeout"@
            } else if status == 505 {
                "HTTP Version Not Supported"@
            } else if status == 506 {
                "Variant Also Negotiates"@
            } else if status == 507 {
                "Insufficient Storage"@
            } else if status == 508 {
                "Loop Detected"@
            } else if status == 510 {
                "Not Extended"@
            } else if status == 511 {
                "Network Authentication Required"@
            } else {
                Seq::<char>::empty()
            },
        ),
{
}

} // verus!
