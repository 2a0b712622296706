//! Which failures to open a connection are worth another attempt.

use agent_turns::clock::MonotonicClock;
use agent_turns::duration::Duration;
use agent_turns::retry::{
    initialize_timeout_error, is_retryable_client_initialize_error, is_retryable_http_status,
    is_retryable_initialize_error, is_retryable_streamable_http_error,
    is_retryable_unexpected_server_response, rejected_access_token,
    rejected_access_token_from_client_initialize_error,
    rejected_access_token_from_initialize_error, remaining_initialize_timeout,
    remaining_initialize_timeout_at, ClientInitializeError, ErrorLink, ExecServerError,
    HttpClientError, StreamableHttpError,
};

fn http_request(error: ExecServerError) -> StreamableHttpError {
    StreamableHttpError::Client(HttpClientError::HttpRequest(error))
}

fn server_error(code: i64, message: &str) -> StreamableHttpError {
    http_request(ExecServerError::Server {
        code,
        message: message.to_string(),
    })
}

fn protocol_error(message: &str) -> StreamableHttpError {
    http_request(ExecServerError::Protocol(message.to_string()))
}

fn rejected(token: &str) -> StreamableHttpError {
    StreamableHttpError::Client(HttpClientError::AccessTokenRejected {
        rejected_access_token: token.to_string(),
    })
}

fn transport_error(error: Option<StreamableHttpError>, context: &str) -> ClientInitializeError {
    ClientInitializeError::TransportError {
        error,
        context: context.to_string(),
    }
}

#[test]
fn statuses_that_may_pass() {
    for status in 0..=1000 {
        assert_eq!(
            is_retryable_http_status(status),
            matches!(status, 408 | 429 | 500 | 502 | 503 | 504),
            "{status}"
        );
    }
}

#[test]
fn responses_that_report_a_status() {
    for message in [
        "HTTP 503",
        "HTTP 503 Service Unavailable",
        "HTTP 429: slow down",
        "HTTP 408abc",
        "HTTP 000500",
    ] {
        assert!(is_retryable_unexpected_server_response(message), "{message}");
    }
    for message in [
        "",
        "HTTP ",
        "HTTP",
        "HTTP  503",
        "http 503",
        "503",
        "HTTP 404",
        "HTTP 5033",
        "HTTP 66039",
        "HTTP 50",
        "HTTP 99999999999999999999503",
        "HTTP ٥٠٣",
        "HTTP -503",
    ] {
        assert!(!is_retryable_unexpected_server_response(message), "{message}");
    }
}

#[test]
fn errors_that_may_pass() {
    for error in [
        http_request(ExecServerError::HttpRequest("connection refused".to_string())),
        server_error(-32603, "http/request failed: timeout"),
        protocol_error("http response stream `abc` failed: reset"),
        StreamableHttpError::UnexpectedServerResponse("HTTP 502".to_string()),
    ] {
        assert!(is_retryable_streamable_http_error(&error), "{error:?}");
    }
    for error in [
        server_error(-32602, "http/request failed: timeout"),
        server_error(-32603, "something failed: http/request failed:"),
        protocol_error("http response stream `abc` closed"),
        protocol_error("stream `abc` failed: reset"),
        http_request(ExecServerError::Other),
        StreamableHttpError::UnexpectedServerResponse("HTTP 404".to_string()),
        StreamableHttpError::AuthRequired,
        StreamableHttpError::InsufficientScope,
        StreamableHttpError::SessionExpired,
        StreamableHttpError::UnexpectedContentType,
        StreamableHttpError::ServerDoesNotSupportSse,
        StreamableHttpError::Deserialize,
        StreamableHttpError::TransportChannelClosed,
        StreamableHttpError::Client(HttpClientError::SessionExpired404),
        StreamableHttpError::Client(HttpClientError::OAuth("no".to_string())),
        StreamableHttpError::Client(HttpClientError::Header("no".to_string())),
        rejected("token"),
        StreamableHttpError::Other,
    ] {
        assert!(!is_retryable_streamable_http_error(&error), "{error:?}");
    }
}

#[test]
fn handshake_errors_that_may_pass() {
    let passing = StreamableHttpError::UnexpectedServerResponse("HTTP 503".to_string());
    let request = "send initialize request";
    let notification = "send initialized notification";
    let may_pass = |error: &StreamableHttpError, context: &str| {
        is_retryable_client_initialize_error(&transport_error(Some(error.clone()), context))
    };
    assert!(may_pass(&passing, request));
    assert!(may_pass(&passing, notification));
    assert!(!may_pass(&passing, "receive initialize response"));
    assert!(!may_pass(&StreamableHttpError::TransportChannelClosed, request));
    assert!(may_pass(&StreamableHttpError::TransportChannelClosed, notification));
    assert!(!may_pass(&StreamableHttpError::AuthRequired, notification));
    assert!(!is_retryable_client_initialize_error(&transport_error(None, request)));
    assert!(!is_retryable_client_initialize_error(&ClientInitializeError::Other));
}

#[test]
fn one_error_of_a_chain_is_enough() {
    let passing = transport_error(
        Some(StreamableHttpError::UnexpectedServerResponse(
            "HTTP 503".to_string(),
        )),
        "send initialize request",
    );
    assert!(is_retryable_initialize_error(&vec![
        ErrorLink::Other,
        ErrorLink::Handshake(passing.clone())
    ]));
    assert!(is_retryable_initialize_error(&vec![
        ErrorLink::Handshake(ClientInitializeError::Other),
        ErrorLink::Initialize(passing)
    ]));
    assert!(!is_retryable_initialize_error(&vec![
        ErrorLink::Other,
        ErrorLink::Initialize(ClientInitializeError::Other)
    ]));
    assert!(!is_retryable_initialize_error(&Vec::new()));
}

#[test]
fn the_rejected_token_is_found() {
    assert_eq!(rejected_access_token(&rejected("a")), Some("a".to_string()));
    assert_eq!(rejected_access_token(&StreamableHttpError::AuthRequired), None);

    let rejecting = |token: &str| transport_error(Some(rejected(token)), "any context");
    assert_eq!(
        rejected_access_token_from_client_initialize_error(&rejecting("a")),
        Some("a".to_string())
    );
    assert_eq!(
        rejected_access_token_from_client_initialize_error(&transport_error(None, "")),
        None
    );

    assert_eq!(
        rejected_access_token_from_initialize_error(&vec![
            ErrorLink::Other,
            ErrorLink::Initialize(ClientInitializeError::Other),
            ErrorLink::Handshake(rejecting("first")),
            ErrorLink::Initialize(rejecting("second")),
        ]),
        Some("first".to_string())
    );
    assert_eq!(
        rejected_access_token_from_initialize_error(&vec![ErrorLink::Other]),
        None
    );
}

#[test]
fn the_time_left_for_a_handshake() {
    let timeout = Some(Duration::from_secs(10));
    let now = Duration::from_millis(4_000);
    assert_eq!(remaining_initialize_timeout_at(timeout, None, &now), Ok(None));
    assert_eq!(
        remaining_initialize_timeout_at(timeout, Some(Duration::from_secs(10)), &now),
        Ok(Some(Duration::from_secs(6)))
    );
    let error = remaining_initialize_timeout_at(timeout, Some(Duration::from_secs(4)), &now)
        .expect_err("no time is left");
    assert_eq!(
        error.message,
        "timed out handshaking with MCP server after 10s"
    );
    let error = remaining_initialize_timeout_at(None, Some(Duration::from_secs(3)), &now)
        .expect_err("no time is left");
    assert_eq!(
        error.message,
        "timed out handshaking with MCP server after 0ns"
    );
}

#[test]
fn the_clock_decides_how_much_is_left() {
    let clock = MonotonicClock::start();
    let timeout = Some(Duration::from_secs(10));
    assert_eq!(remaining_initialize_timeout(timeout, None, &clock), Ok(None));
    let left = remaining_initialize_timeout(timeout, Some(Duration::from_secs(100)), &clock)
        .expect("time is left")
        .expect("there is a deadline");
    assert!(left.as_secs() >= 50 && left.as_secs() <= 100);
    assert!(remaining_initialize_timeout(timeout, Some(Duration::zero()), &clock).is_err());
}

#[test]
fn timeouts_are_written_like_durations() {
    let text = |timeout: Option<Duration>, fallback: Duration| {
        initialize_timeout_error(timeout, fallback).message
    };
    assert_eq!(
        text(None, Duration::from_millis(1_500)),
        "timed out handshaking with MCP server after 1.5s"
    );
    assert_eq!(
        text(Some(Duration::from_millis(250)), Duration::from_secs(1)),
        "timed out handshaking with MCP server after 250ms"
    );
}
