//! The credentials of requests over HTTP.

use agent_turns::retry::{HttpClientError, StreamableHttpError};
use agent_turns::transport::{
    oauth_transport_error, MessageKind, TransportCall, TransportEvent, TransportOperation,
    TransportOutcome, TransportRequest, TransportStep,
};

const ACCESS_TOKEN_A: &str = "response-access-a";

fn rejected(token: &str) -> StreamableHttpError {
    StreamableHttpError::Client(HttpClientError::AccessTokenRejected {
        rejected_access_token: token.to_string(),
    })
}

/// Runs a request whose calls give back `events` in turn, and returns the calls.
fn run(step: TransportStep, events: Vec<TransportEvent>) -> (Vec<TransportCall>, TransportOutcome) {
    let mut step = step;
    let mut events = events.into_iter();
    let mut calls = Vec::new();
    loop {
        match step {
            TransportStep::Call(call, request) => {
                calls.push(call);
                let event = events.next().expect("an event for every call");
                assert!(request.accepts(&event));
                step = request.resume(event);
            }
            TransportStep::Done(outcome) => {
                assert!(events.next().is_none());
                return (calls, outcome);
            }
        }
    }
}

#[test]
fn server_response_post_receives_one_shot_oauth_recovery() {
    let operation = TransportOperation::PostMessage;
    let (calls, outcome) = run(
        TransportRequest::post_message(MessageKind::Response),
        vec![
            TransportEvent::Preflighted(Ok(())),
            TransportEvent::SendFailed(rejected(ACCESS_TOKEN_A)),
            TransportEvent::Recovered(Ok(())),
            TransportEvent::Delivered,
        ],
    );
    assert_eq!(
        calls,
        [
            TransportCall::Preflight { operation },
            TransportCall::Send,
            TransportCall::Recover {
                operation,
                rejected_access_token: ACCESS_TOKEN_A.to_string()
            },
            TransportCall::Send,
        ]
    );
    assert_eq!(outcome, TransportOutcome::LastResult);
}

#[test]
fn a_second_rejection_is_returned() {
    for step in [
        TransportRequest::post_message(MessageKind::Error),
        TransportRequest::delete_session(),
        TransportRequest::get_stream(),
    ] {
        let (calls, outcome) = run(
            step,
            vec![
                TransportEvent::Preflighted(Ok(())),
                TransportEvent::SendFailed(rejected("a")),
                TransportEvent::Recovered(Ok(())),
                TransportEvent::SendFailed(rejected("b")),
            ],
        );
        assert_eq!(calls.len(), 4);
        assert_eq!(outcome, TransportOutcome::LastResult);
    }
}

#[test]
fn what_the_client_posts_is_sent_as_it_is() {
    for kind in [MessageKind::Request, MessageKind::Notification] {
        let (calls, outcome) = run(
            TransportRequest::post_message(kind),
            vec![TransportEvent::SendFailed(rejected("a"))],
        );
        assert_eq!(calls, [TransportCall::Send]);
        assert_eq!(outcome, TransportOutcome::LastResult);
    }
}

#[test]
fn a_failed_preflight_blocks_the_request() {
    let message = "preflight refresh failed distinctly";
    let (calls, outcome) = run(
        TransportRequest::get_stream(),
        vec![TransportEvent::Preflighted(Err(message.to_string()))],
    );
    assert_eq!(
        calls,
        [TransportCall::Preflight {
            operation: TransportOperation::GetStream
        }]
    );
    assert_eq!(
        outcome,
        TransportOutcome::Failed(oauth_transport_error(message.to_string()))
    );
    assert_eq!(
        oauth_transport_error(message.to_string()),
        StreamableHttpError::Client(HttpClientError::OAuth(message.to_string()))
    );
}

#[test]
fn a_failed_recovery_is_returned() {
    let (calls, outcome) = run(
        TransportRequest::delete_session(),
        vec![
            TransportEvent::Preflighted(Ok(())),
            TransportEvent::SendFailed(rejected("a")),
            TransportEvent::Recovered(Err("no".to_string())),
        ],
    );
    assert_eq!(calls.len(), 3);
    assert_eq!(
        outcome,
        TransportOutcome::Failed(oauth_transport_error("no".to_string()))
    );
}

#[test]
fn other_failures_are_returned_as_they_are() {
    for error in [
        StreamableHttpError::AuthRequired,
        StreamableHttpError::SessionExpired,
        StreamableHttpError::Client(HttpClientError::OAuth("no".to_string())),
        StreamableHttpError::Other,
    ] {
        let (calls, outcome) = run(
            TransportRequest::get_stream(),
            vec![
                TransportEvent::Preflighted(Ok(())),
                TransportEvent::SendFailed(error),
            ],
        );
        assert_eq!(calls.len(), 2);
        assert_eq!(outcome, TransportOutcome::LastResult);
    }
}

#[test]
fn a_request_knows_which_event_it_waits_for() {
    let TransportStep::Call(_, request) = TransportRequest::get_stream() else {
        panic!("expected a call");
    };
    assert!(request.accepts(&TransportEvent::Preflighted(Ok(()))));
    assert!(!request.accepts(&TransportEvent::Delivered));
    assert!(!request.accepts(&TransportEvent::Recovered(Ok(()))));
}

#[test]
fn operations_have_names() {
    assert_eq!(TransportOperation::PostMessage.as_str(), "post_message");
    assert_eq!(TransportOperation::DeleteSession.as_str(), "delete_session");
    assert_eq!(TransportOperation::GetStream.as_str(), "get_stream");
}
