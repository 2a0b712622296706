//! Opening a connection: repeated attempts, and one refresh of rejected credentials.

use agent_turns::duration::Duration;
use agent_turns::initialize::{
    InitializeCall, InitializeEvent, InitializeOutcome, InitializeRetries, InitializeStep,
    OAuthRecovery, RecoveryCall, RecoveryEvent, RecoveryOutcome, RecoveryStep, TransportKind,
};
use agent_turns::retry::{
    ClientInitializeError, ErrorLink, HttpClientError, StreamableHttpError,
};

fn ms(millis: u64) -> Duration {
    Duration::from_millis(millis)
}

fn chain_of(error: StreamableHttpError) -> Vec<ErrorLink> {
    vec![
        ErrorLink::Other,
        ErrorLink::Handshake(ClientInitializeError::TransportError {
            error: Some(error),
            context: "send initialize request".to_string(),
        }),
    ]
}

fn passing() -> Vec<ErrorLink> {
    chain_of(StreamableHttpError::UnexpectedServerResponse(
        "HTTP 503 Service Unavailable".to_string(),
    ))
}

fn lasting() -> Vec<ErrorLink> {
    chain_of(StreamableHttpError::AuthRequired)
}

fn rejecting() -> Vec<ErrorLink> {
    chain_of(StreamableHttpError::Client(
        HttpClientError::AccessTokenRejected {
            rejected_access_token: "rejected".to_string(),
        },
    ))
}

/// Runs attempts whose calls give back `events` in turn, each at its time, and returns the calls.
fn attempt(
    kind: TransportKind,
    timeout: Option<Duration>,
    deadline: Option<Duration>,
    events: Vec<(u64, InitializeEvent)>,
) -> (Vec<InitializeCall>, InitializeOutcome) {
    let mut step = InitializeRetries::begin(kind, timeout);
    let mut events = events.into_iter();
    let mut calls = Vec::new();
    loop {
        match step {
            InitializeStep::Call(call, retries) => {
                calls.push(call);
                let (now, event) = events.next().expect("an event for every call");
                assert!(retries.is_well_formed());
                assert!(retries.accepts(&event));
                step = retries.resume(event, deadline, &ms(now));
            }
            InitializeStep::Done(outcome) => {
                assert!(events.next().is_none());
                return (calls, outcome);
            }
        }
    }
}

#[test]
fn an_attempt_that_succeeds_is_the_last() {
    for kind in [
        TransportKind::InProcess,
        TransportKind::Stdio,
        TransportKind::StreamableHttp,
        TransportKind::StreamableHttpWithOAuth,
    ] {
        let (calls, outcome) =
            attempt(kind, None, None, vec![(0, InitializeEvent::Connected)]);
        assert_eq!(calls, [InitializeCall::Connect]);
        assert_eq!(outcome, InitializeOutcome::Connected);
    }
}

#[test]
fn passing_failures_over_http_are_retried_twice() {
    let kind = TransportKind::StreamableHttp;
    let (calls, outcome) = attempt(
        kind,
        None,
        None,
        vec![
            (0, InitializeEvent::ConnectFailed(passing())),
            (250, InitializeEvent::Slept(true)),
            (250, InitializeEvent::Created(kind)),
            (300, InitializeEvent::ConnectFailed(passing())),
            (1_300, InitializeEvent::Slept(true)),
            (1_300, InitializeEvent::Created(kind)),
            (1_400, InitializeEvent::ConnectFailed(passing())),
        ],
    );
    assert_eq!(
        calls,
        [
            InitializeCall::Connect,
            InitializeCall::Sleep {
                delay: ms(250),
                limit: None
            },
            InitializeCall::CreateTransport { limit: None },
            InitializeCall::Connect,
            InitializeCall::Sleep {
                delay: ms(1_000),
                limit: None
            },
            InitializeCall::CreateTransport { limit: None },
            InitializeCall::Connect,
        ]
    );
    assert_eq!(
        outcome,
        InitializeOutcome::Failed {
            chain: passing(),
            with_oauth: false
        }
    );
}

#[test]
fn lasting_failures_and_local_transports_are_not_retried() {
    for (kind, chain) in [
        (TransportKind::StreamableHttp, lasting()),
        (TransportKind::StreamableHttp, rejecting()),
        (TransportKind::Stdio, passing()),
        (TransportKind::InProcess, passing()),
    ] {
        let (calls, outcome) = attempt(
            kind,
            None,
            None,
            vec![(0, InitializeEvent::ConnectFailed(chain.clone()))],
        );
        assert_eq!(calls.len(), 1);
        assert_eq!(
            outcome,
            InitializeOutcome::Failed {
                chain,
                with_oauth: false
            }
        );
    }
}

#[test]
fn the_failed_transport_tells_whether_it_had_credentials() {
    let (_, outcome) = attempt(
        TransportKind::StreamableHttpWithOAuth,
        None,
        None,
        vec![
            (0, InitializeEvent::ConnectFailed(passing())),
            (0, InitializeEvent::Slept(true)),
            (0, InitializeEvent::Created(TransportKind::StreamableHttp)),
            (0, InitializeEvent::ConnectFailed(rejecting())),
        ],
    );
    assert_eq!(
        outcome,
        InitializeOutcome::Failed {
            chain: rejecting(),
            with_oauth: false
        }
    );
}

fn timed_out(outcome: InitializeOutcome) -> String {
    match outcome {
        InitializeOutcome::TimedOut(error) => error.message,
        outcome => panic!("unexpected outcome {outcome:?}"),
    }
}

#[test]
fn the_deadline_bounds_every_wait() {
    let kind = TransportKind::StreamableHttp;
    let timeout = Some(ms(1_000));
    let deadline = Some(ms(1_000));

    let (calls, outcome) = attempt(
        kind,
        timeout,
        deadline,
        vec![
            (900, InitializeEvent::ConnectFailed(passing())),
            (1_000, InitializeEvent::Slept(false)),
        ],
    );
    assert_eq!(
        calls[1],
        InitializeCall::Sleep {
            delay: ms(250),
            limit: Some(ms(100))
        }
    );
    assert_eq!(
        timed_out(outcome),
        "timed out handshaking with MCP server after 1s"
    );

    let (calls, outcome) = attempt(
        kind,
        timeout,
        deadline,
        vec![
            (500, InitializeEvent::ConnectFailed(passing())),
            (750, InitializeEvent::Slept(true)),
            (1_000, InitializeEvent::CreateTimedOut),
        ],
    );
    assert_eq!(
        calls[2],
        InitializeCall::CreateTransport {
            limit: Some(ms(250))
        }
    );
    assert_eq!(
        timed_out(outcome),
        "timed out handshaking with MCP server after 1s"
    );
}

#[test]
fn nothing_begins_once_the_deadline_has_passed() {
    let kind = TransportKind::StreamableHttp;
    let (calls, outcome) = attempt(
        kind,
        None,
        Some(ms(1_000)),
        vec![(1_000, InitializeEvent::ConnectFailed(passing()))],
    );
    assert_eq!(calls.len(), 1);
    assert_eq!(
        timed_out(outcome),
        "timed out handshaking with MCP server after 250ms"
    );

    let (calls, outcome) = attempt(
        kind,
        None,
        Some(ms(1_000)),
        vec![
            (0, InitializeEvent::ConnectFailed(passing())),
            (1_001, InitializeEvent::Slept(true)),
        ],
    );
    assert_eq!(calls.len(), 2);
    assert_eq!(
        timed_out(outcome),
        "timed out handshaking with MCP server after 0ns"
    );
}

#[test]
fn a_transport_that_cannot_be_made_ends_the_attempts() {
    let (_, outcome) = attempt(
        TransportKind::StreamableHttp,
        None,
        None,
        vec![
            (0, InitializeEvent::ConnectFailed(passing())),
            (250, InitializeEvent::Slept(true)),
            (260, InitializeEvent::CreateFailed(vec![ErrorLink::Other])),
        ],
    );
    assert_eq!(
        outcome,
        InitializeOutcome::Failed {
            chain: vec![ErrorLink::Other],
            with_oauth: false
        }
    );
}

/// Opens a connection whose calls give back `events` in turn, each at its time.
fn recover(
    kind: TransportKind,
    timeout: Option<Duration>,
    deadline: Option<Duration>,
    events: Vec<(u64, RecoveryEvent)>,
) -> (Vec<RecoveryCall>, RecoveryOutcome, Option<Duration>) {
    let mut step = OAuthRecovery::begin(kind, timeout);
    let mut deadline = deadline;
    let mut events = events.into_iter();
    let mut calls = Vec::new();
    loop {
        match step {
            RecoveryStep::Call(call, recovery) => {
                calls.push(call);
                let (now, event) = events.next().expect("an event for every call");
                assert!(recovery.accepts(&event));
                assert!(recovery.moved_deadline(deadline, &ms(now)).is_ok());
                (step, deadline) = recovery.resume(event, deadline, &ms(now));
            }
            RecoveryStep::Done(outcome) => {
                assert!(events.next().is_none());
                return (calls, outcome, deadline);
            }
        }
    }
}

fn first(event: InitializeEvent) -> RecoveryEvent {
    RecoveryEvent::Initialize(event)
}

#[test]
fn the_time_of_a_refresh_is_not_counted() {
    let kind = TransportKind::StreamableHttpWithOAuth;
    let timeout = Some(ms(1_000));
    let (calls, outcome, deadline) = recover(
        kind,
        timeout,
        Some(ms(1_000)),
        vec![
            (100, first(InitializeEvent::ConnectFailed(rejecting()))),
            (1_600, RecoveryEvent::Refreshed(Ok(()))),
            (1_600, first(InitializeEvent::Created(kind))),
            (1_700, first(InitializeEvent::Connected)),
        ],
    );
    assert_eq!(
        calls,
        [
            RecoveryCall::Initialize(InitializeCall::Connect),
            RecoveryCall::Refresh {
                rejected_access_token: "rejected".to_string()
            },
            RecoveryCall::Initialize(InitializeCall::CreateTransport {
                limit: Some(ms(900))
            }),
            RecoveryCall::Initialize(InitializeCall::Connect),
        ]
    );
    assert_eq!(
        outcome,
        RecoveryOutcome::Initialize(InitializeOutcome::Connected)
    );
    assert_eq!(deadline, Some(ms(2_500)));
}

#[test]
fn a_second_rejection_is_not_recovered() {
    let kind = TransportKind::StreamableHttpWithOAuth;
    let (calls, outcome, _) = recover(
        kind,
        None,
        None,
        vec![
            (0, first(InitializeEvent::ConnectFailed(rejecting()))),
            (0, RecoveryEvent::Refreshed(Ok(()))),
            (0, first(InitializeEvent::Created(kind))),
            (0, first(InitializeEvent::ConnectFailed(rejecting()))),
        ],
    );
    assert_eq!(calls.len(), 4);
    assert_eq!(
        outcome,
        RecoveryOutcome::Initialize(InitializeOutcome::Failed {
            chain: rejecting(),
            with_oauth: true
        })
    );
}

#[test]
fn the_attempts_after_a_refresh_are_repeated_too() {
    let kind = TransportKind::StreamableHttpWithOAuth;
    let (calls, outcome, _) = recover(
        kind,
        None,
        None,
        vec![
            (0, first(InitializeEvent::ConnectFailed(passing()))),
            (250, first(InitializeEvent::Slept(true))),
            (250, first(InitializeEvent::Created(kind))),
            (250, first(InitializeEvent::ConnectFailed(rejecting()))),
            (250, RecoveryEvent::Refreshed(Ok(()))),
            (250, first(InitializeEvent::Created(kind))),
            (250, first(InitializeEvent::ConnectFailed(passing()))),
            (500, first(InitializeEvent::Slept(true))),
            (500, first(InitializeEvent::Created(kind))),
            (500, first(InitializeEvent::Connected)),
        ],
    );
    assert_eq!(calls.len(), 10);
    assert_eq!(
        outcome,
        RecoveryOutcome::Initialize(InitializeOutcome::Connected)
    );
}

#[test]
fn a_refresh_needs_a_rejected_token_and_credentials() {
    for (kind, chain) in [
        (TransportKind::StreamableHttp, rejecting()),
        (TransportKind::StreamableHttpWithOAuth, lasting()),
    ] {
        let (calls, outcome, _) = recover(
            kind,
            None,
            None,
            vec![(0, first(InitializeEvent::ConnectFailed(chain.clone())))],
        );
        assert_eq!(calls.len(), 1);
        assert_eq!(
            outcome,
            RecoveryOutcome::Initialize(InitializeOutcome::Failed {
                chain,
                with_oauth: kind == TransportKind::StreamableHttpWithOAuth
            })
        );
    }
}

#[test]
fn a_refresh_that_fails_is_reported() {
    let (calls, outcome, deadline) = recover(
        TransportKind::StreamableHttpWithOAuth,
        Some(ms(1_000)),
        Some(ms(1_000)),
        vec![
            (500, first(InitializeEvent::ConnectFailed(rejecting()))),
            (2_500, RecoveryEvent::Refreshed(Err("no".to_string()))),
        ],
    );
    assert_eq!(calls.len(), 2);
    assert_eq!(outcome, RecoveryOutcome::RefreshFailed("no".to_string()));
    assert_eq!(deadline, Some(ms(3_000)));
}

#[test]
fn no_refresh_begins_after_the_deadline() {
    let (calls, outcome, _) = recover(
        TransportKind::StreamableHttpWithOAuth,
        Some(ms(1_000)),
        Some(ms(1_000)),
        vec![(1_000, first(InitializeEvent::ConnectFailed(rejecting())))],
    );
    assert_eq!(calls.len(), 1);
    assert!(matches!(
        outcome,
        RecoveryOutcome::Initialize(InitializeOutcome::TimedOut(_))
    ));
}

#[test]
fn a_new_transport_that_takes_too_long_is_a_timeout() {
    let (_, outcome, _) = recover(
        TransportKind::StreamableHttpWithOAuth,
        None,
        Some(ms(1_000)),
        vec![
            (250, first(InitializeEvent::ConnectFailed(rejecting()))),
            (250, RecoveryEvent::Refreshed(Ok(()))),
            (1_000, first(InitializeEvent::CreateTimedOut)),
        ],
    );
    let RecoveryOutcome::Initialize(outcome) = outcome else {
        panic!("unexpected outcome");
    };
    assert_eq!(
        timed_out(outcome),
        "timed out handshaking with MCP server after 750ms"
    );
}

#[test]
fn a_deadline_that_cannot_be_moved_is_noticed() {
    let step = OAuthRecovery::begin(TransportKind::StreamableHttpWithOAuth, None);
    let RecoveryStep::Call(_, recovery) = step else {
        panic!("expected a call");
    };
    let far = Some(Duration::from_secs(u64::MAX));
    let (step, _) = recovery.resume(
        first(InitializeEvent::ConnectFailed(rejecting())),
        far,
        &ms(0),
    );
    let RecoveryStep::Call(_, recovery) = step else {
        panic!("expected a call");
    };
    assert!(recovery.moved_deadline(far, &Duration::from_secs(1)).is_err());
    assert!(recovery.moved_deadline(far, &ms(0)).is_ok());
    assert!(!recovery.accepts(&first(InitializeEvent::Connected)));
}
