//! Opening a connection to a server: repeated attempts, and one refresh of rejected credentials.
//!
//! Each of the two is a series of calls: a step tells which call to make next, and `resume` takes
//! what the call gave back. Times count from the start of a clock that only moves forward.

use vstd::prelude::*;

use crate::duration::Duration;
use crate::retry::{
    initialize_timeout_error, is_retryable_initialize_error,
    rejected_access_token_from_initialize_error, remaining_initialize_timeout_at, ErrorLink,
    ErrorLinkView, HandshakeTimeout,
};

verus! {

/// The pause before the second attempt over HTTP, in milliseconds.
pub const FIRST_RETRY_DELAY_MS: u64 = 250;

/// The pause before the third attempt over HTTP, which is the last, in milliseconds.
pub const SECOND_RETRY_DELAY_MS: u64 = 1_000;

/// What a connection is made over.
#[derive(Clone, Copy, Debug, PartialEq, Eq, Structural)]
pub enum TransportKind {
    InProcess,
    Stdio,
    StreamableHttp,
    /// HTTP with credentials that can be refreshed.
    StreamableHttpWithOAuth,
}

/// A call to make.
#[derive(Clone, Debug, PartialEq)]
pub enum InitializeCall {
    /// Connect over the transport at hand.
    Connect,
    /// Wait for `delay`, but for no longer than `limit`.
    Sleep { delay: Duration, limit: Option<Duration> },
    /// Make a new transport, for no longer than `limit`.
    CreateTransport { limit: Option<Duration> },
}

/// What `InitializeCall` stands for.
#[verifier::ext_equal]
pub enum InitializeCallView {
    Connect,
    Sleep { delay: nat, limit: Option<nat> },
    CreateTransport { limit: Option<nat> },
}

impl DeepView for InitializeCall {
    type V = InitializeCallView;

    open spec fn deep_view(&self) -> InitializeCallView {
        match self {
            InitializeCall::Connect => InitializeCallView::Connect,
            InitializeCall::Sleep { delay, limit } => InitializeCallView::Sleep {
                delay: delay@,
                limit: limit.deep_view(),
            },
            InitializeCall::CreateTransport { limit } => InitializeCallView::CreateTransport {
                limit: limit.deep_view(),
            },
        }
    }
}

/// What a call gave back.
#[derive(Clone, Debug, PartialEq)]
pub enum InitializeEvent {
    Connected,
    /// The connection failed with a chain of errors.
    ConnectFailed(Vec<ErrorLink>),
    /// Whether the wait came to its end within its limit.
    Slept(bool),
    Created(TransportKind),
    /// The transport could not be made.
    CreateFailed(Vec<ErrorLink>),
    CreateTimedOut,
}

/// What `InitializeEvent` stands for.
#[verifier::ext_equal]
pub enum InitializeEventView {
    Connected,
    ConnectFailed(Seq<ErrorLinkView>),
    Slept(bool),
    Created(TransportKind),
    CreateFailed(Seq<ErrorLinkView>),
    CreateTimedOut,
}

impl DeepView for InitializeEvent {
    type V = InitializeEventView;

    open spec fn deep_view(&self) -> InitializeEventView {
        match self {
            InitializeEvent::Connected => InitializeEventView::Connected,
            InitializeEvent::ConnectFailed(value) =>
                InitializeEventView::ConnectFailed(value.deep_view()),
            InitializeEvent::Slept(value) => InitializeEventView::Slept(*value),
            InitializeEvent::Created(value) => InitializeEventView::Created(*value),
            InitializeEvent::CreateFailed(value) =>
                InitializeEventView::CreateFailed(value.deep_view()),
            InitializeEvent::CreateTimedOut => InitializeEventView::CreateTimedOut,
        }
    }
}

/// What the attempts came to.
#[derive(Clone, Debug, PartialEq)]
pub enum InitializeOutcome {
    Connected,
    /// The last call failed with a chain of errors; and whether the transport of the last attempt
    /// had credentials that can be refreshed.
    Failed { chain: Vec<ErrorLink>, with_oauth: bool },
    TimedOut(HandshakeTimeout),
}

/// What `InitializeOutcome` stands for.
#[verifier::ext_equal]
pub enum InitializeOutcomeView {
    Connected,
    Failed { chain: Seq<ErrorLinkView>, with_oauth: bool },
    TimedOut(Seq<char>),
}

impl DeepView for InitializeOutcome {
    type V = InitializeOutcomeView;

    open spec fn deep_view(&self) -> InitializeOutcomeView {
        match self {
            InitializeOutcome::Connected => InitializeOutcomeView::Connected,
            InitializeOutcome::Failed { chain, with_oauth } => InitializeOutcomeView::Failed {
                chain: chain.deep_view(),
                with_oauth: *with_oauth,
            },
            InitializeOutcome::TimedOut(value) =>
                InitializeOutcomeView::TimedOut(value.deep_view()),
        }
    }
}

/// What the attempts wait for.
#[derive(Clone, Debug, PartialEq)]
pub enum InitializeStage {
    Connecting,
    Sleeping { delay: Duration },
    Creating { limit: Option<Duration> },
}

/// What `InitializeStage` stands for.
#[verifier::ext_equal]
pub enum InitializeStageView {
    Connecting,
    Sleeping { delay: nat },
    Creating { limit: Option<nat> },
}

impl DeepView for InitializeStage {
    type V = InitializeStageView;

    open spec fn deep_view(&self) -> InitializeStageView {
        match self {
            InitializeStage::Connecting => InitializeStageView::Connecting,
            InitializeStage::Sleeping { delay } => InitializeStageView::Sleeping {
                delay: delay@,
            },
            InitializeStage::Creating { limit } => InitializeStageView::Creating {
                limit: limit.deep_view(),
            },
        }
    }
}

/// Attempts to connect, of which one waits for what a call gives back.
#[derive(Clone, Debug, PartialEq)]
pub struct InitializeRetries {
    pub timeout: Option<Duration>,
    pub should_retry: bool,
    /// How many attempts were made before this one.
    pub attempt: u64,
    pub with_oauth: bool,
    pub stage: InitializeStage,
}

/// What `InitializeRetries` stands for.
#[verifier::ext_equal]
pub struct InitializeRetriesView {
    pub timeout: Option<nat>,
    pub should_retry: bool,
    pub attempt: u64,
    pub with_oauth: bool,
    pub stage: InitializeStageView,
}

impl DeepView for InitializeRetries {
    type V = InitializeRetriesView;

    open spec fn deep_view(&self) -> InitializeRetriesView {
        InitializeRetriesView {
            timeout: self.timeout.deep_view(),
            should_retry: self.should_retry,
            attempt: self.attempt,
            with_oauth: self.with_oauth,
            stage: self.stage.deep_view(),
        }
    }
}

/// What the attempts need next: a call, or nothing, because they are done.
#[derive(Clone, Debug, PartialEq)]
pub enum InitializeStep {
    Call(InitializeCall, InitializeRetries),
    Done(InitializeOutcome),
}

/// What `InitializeStep` stands for.
#[verifier::ext_equal]
pub enum InitializeStepView {
    Call(InitializeCallView, InitializeRetriesView),
    Done(InitializeOutcomeView),
}

impl DeepView for InitializeStep {
    type V = InitializeStepView;

    open spec fn deep_view(&self) -> InitializeStepView {
        match self {
            InitializeStep::Call(value0, value1) =>
                InitializeStepView::Call(value0.deep_view(), value1.deep_view()),
            InitializeStep::Done(value) => InitializeStepView::Done(value.deep_view()),
        }
    }
}

/// A call to make.
#[derive(Clone, Debug, PartialEq)]
pub enum RecoveryCall {
    Initialize(InitializeCall),
    /// Refresh the credentials, whose access token was rejected.
    Refresh { rejected_access_token: String },
}

/// What `RecoveryCall` stands for.
#[verifier::ext_equal]
pub enum RecoveryCallView {
    Initialize(InitializeCallView),
    Refresh { rejected_access_token: Seq<char> },
}

impl DeepView for RecoveryCall {
    type V = RecoveryCallView;

    open spec fn deep_view(&self) -> RecoveryCallView {
        match self {
            RecoveryCall::Initialize(value) => RecoveryCallView::Initialize(value.deep_view()),
            RecoveryCall::Refresh { rejected_access_token } => RecoveryCallView::Refresh {
                rejected_access_token: rejected_access_token@,
            },
        }
    }
}

/// What a call gave back.
#[derive(Debug, PartialEq)]
pub enum RecoveryEvent {
    Initialize(InitializeEvent),
    /// The credentials were refreshed, or that failed with a message.
    Refreshed(Result<(), String>),
}

/// What `RecoveryEvent` stands for.
#[verifier::ext_equal]
pub enum RecoveryEventView {
    Initialize(InitializeEventView),
    Refreshed(Result<(), Seq<char>>),
}

impl DeepView for RecoveryEvent {
    type V = RecoveryEventView;

    open spec fn deep_view(&self) -> RecoveryEventView {
        match self {
            RecoveryEvent::Initialize(value) => RecoveryEventView::Initialize(value.deep_view()),
            RecoveryEvent::Refreshed(value) => RecoveryEventView::Refreshed(match value {
                Ok(()) => Ok(()),
                Err(value) => Err(value.deep_view()),
            }),
        }
    }
}

/// What opening the connection came to.
#[derive(Clone, Debug, PartialEq)]
pub enum RecoveryOutcome {
    Initialize(InitializeOutcome),
    RefreshFailed(String),
}

/// What `RecoveryOutcome` stands for.
#[verifier::ext_equal]
pub enum RecoveryOutcomeView {
    Initialize(InitializeOutcomeView),
    RefreshFailed(Seq<char>),
}

impl DeepView for RecoveryOutcome {
    type V = RecoveryOutcomeView;

    open spec fn deep_view(&self) -> RecoveryOutcomeView {
        match self {
            RecoveryOutcome::Initialize(value) =>
                RecoveryOutcomeView::Initialize(value.deep_view()),
            RecoveryOutcome::RefreshFailed(value) => RecoveryOutcomeView::RefreshFailed(value@),
        }
    }
}

/// What opening the connection waits for.
#[derive(Clone, Debug, PartialEq)]
pub enum RecoveryStage {
    /// The attempts before a refresh.
    First(InitializeRetries),
    Refreshing { started_at: Duration },
    Creating { limit: Option<Duration> },
    /// The attempts after a refresh.
    Second(InitializeRetries),
}

/// What `RecoveryStage` stands for.
#[verifier::ext_equal]
pub enum RecoveryStageView {
    First(InitializeRetriesView),
    Refreshing { started_at: nat },
    Creating { limit: Option<nat> },
    Second(InitializeRetriesView),
}

impl DeepView for RecoveryStage {
    type V = RecoveryStageView;

    open spec fn deep_view(&self) -> RecoveryStageView {
        match self {
            RecoveryStage::First(value) => RecoveryStageView::First(value.deep_view()),
            RecoveryStage::Refreshing { started_at } => RecoveryStageView::Refreshing {
                started_at: started_at@,
            },
            RecoveryStage::Creating { limit } => RecoveryStageView::Creating {
                limit: limit.deep_view(),
            },
            RecoveryStage::Second(value) => RecoveryStageView::Second(value.deep_view()),
        }
    }
}

/// The opening of a connection that waits for what a call gives back.
#[derive(Clone, Debug, PartialEq)]
pub struct OAuthRecovery {
    pub timeout: Option<Duration>,
    pub stage: RecoveryStage,
}

/// What `OAuthRecovery` stands for.
#[verifier::ext_equal]
pub struct OAuthRecoveryView {
    pub timeout: Option<nat>,
    pub stage: RecoveryStageView,
}

impl DeepView for OAuthRecovery {
    type V = OAuthRecoveryView;

    open spec fn deep_view(&self) -> OAuthRecoveryView {
        OAuthRecoveryView {
            timeout: self.timeout.deep_view(),
            stage: self.stage.deep_view(),
        }
    }
}

/// What opening the connection needs next: a call, or nothing, because it is done.
#[derive(Clone, Debug, PartialEq)]
pub enum RecoveryStep {
    Call(RecoveryCall, OAuthRecovery),
    Done(RecoveryOutcome),
}

/// What `RecoveryStep` stands for.
#[verifier::ext_equal]
pub enum RecoveryStepView {
    Call(RecoveryCallView, OAuthRecoveryView),
    Done(RecoveryOutcomeView),
}

impl DeepView for RecoveryStep {
    type V = RecoveryStepView;

    open spec fn deep_view(&self) -> RecoveryStepView {
        match self {
            RecoveryStep::Call(value0, value1) =>
                RecoveryStepView::Call(value0.deep_view(), value1.deep_view()),
            RecoveryStep::Done(value) => RecoveryStepView::Done(value.deep_view()),
        }
    }
}

impl TransportKind {
    /// Attempts over this transport are repeated.
    pub open spec fn is_http(self) -> bool {
        self == TransportKind::StreamableHttp || self == TransportKind::StreamableHttpWithOAuth
    }
}

/// The pause after the attempt that `attempt` others came before, in nanoseconds; none after the
/// last one.
pub open spec fn retry_delay(attempt: u64) -> Option<nat> {
    if attempt == 0 {
        Some((FIRST_RETRY_DELAY_MS * 1_000_000) as nat)
    } else if attempt == 1 {
        Some((SECOND_RETRY_DELAY_MS * 1_000_000) as nat)
    } else {
        None
    }
}

fn retry_delay_after(attempt: u64) -> (delay: Option<Duration>)
    ensures
        delay.deep_view() == retry_delay(attempt),
{
    if attempt == 0 {
        Some(Duration::from_millis(FIRST_RETRY_DELAY_MS))
    } else if attempt == 1 {
        Some(Duration::from_millis(SECOND_RETRY_DELAY_MS))
    } else {
        None
    }
}

impl InitializeRetriesView {
    /// The first attempt is made, over a transport of this kind.
    pub open spec fn begin(kind: TransportKind, timeout: Option<nat>) -> InitializeStepView {
        InitializeStepView::Call(
            InitializeCallView::Connect,
            InitializeRetriesView {
                timeout,
                should_retry: kind.is_http(),
                attempt: 0,
                with_oauth: kind == TransportKind::StreamableHttpWithOAuth,
                stage: InitializeStageView::Connecting,
            },
        )
    }

    /// The attempts wait for an event of this kind.
    pub open spec fn accepts(self, event: InitializeEventView) -> bool {
        match self.stage {
            InitializeStageView::Connecting => event is Connected || event is ConnectFailed,
            InitializeStageView::Sleeping { .. } => event is Slept,
            InitializeStageView::Creating { limit } => event is Created || event is CreateFailed
                || (event is CreateTimedOut && limit is Some),
        }
    }

    /// The attempts go on at `stage` with `call`.
    pub open spec fn call(self, call: InitializeCallView, stage: InitializeStageView) ->
        InitializeStepView {
        InitializeStepView::Call(call, InitializeRetriesView { stage, ..self })
    }

    /// The last call failed.
    pub open spec fn failed(self, chain: Seq<ErrorLinkView>) -> InitializeStepView {
        InitializeStepView::Done(
            InitializeOutcomeView::Failed { chain, with_oauth: self.with_oauth },
        )
    }

    /// The handshake took too long.
    pub open spec fn timed_out(self, fallback: nat) -> InitializeStepView {
        InitializeStepView::Done(
            InitializeOutcomeView::TimedOut(crate::retry::timeout_message(self.timeout, fallback)),
        )
    }

    /// An attempt failed. Over HTTP, where the failure may pass, another one follows after a
    /// pause, unless this was the last or the deadline has passed.
    pub open spec fn connect_failed(
        self,
        chain: Seq<ErrorLinkView>,
        deadline: Option<nat>,
        now: nat,
    ) -> InitializeStepView {
        if self.should_retry && crate::retry::chain_may_pass(chain) {
            match (retry_delay(self.attempt), deadline) {
                (Some(delay), Some(at)) => if crate::retry::time_left(at, now) == 0 {
                    self.timed_out(delay)
                } else {
                    self.call(
                        InitializeCallView::Sleep {
                            delay,
                            limit: Some(crate::retry::time_left(at, now)),
                        },
                        InitializeStageView::Sleeping { delay },
                    )
                },
                (Some(delay), None) => self.call(
                    InitializeCallView::Sleep { delay, limit: None },
                    InitializeStageView::Sleeping { delay },
                ),
                (None, _) => self.failed(chain),
            }
        } else {
            self.failed(chain)
        }
    }

    /// The pause is over, and a new transport is made for the next attempt.
    pub open spec fn slept(self, deadline: Option<nat>, now: nat) -> InitializeStepView {
        match crate::retry::handshake_limit(self.timeout, deadline, now) {
            Ok(limit) => InitializeStepView::Call(
                InitializeCallView::CreateTransport { limit },
                InitializeRetriesView {
                    attempt: (self.attempt + 1) as u64,
                    stage: InitializeStageView::Creating { limit },
                    ..self
                },
            ),
            Err(message) => InitializeStepView::Done(InitializeOutcomeView::TimedOut(message)),
        }
    }

    /// What the attempts need once their call gave back `event` at `now`, when the handshake is to
    /// end by `deadline`.
    pub open spec fn resume(self, event: InitializeEventView, deadline: Option<nat>, now: nat) ->
        InitializeStepView {
        match (self.stage, event) {
            (InitializeStageView::Connecting, InitializeEventView::Connected) =>
                InitializeStepView::Done(InitializeOutcomeView::Connected),
            (InitializeStageView::Connecting, InitializeEventView::ConnectFailed(chain)) =>
                self.connect_failed(chain, deadline, now),
            (InitializeStageView::Sleeping { delay }, InitializeEventView::Slept(in_time)) =>
                if in_time {
                self.slept(deadline, now)
            } else {
                self.timed_out(delay)
            },
            (InitializeStageView::Creating { limit }, InitializeEventView::Created(kind)) =>
                InitializeStepView::Call(
                InitializeCallView::Connect,
                InitializeRetriesView {
                    with_oauth: kind == TransportKind::StreamableHttpWithOAuth,
                    stage: InitializeStageView::Connecting,
                    ..self
                },
            ),
            (InitializeStageView::Creating { limit }, InitializeEventView::CreateFailed(chain)) =>
                self.failed(chain),
            (InitializeStageView::Creating { limit }, InitializeEventView::CreateTimedOut) =>
                self.timed_out(limit->0),
            _ => arbitrary(),
        }
    }

    /// No more attempts are counted than are made.
    pub open spec fn well_formed(self) -> bool {
        self.attempt <= 2 && (self.stage is Sleeping ==> self.attempt <= 1)
    }
}

impl InitializeRetries {
    /// Makes the first attempt, over a transport of this kind.
    pub fn begin(kind: TransportKind, timeout: Option<Duration>) -> (step: InitializeStep)
        ensures
            step.deep_view() == InitializeRetriesView::begin(kind, timeout.deep_view()),
    {
        let should_retry = match kind {
            TransportKind::InProcess => false,
            TransportKind::Stdio => false,
            TransportKind::StreamableHttp => true,
            TransportKind::StreamableHttpWithOAuth => true,
        };
        InitializeStep::Call(
            InitializeCall::Connect,
            InitializeRetries {
                timeout,
                should_retry,
                attempt: 0,
                with_oauth: kind == TransportKind::StreamableHttpWithOAuth,
                stage: InitializeStage::Connecting,
            },
        )
    }

    /// Tests whether the attempts wait for an event of this kind.
    pub fn accepts(&self, event: &InitializeEvent) -> (r: bool)
        ensures
            r == self.deep_view().accepts(event.deep_view()),
    {
        match &self.stage {
            InitializeStage::Connecting => matches!(event, InitializeEvent::Connected) || matches!(
                event,
                InitializeEvent::ConnectFailed(_)
            ),
            InitializeStage::Sleeping { .. } => matches!(event, InitializeEvent::Slept(_)),
            InitializeStage::Creating { limit } => matches!(event, InitializeEvent::Created(_))
                || matches!(event, InitializeEvent::CreateFailed(_)) || (matches!(
                event,
                InitializeEvent::CreateTimedOut
            ) && limit.is_some()),
        }
    }

    /// Tests whether the count of attempts is in order.
    pub fn is_well_formed(&self) -> (r: bool)
        ensures
            r == self.deep_view().well_formed(),
    {
        self.attempt <= 2 && (!matches!(self.stage, InitializeStage::Sleeping { .. })
            || self.attempt <= 1)
    }

    fn call(self, call: InitializeCall, stage: InitializeStage) -> (step: InitializeStep)
        ensures
            step.deep_view() == self.deep_view().call(call.deep_view(), stage.deep_view()),
    {
        InitializeStep::Call(
            call,
            InitializeRetries {
                timeout: self.timeout,
                should_retry: self.should_retry,
                attempt: self.attempt,
                with_oauth: self.with_oauth,
                stage,
            },
        )
    }

    fn failed(&self, chain: Vec<ErrorLink>) -> (step: InitializeStep)
        ensures
            step.deep_view() == self.deep_view().failed(chain.deep_view()),
    {
        InitializeStep::Done(InitializeOutcome::Failed { chain, with_oauth: self.with_oauth })
    }

    fn timed_out(&self, fallback: Duration) -> (step: InitializeStep)
        ensures
            step.deep_view() == self.deep_view().timed_out(fallback@),
    {
        InitializeStep::Done(
            InitializeOutcome::TimedOut(initialize_timeout_error(self.timeout, fallback)),
        )
    }

    fn connect_failed(self, chain: Vec<ErrorLink>, deadline: Option<Duration>, now: &Duration) -> (
    step: InitializeStep)
        ensures
            step.deep_view() == self.deep_view().connect_failed(
                chain.deep_view(),
                deadline.deep_view(),
                now@,
            ),
    {
        if !self.should_retry || !is_retryable_initialize_error(&chain) {
            return self.failed(chain);
        }
        let delay = match retry_delay_after(self.attempt) {
            Some(delay) => delay,
            None => return self.failed(chain),
        };
        let limit = match deadline {
            Some(at) => {
                let remaining = at.saturating_sub(now);
                if remaining.is_zero() {
                    return self.timed_out(delay);
                }
                Some(remaining)
            },
            None => None,
        };
        self.call(InitializeCall::Sleep { delay, limit }, InitializeStage::Sleeping { delay })
    }

    fn slept(self, deadline: Option<Duration>, now: &Duration) -> (step: InitializeStep)
        requires
            self.attempt <= 1,
        ensures
            step.deep_view() == self.deep_view().slept(deadline.deep_view(), now@),
    {
        match remaining_initialize_timeout_at(self.timeout, deadline, now) {
            Ok(limit) => InitializeStep::Call(
                InitializeCall::CreateTransport { limit },
                InitializeRetries {
                    timeout: self.timeout,
                    should_retry: self.should_retry,
                    attempt: self.attempt + 1,
                    with_oauth: self.with_oauth,
                    stage: InitializeStage::Creating { limit },
                },
            ),
            Err(error) => InitializeStep::Done(InitializeOutcome::TimedOut(error)),
        }
    }

    /// Goes on with what the call gave back at `now`, when the handshake is to end by `deadline`.
    pub fn resume(self, event: InitializeEvent, deadline: Option<Duration>, now: &Duration) -> (
    step: InitializeStep)
        requires
            self.deep_view().well_formed(),
            self.deep_view().accepts(event.deep_view()),
        ensures
            step.deep_view() == self.deep_view().resume(
                event.deep_view(),
                deadline.deep_view(),
                now@,
            ),
            step matches InitializeStep::Call(_, next) ==> next.deep_view().well_formed(),
    {
        match event {
            InitializeEvent::Connected => InitializeStep::Done(InitializeOutcome::Connected),
            InitializeEvent::ConnectFailed(chain) => self.connect_failed(chain, deadline, now),
            InitializeEvent::Slept(in_time) => match self.stage {
                InitializeStage::Sleeping { delay } => if in_time {
                    self.slept(deadline, now)
                } else {
                    self.timed_out(delay)
                },
                _ => self.timed_out(Duration::zero()),
            },
            InitializeEvent::Created(kind) => InitializeStep::Call(
                InitializeCall::Connect,
                InitializeRetries {
                    timeout: self.timeout,
                    should_retry: self.should_retry,
                    attempt: self.attempt,
                    with_oauth: kind == TransportKind::StreamableHttpWithOAuth,
                    stage: InitializeStage::Connecting,
                },
            ),
            InitializeEvent::CreateFailed(chain) => self.failed(chain),
            InitializeEvent::CreateTimedOut => match self.stage {
                InitializeStage::Creating { limit: Some(limit) } => self.timed_out(limit),
                _ => self.timed_out(Duration::zero()),
            },
        }
    }
}

impl OAuthRecoveryView {
    /// The first attempt is made, over a transport of this kind.
    pub open spec fn begin(kind: TransportKind, timeout: Option<nat>) -> RecoveryStepView {
        (OAuthRecoveryView {
            timeout,
            stage: RecoveryStageView::Creating { limit: None },
        }).first(InitializeRetriesView::begin(kind, timeout), None, 0)
    }

    /// The opening of the connection waits for an event of this kind.
    pub open spec fn accepts(self, event: RecoveryEventView) -> bool {
        match (self.stage, event) {
            (RecoveryStageView::First(retries), RecoveryEventView::Initialize(inner)) =>
                retries.well_formed() && retries.accepts(inner),
            (RecoveryStageView::Second(retries), RecoveryEventView::Initialize(inner)) =>
                retries.well_formed() && retries.accepts(inner),
            (RecoveryStageView::Refreshing { .. }, RecoveryEventView::Refreshed(_)) => true,
            (RecoveryStageView::Creating { limit }, RecoveryEventView::Initialize(inner)) => inner
                is Created || inner is CreateFailed || (inner is CreateTimedOut && limit is Some),
            _ => false,
        }
    }

    /// The deadline of the handshake once an event came at `now`. The time that a refresh takes is
    /// not part of the handshake.
    pub open spec fn moved_deadline(self, deadline: Option<nat>, now: nat) -> Option<nat> {
        match (self.stage, deadline) {
            (RecoveryStageView::Refreshing { started_at }, Some(at)) => Some(
                at + crate::retry::time_left(now, started_at),
            ),
            _ => deadline,
        }
    }

    /// The handshake took too long.
    pub open spec fn timed_out(message: Seq<char>) -> RecoveryStepView {
        RecoveryStepView::Done(
            RecoveryOutcomeView::Initialize(InitializeOutcomeView::TimedOut(message)),
        )
    }

    /// The attempts before a refresh went on to `step`. Where they failed because the access token
    /// of refreshable credentials was rejected, the credentials are refreshed, unless the deadline
    /// has passed.
    pub open spec fn first(self, step: InitializeStepView, deadline: Option<nat>, now: nat) ->
        RecoveryStepView {
        match step {
            InitializeStepView::Call(call, retries) => RecoveryStepView::Call(
                RecoveryCallView::Initialize(call),
                OAuthRecoveryView { stage: RecoveryStageView::First(retries), ..self },
            ),
            InitializeStepView::Done(outcome) => match outcome {
                InitializeOutcomeView::Failed { chain, with_oauth } => match (
                    crate::retry::chain_rejected_token(chain),
                    with_oauth,
                ) {
                    (Some(token), true) => match crate::retry::handshake_limit(
                        self.timeout,
                        deadline,
                        now,
                    ) {
                        Ok(_) => RecoveryStepView::Call(
                            RecoveryCallView::Refresh { rejected_access_token: token },
                            OAuthRecoveryView {
                                stage: RecoveryStageView::Refreshing { started_at: now },
                                ..self
                            },
                        ),
                        Err(message) => OAuthRecoveryView::timed_out(message),
                    },
                    _ => RecoveryStepView::Done(RecoveryOutcomeView::Initialize(outcome)),
                },
                _ => RecoveryStepView::Done(RecoveryOutcomeView::Initialize(outcome)),
            },
        }
    }

    /// The attempts after a refresh went on to `step`.
    pub open spec fn second(self, step: InitializeStepView) -> RecoveryStepView {
        match step {
            InitializeStepView::Call(call, retries) => RecoveryStepView::Call(
                RecoveryCallView::Initialize(call),
                OAuthRecoveryView { stage: RecoveryStageView::Second(retries), ..self },
            ),
            InitializeStepView::Done(outcome) => RecoveryStepView::Done(
                RecoveryOutcomeView::Initialize(outcome),
            ),
        }
    }

    /// The refresh ended, and a new transport is made.
    pub open spec fn refreshed(
        self,
        result: Result<(), Seq<char>>,
        deadline: Option<nat>,
        now: nat,
    ) -> RecoveryStepView {
        match result {
            Ok(_) => match crate::retry::handshake_limit(self.timeout, deadline, now) {
                Ok(limit) => RecoveryStepView::Call(
                    RecoveryCallView::Initialize(InitializeCallView::CreateTransport { limit }),
                    OAuthRecoveryView { stage: RecoveryStageView::Creating { limit }, ..self },
                ),
                Err(message) => OAuthRecoveryView::timed_out(message),
            },
            Err(message) => RecoveryStepView::Done(RecoveryOutcomeView::RefreshFailed(message)),
        }
    }

    /// The new transport was made, or not.
    pub open spec fn created(self, limit: Option<nat>, event: InitializeEventView) ->
        RecoveryStepView {
        match event {
            InitializeEventView::Created(kind) => self.second(
                InitializeRetriesView::begin(kind, self.timeout),
            ),
            InitializeEventView::CreateFailed(chain) => RecoveryStepView::Done(
                RecoveryOutcomeView::Initialize(
                    InitializeOutcomeView::Failed { chain, with_oauth: false },
                ),
            ),
            _ => OAuthRecoveryView::timed_out(
                crate::retry::timeout_message(self.timeout, limit->0),
            ),
        }
    }

    /// What opening the connection needs once its call gave back `event` at `now`, when the
    /// handshake was to end by `deadline`.
    pub open spec fn resume(self, event: RecoveryEventView, deadline: Option<nat>, now: nat) ->
        RecoveryStepView {
        match (self.stage, event) {
            (RecoveryStageView::First(retries), RecoveryEventView::Initialize(inner)) =>
                self.first(retries.resume(inner, deadline, now), deadline, now),
            (RecoveryStageView::Refreshing { started_at }, RecoveryEventView::Refreshed(result)) =>
                self.refreshed(result, self.moved_deadline(deadline, now), now),
            (RecoveryStageView::Creating { limit }, RecoveryEventView::Initialize(inner)) =>
                self.created(limit, inner),
            (RecoveryStageView::Second(retries), RecoveryEventView::Initialize(inner)) =>
                self.second(retries.resume(inner, deadline, now)),
            _ => arbitrary(),
        }
    }
}

impl OAuthRecovery {
    /// Makes the first attempt, over a transport of this kind.
    pub fn begin(kind: TransportKind, timeout: Option<Duration>) -> (step: RecoveryStep)
        ensures
            step.deep_view() == OAuthRecoveryView::begin(kind, timeout.deep_view()),
    {
        match InitializeRetries::begin(kind, timeout) {
            InitializeStep::Call(call, retries) => RecoveryStep::Call(
                RecoveryCall::Initialize(call),
                OAuthRecovery { timeout, stage: RecoveryStage::First(retries) },
            ),
            InitializeStep::Done(outcome) => RecoveryStep::Done(
                RecoveryOutcome::Initialize(outcome),
            ),
        }
    }

    /// Tests whether the opening of the connection waits for an event of this kind.
    pub fn accepts(&self, event: &RecoveryEvent) -> (r: bool)
        ensures
            r == self.deep_view().accepts(event.deep_view()),
    {
        match (&self.stage, event) {
            (RecoveryStage::First(retries), RecoveryEvent::Initialize(inner)) =>
                retries.is_well_formed() && retries.accepts(inner),
            (RecoveryStage::Second(retries), RecoveryEvent::Initialize(inner)) =>
                retries.is_well_formed() && retries.accepts(inner),
            (RecoveryStage::Refreshing { .. }, RecoveryEvent::Refreshed(_)) => true,
            (RecoveryStage::Creating { limit }, RecoveryEvent::Initialize(inner)) => matches!(
                inner,
                InitializeEvent::Created(_)
            ) || matches!(inner, InitializeEvent::CreateFailed(_)) || (matches!(
                inner,
                InitializeEvent::CreateTimedOut
            ) && limit.is_some()),
            _ => false,
        }
    }

    /// Moves the deadline of the handshake for an event at `now`, if the moved one can be
    /// represented.
    pub fn moved_deadline(&self, deadline: Option<Duration>, now: &Duration) -> (r: Result<
        Option<Duration>,
        (),
    >)
        ensures
            match r {
                Ok(moved) => moved.deep_view() == self.deep_view().moved_deadline(
                    deadline.deep_view(),
                    now@,
                ),
                Err(_) => self.deep_view().moved_deadline(deadline.deep_view(), now@) matches Some(
                    at,
                ) && at >= crate::duration::duration_limit(),
            },
    {
        match (&self.stage, deadline) {
            (RecoveryStage::Refreshing { started_at }, Some(at)) => {
                let elapsed = now.saturating_sub(started_at);
                match at.checked_add(&elapsed) {
                    Some(moved) => Ok(Some(moved)),
                    None => Err(()),
                }
            },
            _ => Ok(deadline),
        }
    }

    fn timed_out(error: HandshakeTimeout) -> (step: RecoveryStep)
        ensures
            step.deep_view() == OAuthRecoveryView::timed_out(error.deep_view()),
    {
        RecoveryStep::Done(RecoveryOutcome::Initialize(InitializeOutcome::TimedOut(error)))
    }

    fn first(
        timeout: Option<Duration>,
        step: InitializeStep,
        deadline: Option<Duration>,
        now: &Duration,
    ) -> (r: RecoveryStep)
        ensures
            forall|recovery: OAuthRecoveryView|
                recovery.timeout == timeout.deep_view() ==> r.deep_view()
                    == #[trigger] recovery.first(step.deep_view(), deadline.deep_view(), now@),
    {
        match step {
            InitializeStep::Call(call, retries) => RecoveryStep::Call(
                RecoveryCall::Initialize(call),
                OAuthRecovery { timeout, stage: RecoveryStage::First(retries) },
            ),
            InitializeStep::Done(outcome) => {
                let token = match &outcome {
                    InitializeOutcome::Failed { chain, with_oauth } => if *with_oauth {
                        rejected_access_token_from_initialize_error(chain)
                    } else {
                        None
                    },
                    _ => None,
                };
                match token {
                    Some(token) => match remaining_initialize_timeout_at(timeout, deadline, now) {
                        Ok(_) => RecoveryStep::Call(
                            RecoveryCall::Refresh { rejected_access_token: token },
                            OAuthRecovery {
                                timeout,
                                stage: RecoveryStage::Refreshing { started_at: *now },
                            },
                        ),
                        Err(error) => OAuthRecovery::timed_out(error),
                    },
                    None => RecoveryStep::Done(RecoveryOutcome::Initialize(outcome)),
                }
            },
        }
    }

    fn second(timeout: Option<Duration>, step: InitializeStep) -> (r: RecoveryStep)
        ensures
            forall|recovery: OAuthRecoveryView|
                recovery.timeout == timeout.deep_view() ==> r.deep_view()
                    == #[trigger] recovery.second(step.deep_view()),
    {
        match step {
            InitializeStep::Call(call, retries) => RecoveryStep::Call(
                RecoveryCall::Initialize(call),
                OAuthRecovery { timeout, stage: RecoveryStage::Second(retries) },
            ),
            InitializeStep::Done(outcome) => RecoveryStep::Done(
                RecoveryOutcome::Initialize(outcome),
            ),
        }
    }

    fn refreshed(
        timeout: Option<Duration>,
        result: Result<(), String>,
        deadline: Option<Duration>,
        now: &Duration,
    ) -> (r: RecoveryStep)
        ensures
            forall|recovery: OAuthRecoveryView, outcome: Result<(), Seq<char>>|
                recovery.timeout == timeout.deep_view() && RecoveryEventView::Refreshed(outcome)
                    == RecoveryEvent::Refreshed(result).deep_view() ==> r.deep_view()
                    == #[trigger] recovery.refreshed(outcome, deadline.deep_view(), now@),
    {
        match result {
            Ok(_) => match remaining_initialize_timeout_at(timeout, deadline, now) {
                Ok(limit) => RecoveryStep::Call(
                    RecoveryCall::Initialize(InitializeCall::CreateTransport { limit }),
                    OAuthRecovery { timeout, stage: RecoveryStage::Creating { limit } },
                ),
                Err(error) => OAuthRecovery::timed_out(error),
            },
            Err(message) => RecoveryStep::Done(RecoveryOutcome::RefreshFailed(message)),
        }
    }

    fn created(timeout: Option<Duration>, limit: Option<Duration>, event: InitializeEvent) -> (r:
        RecoveryStep)
        requires
            event is Created || event is CreateFailed || (event is CreateTimedOut && limit is Some),
        ensures
            forall|recovery: OAuthRecoveryView|
                recovery.timeout == timeout.deep_view() ==> r.deep_view()
                    == #[trigger] recovery.created(limit.deep_view(), event.deep_view()),
    {
        match event {
            InitializeEvent::Created(kind) => OAuthRecovery::second(
                timeout,
                InitializeRetries::begin(kind, timeout),
            ),
            InitializeEvent::CreateFailed(chain) => RecoveryStep::Done(
                RecoveryOutcome::Initialize(
                    InitializeOutcome::Failed { chain, with_oauth: false },
                ),
            ),
            _ => match limit {
                Some(limit) => OAuthRecovery::timed_out(initialize_timeout_error(timeout, limit)),
                None => OAuthRecovery::timed_out(
                    initialize_timeout_error(timeout, Duration::zero()),
                ),
            },
        }
    }

    /// Goes on with what the call gave back at `now`, when the handshake was to end by `deadline`;
    /// and tells by when it is to end from now on.
    pub fn resume(self, event: RecoveryEvent, deadline: Option<Duration>, now: &Duration) -> (r: (
        RecoveryStep,
        Option<Duration>,
    ))
        requires
            self.deep_view().accepts(event.deep_view()),
            self.deep_view().moved_deadline(deadline.deep_view(), now@) matches Some(at) ==> at
                < crate::duration::duration_limit(),
        ensures
            r.0.deep_view() == self.deep_view().resume(
                event.deep_view(),
                deadline.deep_view(),
                now@,
            ),
            r.1.deep_view() == self.deep_view().moved_deadline(deadline.deep_view(), now@),
    {
        let moved = match self.moved_deadline(deadline, now) {
            Ok(moved) => moved,
            Err(_) => {
                assert(false);
                deadline
            },
        };
        let timeout = self.timeout;
        let step = match (self.stage, event) {
            (RecoveryStage::First(retries), RecoveryEvent::Initialize(inner)) => {
                let next = retries.resume(inner, deadline, now);
                OAuthRecovery::first(timeout, next, deadline, now)
            },
            (RecoveryStage::Refreshing { .. }, RecoveryEvent::Refreshed(result)) =>
                OAuthRecovery::refreshed(timeout, result, moved, now),
            (RecoveryStage::Creating { limit }, RecoveryEvent::Initialize(inner)) =>
                OAuthRecovery::created(timeout, limit, inner),
            (RecoveryStage::Second(retries), RecoveryEvent::Initialize(inner)) =>
                OAuthRecovery::second(timeout, retries.resume(inner, deadline, now)),
            _ => {
                assert(false);
                RecoveryStep::Done(RecoveryOutcome::RefreshFailed(String::new()))
            },
        };
        (step, moved)
    }
}

/// At most three attempts are made: each new one raises the count, which never exceeds two.
pub proof fn law_at_most_three_attempts(
    retries: InitializeRetriesView,
    event: InitializeEventView,
    deadline: Option<nat>,
    now: nat,
)
    requires
        retries.well_formed(),
        retries.accepts(event),
    ensures
        retries.resume(event, deadline, now) matches InitializeStepView::Call(call, next) ==> {
            &&& next.well_formed()
            &&& next.attempt == retries.attempt + if call is CreateTransport {
                1int
            } else {
                0int
            }
            &&& call is Connect ==> retries.stage is Creating
        },
{
}

/// Only attempts over HTTP are repeated, and only after a failure that may pass.
pub proof fn law_only_passing_http_failures_are_retried(
    retries: InitializeRetriesView,
    event: InitializeEventView,
    deadline: Option<nat>,
    now: nat,
)
    requires
        retries.accepts(event),
        retries.stage is Connecting,
        retries.resume(event, deadline, now) is Call,
    ensures
        retries.should_retry,
        event matches InitializeEventView::ConnectFailed(chain) && crate::retry::chain_may_pass(
            chain,
        ),
{
}

/// Nothing is begun once the deadline has passed: neither a pause, nor a new transport.
pub proof fn law_nothing_begins_after_the_deadline(
    retries: InitializeRetriesView,
    event: InitializeEventView,
    deadline: nat,
    now: nat,
)
    requires
        retries.accepts(event),
        deadline <= now,
        !(event is Created),
    ensures
        retries.resume(event, Some(deadline), now) is Done,
{
}

impl RecoveryStageView {
    /// The credentials were refreshed, or are being refreshed.
    pub open spec fn after_refresh(self) -> bool {
        !(self is First)
    }
}

/// Credentials are refreshed at most once while a connection is opened: a refresh is begun only
/// from the first attempts, and there is no way back to those.
pub proof fn law_at_most_one_refresh(
    recovery: OAuthRecoveryView,
    event: RecoveryEventView,
    deadline: Option<nat>,
    now: nat,
)
    requires
        recovery.accepts(event),
    ensures
        recovery.resume(event, deadline, now) matches RecoveryStepView::Call(call, next) ==> {
            &&& recovery.stage.after_refresh() ==> next.stage.after_refresh() && !(call is Refresh)
            &&& call is Refresh ==> next.stage.after_refresh()
        },
{
}

/// A refresh does not use up the time of the handshake: what was left when it began is left when
/// it ends.
pub proof fn law_refresh_time_is_not_counted(
    recovery: OAuthRecoveryView,
    deadline: nat,
    started_at: nat,
    now: nat,
)
    requires
        recovery.stage == (RecoveryStageView::Refreshing { started_at }),
        started_at <= now,
    ensures
        recovery.moved_deadline(Some(deadline), now) matches Some(moved)
            && crate::retry::time_left(moved, now) == crate::retry::time_left(deadline, started_at),
{
}

/// A refresh is begun only for an access token that was rejected, over a transport whose
/// credentials can be refreshed.
pub proof fn law_refresh_needs_a_rejected_token(
    recovery: OAuthRecoveryView,
    event: RecoveryEventView,
    deadline: Option<nat>,
    now: nat,
)
    requires
        recovery.accepts(event),
        recovery.resume(event, deadline, now) matches RecoveryStepView::Call(call, _) && call
            is Refresh,
    ensures
        recovery.stage matches RecoveryStageView::First(retries) && retries.with_oauth,
        event matches RecoveryEventView::Initialize(inner) && match inner {
            InitializeEventView::ConnectFailed(chain) => crate::retry::chain_rejected_token(chain)
                is Some,
            InitializeEventView::CreateFailed(chain) => crate::retry::chain_rejected_token(chain)
                is Some,
            _ => false,
        },
{
}

} // verus!
