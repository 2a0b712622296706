//! The credentials of requests over HTTP.
//!
//! The transport owns the answers that it posts to requests of the server, the streams that it
//! opens and the sessions that it deletes: before each of them the credentials are refreshed if
//! they need it, and where the server rejects the access token, they are refreshed once more and
//! the request is repeated once. What the client posts of its own accord is sent as it is: its
//! caller knows how long it may take, and repeats it where there is time.

use vstd::prelude::*;

use crate::retry::{
    rejected_access_token, HttpClientError, HttpClientErrorView, StreamableHttpError,
    StreamableHttpErrorView,
};

verus! {

/// What is posted.
#[derive(Clone, Copy, Debug, PartialEq, Eq, Structural)]
pub enum MessageKind {
    Request,
    Notification,
    /// An answer to a request of the server.
    Response,
    /// An answer to a request of the server that says that it failed.
    Error,
}

/// What is sent.
#[derive(Clone, Copy, Debug, PartialEq, Eq, Structural)]
pub enum TransportOperation {
    PostMessage,
    DeleteSession,
    GetStream,
}

/// A call to make.
#[derive(Clone, Debug, PartialEq)]
pub enum TransportCall {
    /// Refresh the credentials if they need it.
    Preflight { operation: TransportOperation },
    /// Send the request with the credentials at hand.
    Send,
    /// Refresh the credentials, whose access token was rejected.
    Recover { operation: TransportOperation, rejected_access_token: String },
}

/// What `TransportCall` stands for.
#[verifier::ext_equal]
pub enum TransportCallView {
    Preflight { operation: TransportOperation },
    Send,
    Recover { operation: TransportOperation, rejected_access_token: Seq<char> },
}

impl DeepView for TransportCall {
    type V = TransportCallView;

    open spec fn deep_view(&self) -> TransportCallView {
        match self {
            TransportCall::Preflight { operation } => TransportCallView::Preflight {
                operation: *operation,
            },
            TransportCall::Send => TransportCallView::Send,
            TransportCall::Recover { operation, rejected_access_token } =>
                TransportCallView::Recover {
                operation: *operation,
                rejected_access_token: rejected_access_token@,
            },
        }
    }
}

/// What a call gave back.
#[derive(Debug, PartialEq)]
pub enum TransportEvent {
    Preflighted(Result<(), String>),
    /// The request was sent and answered.
    Delivered,
    SendFailed(StreamableHttpError),
    Recovered(Result<(), String>),
}

/// What `TransportEvent` stands for.
#[verifier::ext_equal]
pub enum TransportEventView {
    Preflighted(Result<(), Seq<char>>),
    Delivered,
    SendFailed(StreamableHttpErrorView),
    Recovered(Result<(), Seq<char>>),
}

impl DeepView for TransportEvent {
    type V = TransportEventView;

    open spec fn deep_view(&self) -> TransportEventView {
        match self {
            TransportEvent::Preflighted(value) => TransportEventView::Preflighted(match value {
                Ok(()) => Ok(()),
                Err(value) => Err(value.deep_view()),
            }),
            TransportEvent::Delivered => TransportEventView::Delivered,
            TransportEvent::SendFailed(value) => TransportEventView::SendFailed(value.deep_view()),
            TransportEvent::Recovered(value) => TransportEventView::Recovered(match value {
                Ok(()) => Ok(()),
                Err(value) => Err(value.deep_view()),
            }),
        }
    }
}

/// What is returned.
#[derive(Clone, Debug, PartialEq)]
pub enum TransportOutcome {
    /// What the request that was sent last gave back.
    LastResult,
    /// This error.
    Failed(StreamableHttpError),
}

/// What `TransportOutcome` stands for.
#[verifier::ext_equal]
pub enum TransportOutcomeView {
    LastResult,
    Failed(StreamableHttpErrorView),
}

impl DeepView for TransportOutcome {
    type V = TransportOutcomeView;

    open spec fn deep_view(&self) -> TransportOutcomeView {
        match self {
            TransportOutcome::LastResult => TransportOutcomeView::LastResult,
            TransportOutcome::Failed(value) => TransportOutcomeView::Failed(value.deep_view()),
        }
    }
}

/// What a request waits for.
#[derive(Clone, Copy, Debug, PartialEq, Eq, Structural)]
pub enum TransportStage {
    Preflighting,
    Sending,
    Recovering,
    /// The second answer.
    Resending,
}

/// A request that waits for what a call gives back.
#[derive(Clone, Debug, PartialEq)]
pub struct TransportRequest {
    pub operation: TransportOperation,
    pub transport_owned: bool,
    pub stage: TransportStage,
}

/// What `TransportRequest` stands for.
#[verifier::ext_equal]
pub struct TransportRequestView {
    pub operation: TransportOperation,
    pub transport_owned: bool,
    pub stage: TransportStage,
}

impl DeepView for TransportRequest {
    type V = TransportRequestView;

    open spec fn deep_view(&self) -> TransportRequestView {
        TransportRequestView {
            operation: self.operation,
            transport_owned: self.transport_owned,
            stage: self.stage,
        }
    }
}

/// What a request needs next: a call, or nothing, because it is done.
#[derive(Clone, Debug, PartialEq)]
pub enum TransportStep {
    Call(TransportCall, TransportRequest),
    Done(TransportOutcome),
}

/// What `TransportStep` stands for.
#[verifier::ext_equal]
pub enum TransportStepView {
    Call(TransportCallView, TransportRequestView),
    Done(TransportOutcomeView),
}

impl DeepView for TransportStep {
    type V = TransportStepView;

    open spec fn deep_view(&self) -> TransportStepView {
        match self {
            TransportStep::Call(value0, value1) =>
                TransportStepView::Call(value0.deep_view(), value1.deep_view()),
            TransportStep::Done(value) => TransportStepView::Done(value.deep_view()),
        }
    }
}

impl MessageKind {
    /// The transport posts such a message of its own accord.
    pub open spec fn transport_owned(self) -> bool {
        self == MessageKind::Response || self == MessageKind::Error
    }
}

impl TransportOperation {
    /// The name of the operation.
    pub open spec fn text(self) -> Seq<char> {
        match self {
            TransportOperation::PostMessage => "post_message"@,
            TransportOperation::DeleteSession => "delete_session"@,
            TransportOperation::GetStream => "get_stream"@,
        }
    }

    /// The name of the operation.
    pub fn as_str(self) -> (text: &'static str)
        ensures
            text@ == self.text(),
    {
        match self {
            TransportOperation::PostMessage => "post_message",
            TransportOperation::DeleteSession => "delete_session",
            TransportOperation::GetStream => "get_stream",
        }
    }
}

/// The error for credentials that could not be refreshed.
pub open spec fn oauth_error(message: Seq<char>) -> StreamableHttpErrorView {
    StreamableHttpErrorView::Client(HttpClientErrorView::OAuth(message))
}

/// Makes the error for credentials that could not be refreshed.
pub fn oauth_transport_error(message: String) -> (error: StreamableHttpError)
    ensures
        error.deep_view() == oauth_error(message@),
{
    StreamableHttpError::Client(HttpClientError::OAuth(message))
}

impl TransportRequestView {
    /// The request is begun.
    pub open spec fn begin(operation: TransportOperation, transport_owned: bool) ->
        TransportStepView {
        if transport_owned {
            TransportStepView::Call(
                TransportCallView::Preflight { operation },
                TransportRequestView {
                    operation,
                    transport_owned,
                    stage: TransportStage::Preflighting,
                },
            )
        } else {
            TransportStepView::Call(
                TransportCallView::Send,
                TransportRequestView { operation, transport_owned, stage: TransportStage::Sending },
            )
        }
    }

    /// The request waits for an event of this kind.
    pub open spec fn accepts(self, event: TransportEventView) -> bool {
        match self.stage {
            TransportStage::Preflighting => event is Preflighted,
            TransportStage::Sending => event is Delivered || event is SendFailed,
            TransportStage::Recovering => event is Recovered,
            TransportStage::Resending => event is Delivered || event is SendFailed,
        }
    }

    /// What the request needs once its call gave back `event`.
    pub open spec fn resume(self, event: TransportEventView) -> TransportStepView {
        match (self.stage, event) {
            (TransportStage::Preflighting, TransportEventView::Preflighted(result)) => match result {
                Ok(_) => TransportStepView::Call(
                    TransportCallView::Send,
                    TransportRequestView { stage: TransportStage::Sending, ..self },
                ),
                Err(message) => TransportStepView::Done(
                    TransportOutcomeView::Failed(oauth_error(message)),
                ),
            },
            (TransportStage::Sending, TransportEventView::SendFailed(error)) => match (
                self.transport_owned,
                error.rejected_token(),
            ) {
                (true, Some(token)) => TransportStepView::Call(
                    TransportCallView::Recover {
                        operation: self.operation,
                        rejected_access_token: token,
                    },
                    TransportRequestView { stage: TransportStage::Recovering, ..self },
                ),
                _ => TransportStepView::Done(TransportOutcomeView::LastResult),
            },
            (TransportStage::Recovering, TransportEventView::Recovered(result)) => match result {
                Ok(_) => TransportStepView::Call(
                    TransportCallView::Send,
                    TransportRequestView { stage: TransportStage::Resending, ..self },
                ),
                Err(message) => TransportStepView::Done(
                    TransportOutcomeView::Failed(oauth_error(message)),
                ),
            },
            _ => TransportStepView::Done(TransportOutcomeView::LastResult),
        }
    }
}

impl TransportRequest {
    fn begin(operation: TransportOperation, transport_owned: bool) -> (step: TransportStep)
        ensures
            step.deep_view() == TransportRequestView::begin(operation, transport_owned),
    {
        if transport_owned {
            TransportStep::Call(
                TransportCall::Preflight { operation },
                TransportRequest {
                    operation,
                    transport_owned,
                    stage: TransportStage::Preflighting,
                },
            )
        } else {
            TransportStep::Call(
                TransportCall::Send,
                TransportRequest { operation, transport_owned, stage: TransportStage::Sending },
            )
        }
    }

    /// Posts a message of this kind.
    pub fn post_message(kind: MessageKind) -> (step: TransportStep)
        ensures
            step.deep_view() == TransportRequestView::begin(
                TransportOperation::PostMessage,
                kind.transport_owned(),
            ),
    {
        let transport_owned = kind == MessageKind::Response || kind == MessageKind::Error;
        TransportRequest::begin(TransportOperation::PostMessage, transport_owned)
    }

    /// Deletes a session.
    pub fn delete_session() -> (step: TransportStep)
        ensures
            step.deep_view() == TransportRequestView::begin(
                TransportOperation::DeleteSession,
                true,
            ),
    {
        TransportRequest::begin(TransportOperation::DeleteSession, true)
    }

    /// Opens a stream.
    pub fn get_stream() -> (step: TransportStep)
        ensures
            step.deep_view() == TransportRequestView::begin(TransportOperation::GetStream, true),
    {
        TransportRequest::begin(TransportOperation::GetStream, true)
    }

    /// Tests whether the request waits for an event of this kind.
    pub fn accepts(&self, event: &TransportEvent) -> (r: bool)
        ensures
            r == self.deep_view().accepts(event.deep_view()),
    {
        let answered = matches!(event, TransportEvent::Delivered) || matches!(
            event,
            TransportEvent::SendFailed(_)
        );
        match self.stage {
            TransportStage::Preflighting => matches!(event, TransportEvent::Preflighted(_)),
            TransportStage::Sending => answered,
            TransportStage::Recovering => matches!(event, TransportEvent::Recovered(_)),
            TransportStage::Resending => answered,
        }
    }

    fn send(self, stage: TransportStage) -> (step: TransportStep)
        ensures
            step.deep_view() == TransportStepView::Call(
                TransportCallView::Send,
                TransportRequestView { stage, ..self.deep_view() },
            ),
    {
        TransportStep::Call(
            TransportCall::Send,
            TransportRequest {
                operation: self.operation,
                transport_owned: self.transport_owned,
                stage,
            },
        )
    }

    /// Goes on with what the call gave back.
    pub fn resume(self, event: TransportEvent) -> (step: TransportStep)
        requires
            self.deep_view().accepts(event.deep_view()),
        ensures
            step.deep_view() == self.deep_view().resume(event.deep_view()),
    {
        match (self.stage, event) {
            (TransportStage::Preflighting, TransportEvent::Preflighted(result)) => match result {
                Ok(_) => self.send(TransportStage::Sending),
                Err(message) => TransportStep::Done(
                    TransportOutcome::Failed(oauth_transport_error(message)),
                ),
            },
            (TransportStage::Sending, TransportEvent::SendFailed(error)) => {
                let rejected = if self.transport_owned {
                    rejected_access_token(&error)
                } else {
                    None
                };
                match rejected {
                    Some(token) => TransportStep::Call(
                        TransportCall::Recover {
                            operation: self.operation,
                            rejected_access_token: token,
                        },
                        TransportRequest {
                            operation: self.operation,
                            transport_owned: self.transport_owned,
                            stage: TransportStage::Recovering,
                        },
                    ),
                    None => TransportStep::Done(TransportOutcome::LastResult),
                }
            },
            (TransportStage::Recovering, TransportEvent::Recovered(result)) => match result {
                Ok(_) => self.send(TransportStage::Resending),
                Err(message) => TransportStep::Done(
                    TransportOutcome::Failed(oauth_transport_error(message)),
                ),
            },
            _ => TransportStep::Done(TransportOutcome::LastResult),
        }
    }
}

impl TransportRequestView {
    /// How often the request can still be sent.
    pub open spec fn sends_left(self) -> nat {
        match self.stage {
            TransportStage::Preflighting => 2,
            TransportStage::Sending => 1,
            TransportStage::Recovering => 1,
            TransportStage::Resending => 0,
        }
    }
}

/// A request is sent at most twice, and its credentials are recovered at most once: sending uses
/// up one of the two, and only a recovery leads to the second.
pub proof fn law_at_most_one_recovery(request: TransportRequestView, event: TransportEventView)
    requires
        request.accepts(event),
    ensures
        request.resume(event) matches TransportStepView::Call(call, next) ==> {
            &&& next.operation == request.operation && next.transport_owned
                == request.transport_owned
            &&& call is Send ==> next.sends_left() < request.sends_left()
            &&& call is Recover ==> request.stage is Sending && next.stage is Recovering
            &&& next.stage is Resending ==> request.stage is Recovering
        },
        request.stage is Resending ==> request.resume(event) is Done,
{
}

/// What the client posts of its own accord is sent once, without a refresh before or after it.
pub proof fn law_client_messages_are_sent_once(kind: MessageKind, event: TransportEventView)
    requires
        !kind.transport_owned(),
        event is Delivered || event is SendFailed,
    ensures
        TransportRequestView::begin(
            TransportOperation::PostMessage,
            kind.transport_owned(),
        ) matches TransportStepView::Call(call, request) && call is Send && request.resume(event)
            == TransportStepView::Done(TransportOutcomeView::LastResult),
{
}

/// What the transport owns is not sent unless the credentials were found in order just before.
pub proof fn law_failed_preflight_blocks_the_request(
    operation: TransportOperation,
    message: Seq<char>,
)
    ensures
        TransportRequestView::begin(operation, true) matches TransportStepView::Call(
            call,
            request,
        ) && call == (TransportCallView::Preflight { operation }) && request.resume(
            TransportEventView::Preflighted(Err(message)),
        ) == TransportStepView::Done(TransportOutcomeView::Failed(oauth_error(message))),
{
}

/// What the transport owns is checked before it is sent; everything else is sent at once.
pub proof fn law_only_owned_requests_are_checked_first(
    operation: TransportOperation,
    transport_owned: bool,
)
    ensures
        TransportRequestView::begin(operation, transport_owned) matches TransportStepView::Call(
            call,
            request,
        ) && {
            &&& transport_owned ==> call == (TransportCallView::Preflight { operation })
                && request.stage == TransportStage::Preflighting
            &&& !transport_owned ==> call is Send && request.stage == TransportStage::Sending
            &&& request.operation == operation
            &&& request.transport_owned == transport_owned
        },
{
}

/// The transport owns the answers and the errors that it posts, and nothing else of what is
/// posted.
pub proof fn law_answers_belong_to_the_transport(kind: MessageKind)
    ensures
        kind.transport_owned() <==> (kind == MessageKind::Response || kind == MessageKind::Error),
{
}

/// Each operation goes by its own name.
pub proof fn law_operations_are_named()
    ensures
        TransportOperation::PostMessage.text() == "post_message"@,
        TransportOperation::DeleteSession.text() == "delete_session"@,
        TransportOperation::GetStream.text() == "get_stream"@,
{
}

/// A request whose credentials were found in order is sent. One that failed because its access
/// token was rejected has that token recovered, if the transport owns it, and is sent once more
/// if that succeeds; a recovery that fails ends the request with its message.
pub proof fn law_rejected_request_is_sent_once_more(
    request: TransportRequestView,
    error: StreamableHttpErrorView,
    token: Seq<char>,
    message: Seq<char>,
)
    ensures
        request.stage == TransportStage::Preflighting ==> {
            &&& request.resume(TransportEventView::Preflighted(Ok(()))) matches
                TransportStepView::Call(call, next)
            &&& call is Send
            &&& next.stage == TransportStage::Sending
        },
        request.stage == TransportStage::Sending && request.transport_owned
            && error.rejected_token() == Some(token) ==> {
            &&& request.resume(TransportEventView::SendFailed(error)) matches
                TransportStepView::Call(call, next)
            &&& call == (TransportCallView::Recover {
                operation: request.operation,
                rejected_access_token: token,
            })
            &&& next.stage == TransportStage::Recovering
        },
        request.stage == TransportStage::Recovering ==> {
            &&& request.resume(TransportEventView::Recovered(Ok(()))) matches
                TransportStepView::Call(call, next)
            &&& call is Send
            &&& next.stage == TransportStage::Resending
            &&& request.resume(TransportEventView::Recovered(Err(message))) matches
                TransportStepView::Done(TransportOutcomeView::Failed(reported))
            &&& reported == StreamableHttpErrorView::Client(HttpClientErrorView::OAuth(message))
        },
{
}

/// What was delivered, and what failed for any other reason or once more, is the result of the
/// request.
pub proof fn law_other_results_stand(
    request: TransportRequestView,
    error: StreamableHttpErrorView,
)
    ensures
        request.stage == TransportStage::Sending || request.stage == TransportStage::Resending
            ==> request.resume(TransportEventView::Delivered) == TransportStepView::Done(
            TransportOutcomeView::LastResult,
        ),
        request.stage == TransportStage::Sending && (!request.transport_owned
            || error.rejected_token() is None) ==> request.resume(
            TransportEventView::SendFailed(error),
        ) == TransportStepView::Done(TransportOutcomeView::LastResult),
        request.stage == TransportStage::Resending ==> request.resume(
            TransportEventView::SendFailed(error),
        ) == TransportStepView::Done(TransportOutcomeView::LastResult),
{
}

/// A request waits for what becomes of the call that it last made, and for nothing else.
pub proof fn law_requests_wait_for_their_call(
    request: TransportRequestView,
    event: TransportEventView,
)
    ensures
        request.stage == TransportStage::Preflighting ==> (request.accepts(event)
            <==> event is Preflighted),
        request.stage == TransportStage::Sending || request.stage == TransportStage::Resending ==> (
        request.accepts(event) <==> (event is Delivered || event is SendFailed)),
        request.stage == TransportStage::Recovering ==> (request.accepts(event)
            <==> event is Recovered),
{
}

} // verus!
