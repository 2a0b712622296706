//! Which failures to open a connection are worth another attempt, and how long one may take.

use vstd::prelude::*;

use crate::clock::MonotonicClock;
use crate::duration::Duration;
use crate::text::{chars_of, contains, joined, same_text, starts_with};

verus! {

/// The code of a JSON-RPC internal error.
pub const JSON_RPC_INTERNAL_ERROR_CODE: i64 = -32603;

/// Why the process that makes HTTP requests failed to make one.
#[derive(Clone, Debug, PartialEq)]
pub enum ExecServerError {
    /// The request failed.
    HttpRequest(String),
    /// The process answered with an error.
    Server { code: i64, message: String },
    /// The process did not keep to its protocol.
    Protocol(String),
    Other,
}

/// What `ExecServerError` stands for.
#[verifier::ext_equal]
pub enum ExecServerErrorView {
    HttpRequest(Seq<char>),
    Server { code: i64, message: Seq<char> },
    Protocol(Seq<char>),
    Other,
}

impl DeepView for ExecServerError {
    type V = ExecServerErrorView;

    open spec fn deep_view(&self) -> ExecServerErrorView {
        match self {
            ExecServerError::HttpRequest(value) => ExecServerErrorView::HttpRequest(value@),
            ExecServerError::Server { code, message } => ExecServerErrorView::Server {
                code: *code,
                message: message@,
            },
            ExecServerError::Protocol(value) => ExecServerErrorView::Protocol(value@),
            ExecServerError::Other => ExecServerErrorView::Other,
        }
    }
}

/// Why the HTTP client failed.
#[derive(Clone, Debug, PartialEq)]
pub enum HttpClientError {
    SessionExpired404,
    /// The server rejected this access token.
    AccessTokenRejected { rejected_access_token: String },
    /// The credentials could not be refreshed.
    OAuth(String),
    HttpRequest(ExecServerError),
    Header(String),
}

/// What `HttpClientError` stands for.
#[verifier::ext_equal]
pub enum HttpClientErrorView {
    SessionExpired404,
    AccessTokenRejected { rejected_access_token: Seq<char> },
    OAuth(Seq<char>),
    HttpRequest(ExecServerErrorView),
    Header(Seq<char>),
}

impl DeepView for HttpClientError {
    type V = HttpClientErrorView;

    open spec fn deep_view(&self) -> HttpClientErrorView {
        match self {
            HttpClientError::SessionExpired404 => HttpClientErrorView::SessionExpired404,
            HttpClientError::AccessTokenRejected { rejected_access_token } =>
                HttpClientErrorView::AccessTokenRejected {
                rejected_access_token: rejected_access_token@,
            },
            HttpClientError::OAuth(value) => HttpClientErrorView::OAuth(value@),
            HttpClientError::HttpRequest(value) =>
                HttpClientErrorView::HttpRequest(value.deep_view()),
            HttpClientError::Header(value) => HttpClientErrorView::Header(value@),
        }
    }
}

/// Why a message could not be sent over HTTP.
#[derive(Clone, Debug, PartialEq)]
pub enum StreamableHttpError {
    Client(HttpClientError),
    UnexpectedServerResponse(String),
    AuthRequired,
    InsufficientScope,
    SessionExpired,
    UnexpectedContentType,
    ServerDoesNotSupportSse,
    Deserialize,
    TransportChannelClosed,
    Other,
}

/// What `StreamableHttpError` stands for.
#[verifier::ext_equal]
pub enum StreamableHttpErrorView {
    Client(HttpClientErrorView),
    UnexpectedServerResponse(Seq<char>),
    AuthRequired,
    InsufficientScope,
    SessionExpired,
    UnexpectedContentType,
    ServerDoesNotSupportSse,
    Deserialize,
    TransportChannelClosed,
    Other,
}

impl DeepView for StreamableHttpError {
    type V = StreamableHttpErrorView;

    open spec fn deep_view(&self) -> StreamableHttpErrorView {
        match self {
            StreamableHttpError::Client(value) =>
                StreamableHttpErrorView::Client(value.deep_view()),
            StreamableHttpError::UnexpectedServerResponse(value) =>
                StreamableHttpErrorView::UnexpectedServerResponse(value@),
            StreamableHttpError::AuthRequired => StreamableHttpErrorView::AuthRequired,
            StreamableHttpError::InsufficientScope => StreamableHttpErrorView::InsufficientScope,
            StreamableHttpError::SessionExpired => StreamableHttpErrorView::SessionExpired,
            StreamableHttpError::UnexpectedContentType =>
                StreamableHttpErrorView::UnexpectedContentType,
            StreamableHttpError::ServerDoesNotSupportSse =>
                StreamableHttpErrorView::ServerDoesNotSupportSse,
            StreamableHttpError::Deserialize => StreamableHttpErrorView::Deserialize,
            StreamableHttpError::TransportChannelClosed =>
                StreamableHttpErrorView::TransportChannelClosed,
            StreamableHttpError::Other => StreamableHttpErrorView::Other,
        }
    }
}

/// Why the handshake with a server failed.
#[derive(Clone, Debug, PartialEq)]
pub enum ClientInitializeError {
    /// A message could not be sent, over HTTP or otherwise; and what it was to do.
    TransportError { error: Option<StreamableHttpError>, context: String },
    Other,
}

/// What `ClientInitializeError` stands for.
#[verifier::ext_equal]
pub enum ClientInitializeErrorView {
    TransportError { error: Option<StreamableHttpErrorView>, context: Seq<char> },
    Other,
}

impl DeepView for ClientInitializeError {
    type V = ClientInitializeErrorView;

    open spec fn deep_view(&self) -> ClientInitializeErrorView {
        match self {
            ClientInitializeError::TransportError { error, context } =>
                ClientInitializeErrorView::TransportError {
                error: error.deep_view(),
                context: context@,
            },
            ClientInitializeError::Other => ClientInitializeErrorView::Other,
        }
    }
}

/// One error of a chain in which each was caused by the next.
#[derive(Clone, Debug, PartialEq)]
pub enum ErrorLink {
    Handshake(ClientInitializeError),
    Initialize(ClientInitializeError),
    Other,
}

/// What `ErrorLink` stands for.
#[verifier::ext_equal]
pub enum ErrorLinkView {
    Handshake(ClientInitializeErrorView),
    Initialize(ClientInitializeErrorView),
    Other,
}

impl DeepView for ErrorLink {
    type V = ErrorLinkView;

    open spec fn deep_view(&self) -> ErrorLinkView {
        match self {
            ErrorLink::Handshake(value) => ErrorLinkView::Handshake(value.deep_view()),
            ErrorLink::Initialize(value) => ErrorLinkView::Initialize(value.deep_view()),
            ErrorLink::Other => ErrorLinkView::Other,
        }
    }
}

/// An ASCII digit.
pub open spec fn is_digit(c: char) -> bool {
    '0' <= c && c <= '9'
}

/// The digits that `s` starts with.
pub open spec fn leading_digits(s: Seq<char>) -> Seq<char>
    decreases s.len(),
{
    if s.len() > 0 && is_digit(s[0]) {
        seq![s[0]] + leading_digits(s.drop_first())
    } else {
        seq![]
    }
}

/// The number that is written with the decimal digits `s`.
pub open spec fn digits_value(s: Seq<char>) -> nat
    decreases s.len(),
{
    if s.len() == 0 {
        0
    } else {
        10 * digits_value(s.drop_last()) + (s.last() as nat - '0' as nat) as nat
    }
}

/// HTTP statuses that may pass: request timeout, too many requests, internal server error, bad
/// gateway, service unavailable and gateway timeout.
pub open spec fn status_may_pass(status: nat) -> bool {
    status == 408 || status == 429 || status == 500 || status == 502 || status == 503 || status
        == 504
}

/// The response reports an HTTP status that may pass: it starts with `HTTP ` and the status.
pub open spec fn response_may_pass(message: Seq<char>) -> bool {
    let digits = leading_digits(message.skip(5));
    "HTTP "@.is_prefix_of(message) && digits.len() > 0 && status_may_pass(digits_value(digits))
}

/// Calls `StatusCode::from_u16` of the crate `http`, as `reqwest` gives it out, and turns the
/// status back into its number: the numbers from 100 to 999 are statuses, and no others.
#[verifier::external_body]
fn http_status(code: u16) -> (status: Option<u16>)
    ensures
        status == if 100 <= code <= 999 {
            Some(code)
        } else {
            None
        },
{
    match reqwest::StatusCode::from_u16(code) {
        Ok(status) => Some(status.as_u16()),
        Err(_) => None,
    }
}

/// Tests whether an HTTP status may pass.
pub fn is_retryable_http_status(status: u16) -> (r: bool)
    ensures
        r == status_may_pass(status as nat),
{
    status == 408 || status == 429 || status == 500 || status == 502 || status == 503 || status
        == 504
}

proof fn lemma_leading_digits(s: Seq<char>, count: int)
    requires
        0 <= count <= s.len(),
        forall|i: int| 0 <= i < count ==> is_digit(#[trigger] s[i]),
        count < s.len() ==> !is_digit(s[count]),
    ensures
        leading_digits(s) == s.take(count),
    decreases count,
{
    if count > 0 {
        let rest = s.drop_first();
        assert forall|i: int| 0 <= i < count - 1 implies is_digit(#[trigger] rest[i]) by {
            assert(rest[i] == s[i + 1]);
        }
        lemma_leading_digits(rest, count - 1);
        assert(is_digit(s[0]));
        assert(seq![s[0]] + rest.take(count - 1) =~= s.take(count));
    } else {
        assert(s.take(0) =~= seq![]);
    }
}

/// Reads the number at the start of `chars`, from `from` on, if it is one of at most 16 bits.
fn parse_leading_u16(chars: &Vec<char>, from: usize) -> (r: Option<u16>)
    requires
        from <= chars@.len(),
    ensures
        ({
            let digits = leading_digits(chars@.skip(from as int));
            r == if digits.len() > 0 && digits_value(digits) <= u16::MAX {
                Some(digits_value(digits) as u16)
            } else {
                None
            }
        }),
{
    let ghost text = chars@.skip(from as int);
    let mut index: usize = from;
    let mut value: u32 = 0;
    while index < chars.len() && '0' <= chars[index] && chars[index] <= '9'
        invariant
            from <= index <= chars@.len(),
            text == chars@.skip(from as int),
            forall|i: int| 0 <= i < index - from ==> is_digit(#[trigger] text[i]),
            value <= 65536,
            value == if digits_value(text.take(index - from)) <= 65535 {
                digits_value(text.take(index - from))
            } else {
                65536
            },
        decreases chars@.len() - index,
    {
        let c: char = chars[index];
        let digit: u32 = c as u32 - '0' as u32;
        proof {
            assert(text[index - from] == c);
            assert(text.take(index + 1 - from).drop_last() =~= text.take(index - from));
            assert(text.take(index + 1 - from).last() == c);
        }
        value = if value > 6553 || value * 10 + digit > 65535 {
            65536
        } else {
            value * 10 + digit
        };
        index += 1;
    }
    proof {
        if index < chars@.len() {
            assert(text[index - from] == chars@[index as int]);
        }
        lemma_leading_digits(text, index - from);
    }
    if index > from && value <= 65535 {
        Some(value as u16)
    } else {
        None
    }
}

/// Tests whether a server's response reports a status that may pass.
pub fn is_retryable_unexpected_server_response(message: &str) -> (r: bool)
    ensures
        r == response_may_pass(message@),
{
    proof {
        reveal_strlit("HTTP ");
    }
    if !starts_with(message, "HTTP ") {
        return false;
    }
    let chars = chars_of(message);
    match parse_leading_u16(&chars, 5) {
        Some(code) => match http_status(code) {
            Some(status) => is_retryable_http_status(status),
            None => false,
        },
        None => false,
    }
}

impl StreamableHttpErrorView {
    /// The failure to send a message may pass.
    pub open spec fn may_pass(self) -> bool {
        match self {
            StreamableHttpErrorView::Client(HttpClientErrorView::HttpRequest(error)) => match error {
                ExecServerErrorView::HttpRequest(_) => true,
                ExecServerErrorView::Server { code, message } => code
                    == JSON_RPC_INTERNAL_ERROR_CODE && "http/request failed:"@.is_prefix_of(message),
                ExecServerErrorView::Protocol(message) => "http response stream `"@.is_prefix_of(
                    message,
                ) && crate::text::contains_text(message, "` failed:"@),
                ExecServerErrorView::Other => false,
            },
            StreamableHttpErrorView::UnexpectedServerResponse(message) => response_may_pass(
                message,
            ),
            _ => false,
        }
    }

    /// The access token that the server rejected.
    pub open spec fn rejected_token(self) -> Option<Seq<char>> {
        match self {
            StreamableHttpErrorView::Client(
                HttpClientErrorView::AccessTokenRejected { rejected_access_token },
            ) => Some(rejected_access_token),
            _ => None,
        }
    }
}

impl ClientInitializeErrorView {
    /// The failure of the handshake may pass. A closed channel may pass only once the handshake
    /// was answered.
    pub open spec fn may_pass(self) -> bool {
        match self {
            ClientInitializeErrorView::TransportError { error: Some(error), context } => {
                ||| context == "send initialize request"@ && error.may_pass()
                ||| context == "send initialized notification"@ && (error is TransportChannelClosed
                    || error.may_pass())
            },
            _ => false,
        }
    }

    /// The access token that the server rejected.
    pub open spec fn rejected_token(self) -> Option<Seq<char>> {
        match self {
            ClientInitializeErrorView::TransportError { error: Some(error), context } =>
                error.rejected_token(),
            _ => None,
        }
    }
}

impl ErrorLinkView {
    /// The failure of the handshake that the error reports may pass.
    pub open spec fn may_pass(self) -> bool {
        match self {
            ErrorLinkView::Handshake(error) => error.may_pass(),
            ErrorLinkView::Initialize(error) => error.may_pass(),
            ErrorLinkView::Other => false,
        }
    }

    /// The access token that was rejected during the handshake that the error reports.
    pub open spec fn rejected_token(self) -> Option<Seq<char>> {
        match self {
            ErrorLinkView::Handshake(error) => error.rejected_token(),
            ErrorLinkView::Initialize(error) => error.rejected_token(),
            ErrorLinkView::Other => None,
        }
    }
}

/// Some error of the chain may pass.
pub open spec fn chain_may_pass(chain: Seq<ErrorLinkView>) -> bool {
    exists|i: int| 0 <= i < chain.len() && (#[trigger] chain[i]).may_pass()
}

/// The first access token that an error of the chain reports as rejected.
pub open spec fn chain_rejected_token(chain: Seq<ErrorLinkView>) -> Option<Seq<char>>
    decreases chain.len(),
{
    if chain.len() == 0 {
        None
    } else if chain[0].rejected_token() is Some {
        chain[0].rejected_token()
    } else {
        chain_rejected_token(chain.drop_first())
    }
}

/// Tests whether a failure to send a message may pass.
pub fn is_retryable_streamable_http_error(error: &StreamableHttpError) -> (r: bool)
    ensures
        r == error.deep_view().may_pass(),
{
    match error {
        StreamableHttpError::Client(HttpClientError::HttpRequest(error)) => match error {
            ExecServerError::HttpRequest(_) => true,
            ExecServerError::Server { code, message } => *code == JSON_RPC_INTERNAL_ERROR_CODE
                && starts_with(message.as_str(), "http/request failed:"),
            ExecServerError::Protocol(message) => starts_with(
                message.as_str(),
                "http response stream `",
            ) && contains(message.as_str(), "` failed:"),
            ExecServerError::Other => false,
        },
        StreamableHttpError::UnexpectedServerResponse(message) =>
            is_retryable_unexpected_server_response(message.as_str()),
        _ => false,
    }
}

/// Returns the access token that the server rejected.
pub fn rejected_access_token(error: &StreamableHttpError) -> (token: Option<String>)
    ensures
        token.deep_view() == error.deep_view().rejected_token(),
{
    match error {
        StreamableHttpError::Client(
            HttpClientError::AccessTokenRejected { rejected_access_token },
        ) => Some(rejected_access_token.clone()),
        _ => None,
    }
}

/// Tests whether a failure of the handshake may pass.
pub fn is_retryable_client_initialize_error(error: &ClientInitializeError) -> (r: bool)
    ensures
        r == error.deep_view().may_pass(),
{
    match error {
        ClientInitializeError::TransportError { error: Some(error), context } => {
            if same_text(context.as_str(), "send initialize request") {
                proof {
                    reveal_strlit("send initialize request");
                    reveal_strlit("send initialized notification");
                    assert("send initialize request"@.len()
                        != "send initialized notification"@.len());
                }
                is_retryable_streamable_http_error(error)
            } else if same_text(context.as_str(), "send initialized notification") {
                matches!(error, StreamableHttpError::TransportChannelClosed)
                    || is_retryable_streamable_http_error(error)
            } else {
                false
            }
        },
        _ => false,
    }
}

/// Returns the access token that was rejected during the handshake.
pub fn rejected_access_token_from_client_initialize_error(
    error: &ClientInitializeError,
) -> (token: Option<String>)
    ensures
        token.deep_view() == error.deep_view().rejected_token(),
{
    match error {
        ClientInitializeError::TransportError { error: Some(error), .. } => rejected_access_token(
            error,
        ),
        _ => None,
    }
}

/// Tests whether a chain of errors reports a failure of the handshake that may pass.
pub fn is_retryable_initialize_error(chain: &Vec<ErrorLink>) -> (r: bool)
    ensures
        r == chain_may_pass(chain.deep_view()),
{
    let mut index: usize = 0;
    while index < chain.len()
        invariant
            index <= chain@.len(),
            forall|i: int| 0 <= i < index ==> !(#[trigger] chain.deep_view()[i]).may_pass(),
        decreases chain@.len() - index,
    {
        let retryable = match &chain[index] {
            ErrorLink::Handshake(error) => is_retryable_client_initialize_error(error),
            ErrorLink::Initialize(error) => is_retryable_client_initialize_error(error),
            ErrorLink::Other => false,
        };
        assert(chain.deep_view()[index as int] == chain@[index as int].deep_view());
        if retryable {
            return true;
        }
        index += 1;
    }
    false
}

/// Returns the first access token that a chain of errors reports as rejected.
pub fn rejected_access_token_from_initialize_error(chain: &Vec<ErrorLink>) -> (token: Option<
    String,
>)
    ensures
        token.deep_view() == chain_rejected_token(chain.deep_view()),
{
    let ghost views = chain.deep_view();
    let mut index: usize = 0;
    assert(views.skip(0) =~= views);
    while index < chain.len()
        invariant
            index <= chain@.len(),
            views == chain.deep_view(),
            chain_rejected_token(views) == chain_rejected_token(views.skip(index as int)),
        decreases chain@.len() - index,
    {
        let token = match &chain[index] {
            ErrorLink::Handshake(error) =>
                rejected_access_token_from_client_initialize_error(error),
            ErrorLink::Initialize(error) => rejected_access_token_from_client_initialize_error(
                error,
            ),
            ErrorLink::Other => None,
        };
        proof {
            assert(views.skip(index as int)[0] == chain@[index as int].deep_view());
            assert(views.skip(index as int).drop_first() =~= views.skip(index + 1));
        }
        if token.is_some() {
            return token;
        }
        index += 1;
    }
    None
}

/// The handshake took too long.
#[derive(Clone, Debug, PartialEq, Eq)]
pub struct HandshakeTimeout {
    pub message: String,
}

impl DeepView for HandshakeTimeout {
    type V = Seq<char>;

    open spec fn deep_view(&self) -> Seq<char> {
        self.message@
    }
}

/// What is reported of a handshake that took longer than `timeout`, or than `fallback` where there
/// is no timeout.
pub open spec fn timeout_message(timeout: Option<nat>, fallback: nat) -> Seq<char> {
    "timed out handshaking with MCP server after "@ + crate::duration::debug_text(
        match timeout {
            Some(span) => span,
            None => fallback,
        },
    )
}

/// Makes the error for a handshake that took longer than `timeout`, or than `fallback` where there
/// is no timeout.
pub fn initialize_timeout_error(timeout: Option<Duration>, fallback: Duration) -> (error:
    HandshakeTimeout)
    ensures
        error.deep_view() == timeout_message(timeout.deep_view(), fallback@),
{
    let span = match timeout {
        Some(span) => span,
        None => fallback,
    };
    HandshakeTimeout {
        message: joined(
            "timed out handshaking with MCP server after ",
            span.debug_string().as_str(),
        ),
    }
}

/// The time from `now` to `deadline`, none where it has passed.
pub open spec fn time_left(deadline: nat, now: nat) -> nat {
    if deadline >= now {
        (deadline - now) as nat
    } else {
        0
    }
}

/// The time that is left for a handshake: without a deadline there is no limit, and a deadline
/// that has passed is an error.
pub open spec fn handshake_limit(timeout: Option<nat>, deadline: Option<nat>, now: nat) -> Result<
    Option<nat>,
    Seq<char>,
> {
    match deadline {
        Some(at) => if time_left(at, now) == 0 {
            Err(timeout_message(timeout, 0))
        } else {
            Ok(Some(time_left(at, now)))
        },
        None => Ok(None),
    }
}

/// Tells how much time is left at `now` for a handshake that is to end by `deadline`.
pub fn remaining_initialize_timeout_at(
    timeout: Option<Duration>,
    deadline: Option<Duration>,
    now: &Duration,
) -> (r: Result<Option<Duration>, HandshakeTimeout>)
    ensures
        match r {
            Ok(limit) => handshake_limit(timeout.deep_view(), deadline.deep_view(), now@) == Ok::<
                Option<nat>,
                Seq<char>,
            >(limit.deep_view()),
            Err(error) => handshake_limit(timeout.deep_view(), deadline.deep_view(), now@) == Err::<
                Option<nat>,
                Seq<char>,
            >(error.deep_view()),
        },
{
    match deadline {
        Some(at) => {
            let remaining = at.saturating_sub(now);
            if remaining.is_zero() {
                Err(initialize_timeout_error(timeout, remaining))
            } else {
                Ok(Some(remaining))
            }
        },
        None => Ok(None),
    }
}

/// Tells how much time is left for a handshake that is to end by `deadline`, on `clock`.
pub fn remaining_initialize_timeout(
    timeout: Option<Duration>,
    deadline: Option<Duration>,
    clock: &MonotonicClock,
) -> (r: Result<Option<Duration>, HandshakeTimeout>)
    ensures
        deadline is None ==> r == Ok::<Option<Duration>, HandshakeTimeout>(None),
        deadline matches Some(at) && at@ == 0 ==> r is Err,
        deadline is Some && r is Ok ==> (r->Ok_0) is Some,
        exists|now: nat|
            now < crate::duration::duration_limit() && match r {
                Ok(limit) => #[trigger] handshake_limit(
                    timeout.deep_view(),
                    deadline.deep_view(),
                    now,
                ) == Ok::<Option<nat>, Seq<char>>(limit.deep_view()),
                Err(error) => handshake_limit(timeout.deep_view(), deadline.deep_view(), now)
                    == Err::<Option<nat>, Seq<char>>(error.deep_view()),
            },
{
    let now = clock.now();
    remaining_initialize_timeout_at(timeout, deadline, &now)
}

} // verus!
