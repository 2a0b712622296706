//! Refreshing the credentials of a client in serialized transactions.
//!
//! A transaction is a series of calls: [`RefreshStep`] tells which call to make next, and
//! [`RefreshTransaction::resume`] takes what the call gave back. The authorization manager, which
//! puts tokens on requests, is given the refresh token and the lifetime only while a transaction
//! holds the lock of the credentials, so it cannot refresh on its own.

use vstd::prelude::*;
use vstd::string::StringExecFns;

use crate::clock::{time_of, unix_time};
use crate::duplicate::Duplicate;
use crate::duration::Duration;
use crate::oauth::error::{OAuthError, OAuthErrorView};
use crate::oauth::store::{
    load_oauth_tokens_from_store, persist_oauth_tokens, ResolvedOAuthCredentialStore,
    StoreOutcome, StoreOutcomeView, StoreStep, StoreStepView,
};
use crate::oauth::tokens::{
    compute_expires_at_millis_at, token_needs_refresh_at, OAuthTokenResponse,
    OAuthTokenResponseView, StoredOAuthTokens, StoredOAuthTokensView, WrappedOAuthTokenResponse,
};
use crate::text::{joined, same_text};

verus! {

/// How long the provider may take to answer a refresh request, in seconds.
pub const REFRESH_REQUEST_TIMEOUT_SECS: u64 = 45;

/// Which credentials the authorization manager is given.
#[derive(Clone, Copy, Debug, PartialEq, Eq, Structural)]
pub enum CredentialExposure {
    /// Those that requests need: neither the refresh token nor the lifetime.
    Request,
    /// All of them.
    Refresh,
}

/// The credentials that the authorization manager is given.
#[derive(Clone, Debug, PartialEq)]
pub struct StoredCredentials {
    pub client_id: String,
    pub token_response: OAuthTokenResponse,
    pub granted_scopes: Vec<String>,
    /// When the token was received, in seconds since the Unix epoch.
    pub token_received_at: Option<u64>,
}

/// What `StoredCredentials` stands for.
#[verifier::ext_equal]
pub struct StoredCredentialsView {
    pub client_id: Seq<char>,
    pub token_response: OAuthTokenResponseView,
    pub granted_scopes: Seq<Seq<char>>,
    pub token_received_at: Option<u64>,
}

impl DeepView for StoredCredentials {
    type V = StoredCredentialsView;

    open spec fn deep_view(&self) -> StoredCredentialsView {
        StoredCredentialsView {
            client_id: self.client_id@,
            token_response: self.token_response.deep_view(),
            granted_scopes: self.granted_scopes.deep_view(),
            token_received_at: self.token_received_at.deep_view(),
        }
    }
}

/// Why credentials are refreshed.
#[derive(Clone, Debug, PartialEq)]
pub enum RefreshReason {
    /// The access token is expired or about to expire.
    Expiry,
    /// A request with this access token was rejected.
    Unauthorized { rejected_access_token: String },
}

/// What `RefreshReason` stands for.
#[verifier::ext_equal]
pub enum RefreshReasonView {
    Expiry,
    Unauthorized { rejected_access_token: Seq<char> },
}

impl DeepView for RefreshReason {
    type V = RefreshReasonView;

    open spec fn deep_view(&self) -> RefreshReasonView {
        match self {
            RefreshReason::Expiry => RefreshReasonView::Expiry,
            RefreshReason::Unauthorized { rejected_access_token } =>
                RefreshReasonView::Unauthorized {
                rejected_access_token: rejected_access_token@,
            },
        }
    }
}

/// What the provider answered to a refresh request.
#[derive(Debug, PartialEq)]
pub enum ProviderReply {
    Token(OAuthTokenResponse),
    /// The request failed with a message.
    Failed(String),
    TimedOut,
}

/// What `ProviderReply` stands for.
#[verifier::ext_equal]
pub enum ProviderReplyView {
    Token(OAuthTokenResponseView),
    Failed(Seq<char>),
    TimedOut,
}

impl DeepView for ProviderReply {
    type V = ProviderReplyView;

    open spec fn deep_view(&self) -> ProviderReplyView {
        match self {
            ProviderReply::Token(value) => ProviderReplyView::Token(value.deep_view()),
            ProviderReply::Failed(value) => ProviderReplyView::Failed(value@),
            ProviderReply::TimedOut => ProviderReplyView::TimedOut,
        }
    }
}

/// Why the authorization manager did not take credentials, with the message of the failure.
#[derive(Debug, PartialEq)]
pub enum InstallFailure {
    /// The credentials could not be made ready for it.
    NotStaged(String),
    /// It failed to adopt them.
    NotAdopted(String),
}

/// What `InstallFailure` stands for.
#[verifier::ext_equal]
pub enum InstallFailureView {
    NotStaged(Seq<char>),
    NotAdopted(Seq<char>),
}

impl DeepView for InstallFailure {
    type V = InstallFailureView;

    open spec fn deep_view(&self) -> InstallFailureView {
        match self {
            InstallFailure::NotStaged(value) => InstallFailureView::NotStaged(value@),
            InstallFailure::NotAdopted(value) => InstallFailureView::NotAdopted(value@),
        }
    }
}

impl InstallFailureView {
    /// What is reported where the manager did not take credentials.
    pub open spec fn error(self) -> OAuthErrorView {
        match self {
            InstallFailureView::NotStaged(message) => OAuthErrorView::caused(
                "failed to stage OAuth tokens for authorization manager"@,
                message,
            ),
            InstallFailureView::NotAdopted(message) => OAuthErrorView::caused(
                "failed to adopt refreshed OAuth tokens"@,
                message,
            ),
        }
    }
}

impl InstallFailure {
    fn into_error(self) -> (error: OAuthError)
        ensures
            error.deep_view() == self.deep_view().error(),
    {
        match self {
            InstallFailure::NotStaged(message) => OAuthError::caused(
                "failed to stage OAuth tokens for authorization manager".to_owned(),
                message,
            ),
            InstallFailure::NotAdopted(message) => OAuthError::caused(
                "failed to adopt refreshed OAuth tokens".to_owned(),
                message,
            ),
        }
    }
}

/// A call to make.
#[derive(Debug, PartialEq)]
pub enum RefreshCall {
    /// Take the lock of a server's credentials, and hold it to the end of the transaction.
    LockRefresh { server_name: String, url: String },
    /// Carry out an operation on stored credentials.
    Store(StoreStep),
    /// Take all credentials from the authorization manager.
    ClearManager,
    /// Give the authorization manager credentials in place of those it has.
    Install { credentials: StoredCredentials, exposure: CredentialExposure },
    /// Have the authorization manager ask the provider for new tokens, for no longer than
    /// `timeout`.
    RequestRefresh { timeout: Duration },
}

/// What `RefreshCall` stands for.
#[verifier::ext_equal]
pub enum RefreshCallView {
    LockRefresh { server_name: Seq<char>, url: Seq<char> },
    Store(StoreStepView),
    ClearManager,
    Install { credentials: StoredCredentialsView, exposure: CredentialExposure },
    RequestRefresh { timeout: nat },
}

impl DeepView for RefreshCall {
    type V = RefreshCallView;

    open spec fn deep_view(&self) -> RefreshCallView {
        match self {
            RefreshCall::LockRefresh { server_name, url } => RefreshCallView::LockRefresh {
                server_name: server_name@,
                url: url@,
            },
            RefreshCall::Store(value) => RefreshCallView::Store(value.deep_view()),
            RefreshCall::ClearManager => RefreshCallView::ClearManager,
            RefreshCall::Install { credentials, exposure } => RefreshCallView::Install {
                credentials: credentials.deep_view(),
                exposure: *exposure,
            },
            RefreshCall::RequestRefresh { timeout } => RefreshCallView::RequestRefresh {
                timeout: timeout@,
            },
        }
    }
}

/// What a call gave back.
#[derive(Debug, PartialEq)]
pub enum RefreshReply {
    Locked(Result<(), String>),
    Stored(StoreOutcome),
    Cleared,
    Installed(Result<(), InstallFailure>),
    Refreshed(ProviderReply),
}

/// What `RefreshReply` stands for.
#[verifier::ext_equal]
pub enum RefreshReplyView {
    Locked(Result<(), Seq<char>>),
    Stored(StoreOutcomeView),
    Cleared,
    Installed(Result<(), InstallFailureView>),
    Refreshed(ProviderReplyView),
}

impl DeepView for RefreshReply {
    type V = RefreshReplyView;

    open spec fn deep_view(&self) -> RefreshReplyView {
        match self {
            RefreshReply::Locked(value) => RefreshReplyView::Locked(match value {
                Ok(()) => Ok(()),
                Err(value) => Err(value.deep_view()),
            }),
            RefreshReply::Stored(value) => RefreshReplyView::Stored(value.deep_view()),
            RefreshReply::Cleared => RefreshReplyView::Cleared,
            RefreshReply::Installed(value) => RefreshReplyView::Installed(match value {
                Ok(()) => Ok(()),
                Err(value) => Err(value.deep_view()),
            }),
            RefreshReply::Refreshed(value) => RefreshReplyView::Refreshed(value.deep_view()),
        }
    }
}

/// What a transaction means for the credentials that the client holds.
#[derive(Debug, PartialEq)]
pub enum CurrentCredentials {
    Keep,
    Clear,
    Replace(StoredOAuthTokens),
}

/// What `CurrentCredentials` stands for.
#[verifier::ext_equal]
pub enum CurrentCredentialsView {
    Keep,
    Clear,
    Replace(StoredOAuthTokensView),
}

impl DeepView for CurrentCredentials {
    type V = CurrentCredentialsView;

    open spec fn deep_view(&self) -> CurrentCredentialsView {
        match self {
            CurrentCredentials::Keep => CurrentCredentialsView::Keep,
            CurrentCredentials::Clear => CurrentCredentialsView::Clear,
            CurrentCredentials::Replace(value) =>
                CurrentCredentialsView::Replace(value.deep_view()),
        }
    }
}

/// What a transaction came to.
#[derive(Debug, PartialEq)]
pub struct RefreshOutcome {
    pub result: Result<(), OAuthError>,
    pub current: CurrentCredentials,
}

/// What `RefreshOutcome` stands for.
#[verifier::ext_equal]
pub struct RefreshOutcomeView {
    pub result: Result<(), OAuthErrorView>,
    pub current: CurrentCredentialsView,
}

impl DeepView for RefreshOutcome {
    type V = RefreshOutcomeView;

    open spec fn deep_view(&self) -> RefreshOutcomeView {
        RefreshOutcomeView {
            result: match self.result {
                Ok(()) => Ok(()),
                Err(value) => Err(value.deep_view()),
            },
            current: self.current.deep_view(),
        }
    }
}

/// What a transaction waits for.
#[derive(Debug, PartialEq)]
pub enum RefreshStage {
    Locking,
    Rereading,
    Clearing,
    /// The manager is given credentials that need no refresh.
    Adopting { latest: StoredOAuthTokens },
    /// The manager is given all credentials.
    Staging { latest: StoredOAuthTokens },
    /// The manager is given request credentials again, after it did not take all of them.
    Unstaging { error: OAuthError },
    Requesting { latest: StoredOAuthTokens },
    /// The manager is given request credentials again, after the provider answered.
    Restoring { latest: StoredOAuthTokens, refreshed: Result<StoredOAuthTokens, OAuthError> },
    Persisting { latest: StoredOAuthTokens, refreshed: StoredOAuthTokens },
    /// The manager is given the previous request credentials, after the new ones were not saved.
    Reverting { error: OAuthError },
}

/// What `RefreshStage` stands for.
#[verifier::ext_equal]
pub enum RefreshStageView {
    Locking,
    Rereading,
    Clearing,
    Adopting { latest: StoredOAuthTokensView },
    Staging { latest: StoredOAuthTokensView },
    Unstaging { error: OAuthErrorView },
    Requesting { latest: StoredOAuthTokensView },
    Restoring {
        latest: StoredOAuthTokensView,
        refreshed: Result<StoredOAuthTokensView, OAuthErrorView>,
    },
    Persisting { latest: StoredOAuthTokensView, refreshed: StoredOAuthTokensView },
    Reverting { error: OAuthErrorView },
}

impl DeepView for RefreshStage {
    type V = RefreshStageView;

    open spec fn deep_view(&self) -> RefreshStageView {
        match self {
            RefreshStage::Locking => RefreshStageView::Locking,
            RefreshStage::Rereading => RefreshStageView::Rereading,
            RefreshStage::Clearing => RefreshStageView::Clearing,
            RefreshStage::Adopting { latest } => RefreshStageView::Adopting {
                latest: latest.deep_view(),
            },
            RefreshStage::Staging { latest } => RefreshStageView::Staging {
                latest: latest.deep_view(),
            },
            RefreshStage::Unstaging { error } => RefreshStageView::Unstaging {
                error: error.deep_view(),
            },
            RefreshStage::Requesting { latest } => RefreshStageView::Requesting {
                latest: latest.deep_view(),
            },
            RefreshStage::Restoring { latest, refreshed } => RefreshStageView::Restoring {
                latest: latest.deep_view(),
                refreshed: match refreshed {
                    Ok(value) => Ok(value.deep_view()),
                    Err(value) => Err(value.deep_view()),
                },
            },
            RefreshStage::Persisting { latest, refreshed } => RefreshStageView::Persisting {
                latest: latest.deep_view(),
                refreshed: refreshed.deep_view(),
            },
            RefreshStage::Reverting { error } => RefreshStageView::Reverting {
                error: error.deep_view(),
            },
        }
    }
}

/// A transaction that waits for what a call gives back.
#[derive(Debug, PartialEq)]
pub struct RefreshTransaction {
    pub server_name: String,
    pub url: String,
    pub credential_store: ResolvedOAuthCredentialStore,
    pub reason: RefreshReason,
    pub timeout: Duration,
    pub stage: RefreshStage,
}

/// What `RefreshTransaction` stands for.
#[verifier::ext_equal]
pub struct RefreshTransactionView {
    pub server_name: Seq<char>,
    pub url: Seq<char>,
    pub credential_store: ResolvedOAuthCredentialStore,
    pub reason: RefreshReasonView,
    pub timeout: nat,
    pub stage: RefreshStageView,
}

impl DeepView for RefreshTransaction {
    type V = RefreshTransactionView;

    open spec fn deep_view(&self) -> RefreshTransactionView {
        RefreshTransactionView {
            server_name: self.server_name@,
            url: self.url@,
            credential_store: self.credential_store,
            reason: self.reason.deep_view(),
            timeout: self.timeout@,
            stage: self.stage.deep_view(),
        }
    }
}

/// What a transaction needs next: a call, or nothing, because it is done.
#[derive(Debug, PartialEq)]
pub enum RefreshStep {
    Call(RefreshCall, RefreshTransaction),
    Done(RefreshOutcome),
}

/// What `RefreshStep` stands for.
#[verifier::ext_equal]
pub enum RefreshStepView {
    Call(RefreshCallView, RefreshTransactionView),
    Done(RefreshOutcomeView),
}

impl DeepView for RefreshStep {
    type V = RefreshStepView;

    open spec fn deep_view(&self) -> RefreshStepView {
        match self {
            RefreshStep::Call(value0, value1) =>
                RefreshStepView::Call(value0.deep_view(), value1.deep_view()),
            RefreshStep::Done(value) => RefreshStepView::Done(value.deep_view()),
        }
    }
}

/// The credentials that a client holds for a server, and the store that they came from.
#[derive(Debug, PartialEq)]
pub struct OAuthPersistor {
    pub server_name: String,
    pub url: String,
    pub credential_store: ResolvedOAuthCredentialStore,
    pub current_credentials: Option<StoredOAuthTokens>,
}

/// What `OAuthPersistor` stands for.
#[verifier::ext_equal]
pub struct OAuthPersistorView {
    pub server_name: Seq<char>,
    pub url: Seq<char>,
    pub credential_store: ResolvedOAuthCredentialStore,
    pub current_credentials: Option<StoredOAuthTokensView>,
}

impl DeepView for OAuthPersistor {
    type V = OAuthPersistorView;

    open spec fn deep_view(&self) -> OAuthPersistorView {
        OAuthPersistorView {
            server_name: self.server_name@,
            url: self.url@,
            credential_store: self.credential_store,
            current_credentials: self.current_credentials.deep_view(),
        }
    }
}

impl StoredOAuthTokensView {
    /// What requests need of the token response: neither the refresh token nor the lifetime.
    pub open spec fn request_response(self) -> OAuthTokenResponseView {
        OAuthTokenResponseView { refresh_token: None, expires_in: None, ..self.token_response }
    }

    /// What the authorization manager is given of the tokens when the clock reads `reading`.
    pub open spec fn credentials(self, exposure: CredentialExposure, reading: Option<nat>) ->
        StoredCredentialsView {
        StoredCredentialsView {
            client_id: self.client_id,
            token_response: match exposure {
                CredentialExposure::Request => self.request_response(),
                CredentialExposure::Refresh => self.token_response,
            },
            granted_scopes: match self.token_response.scopes {
                Some(scopes) => scopes,
                None => seq![],
            },
            token_received_at: match exposure {
                CredentialExposure::Request => None,
                CredentialExposure::Refresh => match reading {
                    Some(time) => Some((time / 1_000_000_000) as u64),
                    None => None,
                },
            },
        }
    }

    /// The tokens after the provider answered a refresh with `response` at `now`. A response
    /// without a refresh token or without scopes leaves those as they were.
    pub open spec fn refreshed_by(
        self,
        response: OAuthTokenResponseView,
        server_name: Seq<char>,
        url: Seq<char>,
        now: nat,
    ) -> StoredOAuthTokensView {
        StoredOAuthTokensView {
            server_name,
            url,
            client_id: self.client_id,
            token_response: OAuthTokenResponseView {
                refresh_token: match response.refresh_token {
                    Some(token) => Some(token),
                    None => self.token_response.refresh_token,
                },
                scopes: match response.scopes {
                    Some(scopes) => Some(scopes),
                    None => self.token_response.scopes,
                },
                ..response
            },
            expires_at: crate::oauth::tokens::expiry_millis(response.expires_in, now),
        }
    }
}

/// Makes the token response that requests are given: without the refresh token and the lifetime.
pub fn request_oauth_token_response(tokens: &StoredOAuthTokens) -> (response: OAuthTokenResponse)
    ensures
        response.deep_view() == tokens.deep_view().request_response(),
{
    let mut response = tokens.token_response.0.duplicate();
    response.refresh_token = None;
    response.expires_in = None;
    response
}

/// Makes the credentials that the authorization manager is given when the clock reads `reading`.
pub fn stored_credentials_from_tokens_at(
    tokens: &StoredOAuthTokens,
    exposure: CredentialExposure,
    reading: Option<Duration>,
) -> (credentials: StoredCredentials)
    ensures
        credentials.deep_view() == tokens.deep_view().credentials(exposure, reading.deep_view()),
{
    let token_response = match exposure {
        CredentialExposure::Request => request_oauth_token_response(tokens),
        CredentialExposure::Refresh => tokens.token_response.0.duplicate(),
    };
    let granted_scopes: Vec<String> = match &token_response.scopes {
        Some(scopes) => scopes.duplicate(),
        None => Vec::new(),
    };
    let token_received_at = match exposure {
        CredentialExposure::Request => None,
        CredentialExposure::Refresh => match reading {
            Some(time) => Some(time.as_secs()),
            None => None,
        },
    };
    let credentials = StoredCredentials {
        client_id: tokens.client_id.clone(),
        token_response,
        granted_scopes,
        token_received_at,
    };
    assert(credentials.deep_view().granted_scopes =~= tokens.deep_view().credentials(
        exposure,
        reading.deep_view(),
    ).granted_scopes);
    credentials
}

/// Makes the credentials that the authorization manager is given now.
pub fn stored_credentials_from_tokens(
    tokens: &StoredOAuthTokens,
    exposure: CredentialExposure,
) -> (credentials: StoredCredentials)
    ensures
        exists|reading: Option<nat>|
            crate::clock::is_reading(reading) && credentials.deep_view()
                == #[trigger] tokens.deep_view().credentials(exposure, reading),
        exposure == CredentialExposure::Request ==> credentials.deep_view()
            == tokens.deep_view().credentials(exposure, None),
{
    stored_credentials_from_tokens_at(tokens, exposure, unix_time())
}

/// Makes the tokens that a refresh gives when the provider answered with `response` at `now`.
pub fn refreshed_tokens_at(
    response: OAuthTokenResponse,
    previous: &StoredOAuthTokens,
    server_name: &str,
    url: &str,
    now: &Duration,
) -> (tokens: StoredOAuthTokens)
    ensures
        tokens.deep_view() == previous.deep_view().refreshed_by(
            response.deep_view(),
            server_name@,
            url@,
            now@,
        ),
{
    let mut response = response;
    if response.refresh_token.is_none() {
        response.refresh_token = previous.token_response.0.refresh_token.duplicate();
    }
    if response.scopes.is_none() {
        response.scopes = previous.token_response.0.scopes.duplicate();
    }
    let expires_at = compute_expires_at_millis_at(&response, now);
    StoredOAuthTokens {
        server_name: server_name.to_owned(),
        url: url.to_owned(),
        client_id: previous.client_id.clone(),
        token_response: WrappedOAuthTokenResponse(response),
        expires_at,
    }
}

impl RefreshReasonView {
    /// The name of the reason.
    pub open spec fn text(self) -> Seq<char> {
        match self {
            RefreshReasonView::Expiry => "expiry"@,
            RefreshReasonView::Unauthorized { .. } => "unauthorized"@,
        }
    }

    /// The tokens that were read again can be used without asking the provider: they need no
    /// refresh, and their access token is not the one that was rejected.
    pub open spec fn adopts(self, latest: StoredOAuthTokensView, now: nat) -> bool {
        &&& !crate::oauth::tokens::needs_refresh(latest.expires_at, now)
        &&& match self {
            RefreshReasonView::Expiry => true,
            RefreshReasonView::Unauthorized { rejected_access_token } => rejected_access_token
                != latest.token_response.access_token,
        }
    }
}

impl RefreshReason {
    /// The name of the reason.
    pub fn as_str(&self) -> (text: &'static str)
        ensures
            text@ == self.deep_view().text(),
    {
        match self {
            RefreshReason::Expiry => "expiry",
            RefreshReason::Unauthorized { .. } => "unauthorized",
        }
    }

    fn adopts(&self, latest: &StoredOAuthTokens, now: &Duration) -> (r: bool)
        ensures
            r == self.deep_view().adopts(latest.deep_view(), now@),
    {
        !token_needs_refresh_at(latest.expires_at, now) && match self {
            RefreshReason::Expiry => true,
            RefreshReason::Unauthorized { rejected_access_token } => !same_text(
                rejected_access_token.as_str(),
                latest.token_response.0.access_token.as_str(),
            ),
        }
    }
}

impl RefreshStepView {
    /// The transaction ended without new credentials.
    pub open spec fn failed(error: OAuthErrorView) -> RefreshStepView {
        RefreshStepView::Done(
            RefreshOutcomeView { result: Err(error), current: CurrentCredentialsView::Keep },
        )
    }

    /// The transaction ended with credentials that replace those the client holds.
    pub open spec fn replaced(tokens: StoredOAuthTokensView) -> RefreshStepView {
        RefreshStepView::Done(
            RefreshOutcomeView { result: Ok(()), current: CurrentCredentialsView::Replace(tokens) },
        )
    }
}

impl RefreshStep {
    fn failed(error: OAuthError) -> (step: RefreshStep)
        ensures
            step.deep_view() == RefreshStepView::failed(error.deep_view()),
    {
        RefreshStep::Done(RefreshOutcome { result: Err(error), current: CurrentCredentials::Keep })
    }

    fn replaced(tokens: StoredOAuthTokens) -> (step: RefreshStep)
        ensures
            step.deep_view() == RefreshStepView::replaced(tokens.deep_view()),
    {
        RefreshStep::Done(
            RefreshOutcome { result: Ok(()), current: CurrentCredentials::Replace(tokens) },
        )
    }
}

impl RefreshTransactionView {
    /// The transaction waits for a reply of this kind.
    pub open spec fn accepts(self, reply: RefreshReplyView) -> bool {
        match self.stage {
            RefreshStageView::Locking => reply is Locked,
            RefreshStageView::Rereading => reply matches RefreshReplyView::Stored(outcome)
                && outcome is Loaded,
            RefreshStageView::Clearing => reply is Cleared,
            RefreshStageView::Adopting { .. } => reply is Installed,
            RefreshStageView::Staging { .. } => reply is Installed,
            RefreshStageView::Unstaging { .. } => reply is Installed,
            RefreshStageView::Requesting { .. } => reply is Refreshed,
            RefreshStageView::Restoring { .. } => reply is Installed,
            RefreshStageView::Persisting { .. } => reply matches RefreshReplyView::Stored(outcome)
                && outcome is Saved,
            RefreshStageView::Reverting { .. } => reply is Installed,
        }
    }

    /// The transaction makes `call` and goes on at `stage`.
    pub open spec fn call(self, call: RefreshCallView, stage: RefreshStageView) -> RefreshStepView {
        RefreshStepView::Call(call, RefreshTransactionView { stage, ..self })
    }

    /// The manager is given what requests need of `tokens`.
    pub open spec fn install_request(
        self,
        tokens: StoredOAuthTokensView,
        stage: RefreshStageView,
    ) -> RefreshStepView {
        self.call(
            RefreshCallView::Install {
                credentials: tokens.credentials(CredentialExposure::Request, None),
                exposure: CredentialExposure::Request,
            },
            stage,
        )
    }

    /// The credentials were read again.
    pub open spec fn reread(self, latest: StoredOAuthTokensView, reading: Option<nat>) ->
        RefreshStepView {
        if self.reason.adopts(latest, crate::clock::epoch_nanos(reading)) {
            self.install_request(latest, RefreshStageView::Adopting { latest })
        } else {
            self.call(
                RefreshCallView::Install {
                    credentials: latest.credentials(CredentialExposure::Refresh, reading),
                    exposure: CredentialExposure::Refresh,
                },
                RefreshStageView::Staging { latest },
            )
        }
    }

    /// The error for credentials that are gone.
    pub open spec fn removed_error(self) -> OAuthErrorView {
        OAuthErrorView::plain(
            "OAuth tokens for server "@ + self.server_name
                + " were removed before refresh; authorization required"@,
        )
    }

    /// What the provider's answer gives: new tokens, or an error.
    pub open spec fn answered(
        self,
        latest: StoredOAuthTokensView,
        reply: ProviderReplyView,
        now: nat,
    ) -> Result<StoredOAuthTokensView, OAuthErrorView> {
        match reply {
            ProviderReplyView::Token(response) => Ok(
                latest.refreshed_by(response, self.server_name, self.url, now),
            ),
            ProviderReplyView::Failed(message) => Err(
                OAuthErrorView::caused(
                    "failed to refresh OAuth tokens for server "@ + self.server_name,
                    message,
                ),
            ),
            ProviderReplyView::TimedOut => Err(
                OAuthErrorView::plain(
                    "timed out after "@ + crate::duration::debug_text(self.timeout)
                        + " refreshing OAuth tokens for server "@ + self.server_name,
                ),
            ),
        }
    }

    /// What the transaction needs once its call gave back `reply` when the clock read `reading`.
    pub open spec fn resume(self, reply: RefreshReplyView, reading: Option<nat>) ->
        RefreshStepView {
        match (self.stage, reply) {
            (RefreshStageView::Locking, RefreshReplyView::Locked(result)) => match result {
                Ok(_) => self.call(
                    RefreshCallView::Store(
                        StoreStepView::reread(self.server_name, self.url, self.credential_store),
                    ),
                    RefreshStageView::Rereading,
                ),
                Err(message) => RefreshStepView::failed(OAuthErrorView::plain(message)),
            },
            (
                RefreshStageView::Rereading,
                RefreshReplyView::Stored(StoreOutcomeView::Loaded(result)),
            ) => match result {
                Ok(Some(found)) => self.reread(found.tokens, reading),
                Ok(None) => self.call(RefreshCallView::ClearManager, RefreshStageView::Clearing),
                Err(error) => RefreshStepView::failed(error),
            },
            (RefreshStageView::Clearing, RefreshReplyView::Cleared) => RefreshStepView::Done(
                RefreshOutcomeView {
                    result: Err(self.removed_error()),
                    current: CurrentCredentialsView::Clear,
                },
            ),
            (
                RefreshStageView::Adopting { latest },
                RefreshReplyView::Installed(result),
            ) => match result {
                Ok(_) => RefreshStepView::replaced(latest),
                Err(failure) => RefreshStepView::failed(failure.error()),
            },
            (
                RefreshStageView::Staging { latest },
                RefreshReplyView::Installed(result),
            ) => match result {
                Ok(_) => self.call(
                    RefreshCallView::RequestRefresh { timeout: self.timeout },
                    RefreshStageView::Requesting { latest },
                ),
                Err(failure) => self.install_request(
                    latest,
                    RefreshStageView::Unstaging { error: failure.error() },
                ),
            },
            (
                RefreshStageView::Unstaging { error },
                RefreshReplyView::Installed(result),
            ) => match result {
                Ok(_) => RefreshStepView::failed(
                    error.in_context("failed to stage OAuth credentials for refresh"@),
                ),
                Err(failure) => RefreshStepView::failed(
                    failure.error().in_context(
                        "failed to restore request-only OAuth credentials"@,
                    ),
                ),
            },
            (RefreshStageView::Requesting { latest }, RefreshReplyView::Refreshed(answer)) => {
                let refreshed = self.answered(latest, answer, crate::clock::epoch_nanos(reading));
                self.install_request(
                    match refreshed {
                        Ok(tokens) => tokens,
                        Err(_) => latest,
                    },
                    RefreshStageView::Restoring { latest, refreshed },
                )
            },
            (
                RefreshStageView::Restoring { latest, refreshed },
                RefreshReplyView::Installed(result),
            ) => match (result, refreshed) {
                (Ok(_), Ok(tokens)) => self.call(
                    RefreshCallView::Store(
                        StoreStepView::persist(self.server_name, tokens, self.credential_store),
                    ),
                    RefreshStageView::Persisting { latest, refreshed: tokens },
                ),
                (Ok(_), Err(error)) => RefreshStepView::failed(error),
                (Err(failure), _) => RefreshStepView::failed(
                    failure.error().in_context(
                        "failed to restore request-only OAuth credentials"@,
                    ),
                ),
            },
            (
                RefreshStageView::Persisting { latest, refreshed },
                RefreshReplyView::Stored(StoreOutcomeView::Saved(result)),
            ) => match result {
                Ok(_) => RefreshStepView::replaced(refreshed),
                Err(error) => self.install_request(latest, RefreshStageView::Reverting { error }),
            },
            (
                RefreshStageView::Reverting { error },
                RefreshReplyView::Installed(result),
            ) => match result {
                Ok(_) => RefreshStepView::failed(error),
                Err(failure) => RefreshStepView::failed(
                    failure.error().in_context(
                        "failed to restore request-only OAuth credentials after refresh persistence failed"@,
                    ),
                ),
            },
            _ => arbitrary(),
        }
    }
}

impl RefreshTransaction {
    fn call(self, call: RefreshCall, stage: RefreshStage) -> (step: RefreshStep)
        ensures
            step.deep_view() == self.deep_view().call(call.deep_view(), stage.deep_view()),
    {
        RefreshStep::Call(
            call,
            RefreshTransaction {
                server_name: self.server_name,
                url: self.url,
                credential_store: self.credential_store,
                reason: self.reason,
                timeout: self.timeout,
                stage,
            },
        )
    }

    fn install_request(self, credentials: StoredCredentials, stage: RefreshStage) -> (step:
        RefreshStep)
        ensures
            step.deep_view() == self.deep_view().call(
                RefreshCallView::Install {
                    credentials: credentials.deep_view(),
                    exposure: CredentialExposure::Request,
                },
                stage.deep_view(),
            ),
    {
        self.call(
            RefreshCall::Install { credentials, exposure: CredentialExposure::Request },
            stage,
        )
    }

    fn reread(self, latest: StoredOAuthTokens, reading: Option<Duration>) -> (step: RefreshStep)
        ensures
            step.deep_view() == self.deep_view().reread(latest.deep_view(), reading.deep_view()),
    {
        if self.reason.adopts(&latest, &time_of(reading)) {
            let credentials = stored_credentials_from_tokens_at(
                &latest,
                CredentialExposure::Request,
                None,
            );
            self.install_request(credentials, RefreshStage::Adopting { latest })
        } else {
            let credentials = stored_credentials_from_tokens_at(
                &latest,
                CredentialExposure::Refresh,
                reading,
            );
            self.call(
                RefreshCall::Install { credentials, exposure: CredentialExposure::Refresh },
                RefreshStage::Staging { latest },
            )
        }
    }

    fn removed_error(&self) -> (error: OAuthError)
        ensures
            error.deep_view() == self.deep_view().removed_error(),
    {
        let mut message = joined("OAuth tokens for server ", self.server_name.as_str());
        message.append(" were removed before refresh; authorization required");
        OAuthError::plain(message)
    }

    fn answered(&self, latest: &StoredOAuthTokens, reply: ProviderReply, now: &Duration) -> (r:
        Result<StoredOAuthTokens, OAuthError>)
        ensures
            match r {
                Ok(tokens) => self.deep_view().answered(
                    latest.deep_view(),
                    reply.deep_view(),
                    now@,
                ) == Ok::<StoredOAuthTokensView, OAuthErrorView>(tokens.deep_view()),
                Err(error) => self.deep_view().answered(
                    latest.deep_view(),
                    reply.deep_view(),
                    now@,
                ) == Err::<StoredOAuthTokensView, OAuthErrorView>(error.deep_view()),
            },
    {
        match reply {
            ProviderReply::Token(response) => Ok(
                refreshed_tokens_at(
                    response,
                    latest,
                    self.server_name.as_str(),
                    self.url.as_str(),
                    now,
                ),
            ),
            ProviderReply::Failed(message) => Err(
                OAuthError::caused(
                    joined("failed to refresh OAuth tokens for server ", self.server_name.as_str()),
                    message,
                ),
            ),
            ProviderReply::TimedOut => {
                let mut message = joined("timed out after ", self.timeout.debug_string().as_str());
                message.append(" refreshing OAuth tokens for server ");
                message.append(self.server_name.as_str());
                Err(OAuthError::plain(message))
            },
        }
    }

    /// Tests whether the transaction waits for a reply of this kind.
    pub fn accepts(&self, reply: &RefreshReply) -> (r: bool)
        ensures
            r == self.deep_view().accepts(reply.deep_view()),
    {
        match &self.stage {
            RefreshStage::Locking => matches!(reply, RefreshReply::Locked(_)),
            RefreshStage::Rereading =>
                matches!(reply, RefreshReply::Stored(StoreOutcome::Loaded(_))),
            RefreshStage::Clearing => matches!(reply, RefreshReply::Cleared),
            RefreshStage::Adopting { .. } => matches!(reply, RefreshReply::Installed(_)),
            RefreshStage::Staging { .. } => matches!(reply, RefreshReply::Installed(_)),
            RefreshStage::Unstaging { .. } => matches!(reply, RefreshReply::Installed(_)),
            RefreshStage::Requesting { .. } => matches!(reply, RefreshReply::Refreshed(_)),
            RefreshStage::Restoring { .. } => matches!(reply, RefreshReply::Installed(_)),
            RefreshStage::Persisting { .. } => matches!(
                reply,
                RefreshReply::Stored(StoreOutcome::Saved(_))
            ),
            RefreshStage::Reverting { .. } => matches!(reply, RefreshReply::Installed(_)),
        }
    }

    /// Goes on with what the call gave back when the clock read `reading`.
    pub fn resume_at(self, reply: RefreshReply, reading: Option<Duration>) -> (step: RefreshStep)
        requires
            self.deep_view().accepts(reply.deep_view()),
        ensures
            step.deep_view() == self.deep_view().resume(reply.deep_view(), reading.deep_view()),
    {
        let RefreshTransaction { server_name, url, credential_store, reason, timeout, stage } = self;
        let rest = RefreshTransaction {
            server_name,
            url,
            credential_store,
            reason,
            timeout,
            stage: RefreshStage::Locking,
        };
        match (stage, reply) {
            (RefreshStage::Locking, RefreshReply::Locked(result)) => match result {
                Ok(_) => {
                    let load = load_oauth_tokens_from_store(
                        rest.server_name.as_str(),
                        rest.url.as_str(),
                        rest.credential_store,
                    );
                    rest.call(RefreshCall::Store(load), RefreshStage::Rereading)
                },
                Err(message) => RefreshStep::failed(OAuthError::plain(message)),
            },
            (
                RefreshStage::Rereading,
                RefreshReply::Stored(StoreOutcome::Loaded(result)),
            ) => match result {
                Ok(Some(found)) => rest.reread(found.tokens, reading),
                Ok(None) => rest.call(RefreshCall::ClearManager, RefreshStage::Clearing),
                Err(error) => RefreshStep::failed(error),
            },
            (RefreshStage::Clearing, RefreshReply::Cleared) => RefreshStep::Done(
                RefreshOutcome {
                    result: Err(rest.removed_error()),
                    current: CurrentCredentials::Clear,
                },
            ),
            (RefreshStage::Adopting { latest }, RefreshReply::Installed(result)) => match result {
                Ok(_) => RefreshStep::replaced(latest),
                Err(failure) => RefreshStep::failed(failure.into_error()),
            },
            (RefreshStage::Staging { latest }, RefreshReply::Installed(result)) => match result {
                Ok(_) => {
                    let call = RefreshCall::RequestRefresh { timeout: rest.timeout };
                    rest.call(call, RefreshStage::Requesting { latest })
                },
                Err(failure) => {
                    let credentials = stored_credentials_from_tokens_at(
                        &latest,
                        CredentialExposure::Request,
                        None,
                    );
                    rest.install_request(
                        credentials,
                        RefreshStage::Unstaging { error: failure.into_error() },
                    )
                },
            },
            (RefreshStage::Unstaging { error }, RefreshReply::Installed(result)) => match result {
                Ok(_) => RefreshStep::failed(
                    error.in_context("failed to stage OAuth credentials for refresh".to_owned()),
                ),
                Err(failure) => RefreshStep::failed(
                    failure.into_error().in_context(
                        "failed to restore request-only OAuth credentials".to_owned(),
                    ),
                ),
            },
            (RefreshStage::Requesting { latest }, RefreshReply::Refreshed(answer)) => {
                let refreshed = rest.answered(&latest, answer, &time_of(reading));
                let credentials = match &refreshed {
                    Ok(tokens) => stored_credentials_from_tokens_at(
                        tokens,
                        CredentialExposure::Request,
                        None,
                    ),
                    Err(_) => stored_credentials_from_tokens_at(
                        &latest,
                        CredentialExposure::Request,
                        None,
                    ),
                };
                rest.install_request(credentials, RefreshStage::Restoring { latest, refreshed })
            },
            (
                RefreshStage::Restoring { latest, refreshed },
                RefreshReply::Installed(result),
            ) => match (result, refreshed) {
                (Ok(_), Ok(tokens)) => {
                    let save = persist_oauth_tokens(
                        rest.server_name.as_str(),
                        &tokens,
                        rest.credential_store,
                    );
                    rest.call(
                        RefreshCall::Store(save),
                        RefreshStage::Persisting { latest, refreshed: tokens },
                    )
                },
                (Ok(_), Err(error)) => RefreshStep::failed(error),
                (Err(failure), _) => RefreshStep::failed(
                    failure.into_error().in_context(
                        "failed to restore request-only OAuth credentials".to_owned(),
                    ),
                ),
            },
            (
                RefreshStage::Persisting { latest, refreshed },
                RefreshReply::Stored(StoreOutcome::Saved(result)),
            ) => match result {
                Ok(_) => RefreshStep::replaced(refreshed),
                Err(error) => {
                    let credentials = stored_credentials_from_tokens_at(
                        &latest,
                        CredentialExposure::Request,
                        None,
                    );
                    rest.install_request(credentials, RefreshStage::Reverting { error })
                },
            },
            (RefreshStage::Reverting { error }, RefreshReply::Installed(result)) => match result {
                Ok(_) => RefreshStep::failed(error),
                Err(failure) => RefreshStep::failed(
                    failure.into_error().in_context(
                        "failed to restore request-only OAuth credentials after refresh persistence failed".to_owned(),
                    ),
                ),
            },
            _ => {
                assert(false);
                RefreshStep::failed(OAuthError::plain(String::new()))
            },
        }
    }

    /// Goes on with what the call gave back.
    pub fn resume(self, reply: RefreshReply) -> (step: RefreshStep)
        requires
            self.deep_view().accepts(reply.deep_view()),
        ensures
            exists|reading: Option<nat>|
                crate::clock::is_reading(reading) && step.deep_view()
                    == #[trigger] self.deep_view().resume(reply.deep_view(), reading),
            !(self.stage is Rereading) && !(self.stage is Requesting) ==> step.deep_view()
                == self.deep_view().resume(reply.deep_view(), None),
    {
        self.resume_at(reply, unix_time())
    }
}

impl OAuthPersistorView {
    /// A refresh of the credentials begins.
    pub open spec fn begin(self, reason: RefreshReasonView, timeout: nat) -> RefreshStepView {
        RefreshStepView::Call(
            RefreshCallView::LockRefresh { server_name: self.server_name, url: self.url },
            RefreshTransactionView {
                server_name: self.server_name,
                url: self.url,
                credential_store: self.credential_store,
                reason,
                timeout,
                stage: RefreshStageView::Locking,
            },
        )
    }

    /// A refresh begins, unless the credentials that the client holds need none.
    pub open spec fn refresh_if_needed(self, timeout: nat, now: nat) -> RefreshStepView {
        if self.current_credentials matches Some(tokens) && crate::oauth::tokens::needs_refresh(
            tokens.expires_at,
            now,
        ) {
            self.begin(RefreshReasonView::Expiry, timeout)
        } else {
            RefreshStepView::Done(
                RefreshOutcomeView { result: Ok(()), current: CurrentCredentialsView::Keep },
            )
        }
    }

    /// What the client holds after a transaction.
    pub open spec fn with_current(self, update: CurrentCredentialsView) -> OAuthPersistorView {
        match update {
            CurrentCredentialsView::Keep => self,
            CurrentCredentialsView::Clear => OAuthPersistorView {
                current_credentials: None,
                ..self
            },
            CurrentCredentialsView::Replace(tokens) => OAuthPersistorView {
                current_credentials: Some(tokens),
                ..self
            },
        }
    }
}

impl OAuthPersistor {
    /// Makes a persistor for the credentials that were found for a server.
    pub fn new(
        server_name: String,
        url: String,
        credential_store: ResolvedOAuthCredentialStore,
        initial_credentials: Option<StoredOAuthTokens>,
    ) -> (persistor: OAuthPersistor)
        ensures
            persistor.deep_view() == (OAuthPersistorView {
                server_name: server_name@,
                url: url@,
                credential_store,
                current_credentials: initial_credentials.deep_view(),
            }),
    {
        OAuthPersistor {
            server_name,
            url,
            credential_store,
            current_credentials: initial_credentials,
        }
    }

    fn begin(&self, reason: RefreshReason, timeout: Duration) -> (step: RefreshStep)
        ensures
            step.deep_view() == self.deep_view().begin(reason.deep_view(), timeout@),
    {
        RefreshStep::Call(
            RefreshCall::LockRefresh {
                server_name: self.server_name.clone(),
                url: self.url.clone(),
            },
            RefreshTransaction {
                server_name: self.server_name.clone(),
                url: self.url.clone(),
                credential_store: self.credential_store,
                reason,
                timeout,
                stage: RefreshStage::Locking,
            },
        )
    }

    /// Refreshes the credentials if they need it at `now`; the provider may take `timeout`.
    pub fn refresh_if_needed_with_timeout_at(&self, timeout: Duration, now: &Duration) -> (step:
        RefreshStep)
        ensures
            step.deep_view() == self.deep_view().refresh_if_needed(timeout@, now@),
    {
        let expires_at = match &self.current_credentials {
            Some(tokens) => tokens.expires_at,
            None => None,
        };
        if !token_needs_refresh_at(expires_at, now) {
            return RefreshStep::Done(
                RefreshOutcome { result: Ok(()), current: CurrentCredentials::Keep },
            );
        }
        self.begin(RefreshReason::Expiry, timeout)
    }

    /// Refreshes the credentials if they need it.
    pub fn refresh_if_needed(&self) -> (step: RefreshStep)
        ensures
            exists|now: nat|
                now < crate::duration::duration_limit() && step.deep_view()
                    == #[trigger] self.deep_view().refresh_if_needed(
                    45_000_000_000,
                    now,
                ),
            self.current_credentials is None ==> step is Done,
    {
        let now = time_of(unix_time());
        let step = self.refresh_if_needed_with_timeout_at(
            Duration::from_secs(REFRESH_REQUEST_TIMEOUT_SECS),
            &now,
        );
        assert(step.deep_view() == self.deep_view().refresh_if_needed(
            45_000_000_000,
            now@,
        ));
        step
    }

    /// Refreshes the credentials after a request with `rejected_access_token` was rejected.
    pub fn refresh_after_unauthorized(&self, rejected_access_token: &str) -> (step: RefreshStep)
        ensures
            step.deep_view() == self.deep_view().begin(
                RefreshReasonView::Unauthorized { rejected_access_token: rejected_access_token@ },
                45_000_000_000,
            ),
    {
        self.begin(
            RefreshReason::Unauthorized { rejected_access_token: rejected_access_token.to_owned() },
            Duration::from_secs(REFRESH_REQUEST_TIMEOUT_SECS),
        )
    }

    /// Takes over what a transaction means for the credentials that the client holds.
    pub fn apply(&mut self, update: CurrentCredentials)
        ensures
            final(self).deep_view() == old(self).deep_view().with_current(update.deep_view()),
    {
        match update {
            CurrentCredentials::Keep => {},
            CurrentCredentials::Clear => {
                self.current_credentials = None;
            },
            CurrentCredentials::Replace(tokens) => {
                self.current_credentials = Some(tokens);
            },
        }
    }
}

} // verus!
