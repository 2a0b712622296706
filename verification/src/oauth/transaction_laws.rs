//! What a refresh keeps, and what each reply leads to while it runs.

use vstd::prelude::*;

use crate::oauth::error::OAuthErrorView;
use crate::oauth::persistor::{
    CredentialExposure, CurrentCredentialsView, InstallFailureView, OAuthPersistorView,
    ProviderReplyView, RefreshCallView, RefreshReasonView, RefreshReplyView, RefreshStageView,
    RefreshStepView, RefreshTransactionView,
};
use crate::oauth::store::{ResolvedOAuthTokensView, StoreOutcomeView, StoreStepView};
use crate::oauth::tokens::{OAuthTokenResponseView, StoredOAuthTokensView};

verus! {

/// A refresh keeps the refresh token where the provider sent no new one, and the scopes where it
/// sent none, each whatever else the response holds; what the provider did send replaces what was
/// there. All else of the response is taken as it is, and the client stays the same.
pub proof fn law_refresh_keeps_what_is_not_replaced(
    tokens: StoredOAuthTokensView,
    response: OAuthTokenResponseView,
    server_name: Seq<char>,
    url: Seq<char>,
    now: nat,
)
    ensures
        ({
            let refreshed = tokens.refreshed_by(response, server_name, url, now);
            &&& response.refresh_token is None ==> refreshed.token_response.refresh_token
                == tokens.token_response.refresh_token
            &&& response.refresh_token is Some ==> refreshed.token_response.refresh_token
                == response.refresh_token
            &&& response.scopes is None ==> refreshed.token_response.scopes
                == tokens.token_response.scopes
            &&& response.scopes is Some ==> refreshed.token_response.scopes == response.scopes
            &&& refreshed.token_response.access_token == response.access_token
            &&& refreshed.token_response.token_type == response.token_type
            &&& refreshed.token_response.expires_in == response.expires_in
            &&& refreshed.token_response.extra_fields == response.extra_fields
            &&& refreshed.client_id == tokens.client_id
            &&& refreshed.server_name == server_name
            &&& refreshed.url == url
            &&& response.expires_in is None ==> refreshed.expires_at is None
            &&& response.expires_in matches Some(secs) ==> {
                &&& refreshed.expires_at is Some <==> now + secs * 1_000_000_000
                    < 0x1_0000_0000_0000_0000 * 1_000_000_000
                &&& refreshed.expires_at matches Some(at) ==> {
                    &&& at * 1_000_000 <= now + secs * 1_000_000_000
                    &&& at < u64::MAX ==> now + secs * 1_000_000_000 < (at + 1) * 1_000_000
                }
            }
        }),
{
}

/// Credentials for requests leave out the refresh token, the lifetime and when the token was
/// received, and hold all else of the tokens.
pub proof fn law_request_credentials(tokens: StoredOAuthTokensView, reading: Option<nat>)
    ensures
        ({
            let credentials = tokens.credentials(CredentialExposure::Request, reading);
            &&& credentials.client_id == tokens.client_id
            &&& credentials.token_response.access_token == tokens.token_response.access_token
            &&& credentials.token_response.token_type == tokens.token_response.token_type
            &&& credentials.token_response.expires_in is None
            &&& credentials.token_response.refresh_token is None
            &&& credentials.token_response.scopes == tokens.token_response.scopes
            &&& credentials.token_response.extra_fields == tokens.token_response.extra_fields
            &&& tokens.token_response.scopes == Some(credentials.granted_scopes) || (
            tokens.token_response.scopes is None && credentials.granted_scopes.len() == 0)
            &&& credentials.token_received_at is None
        }),
{
}

/// Credentials for a refresh hold all of the tokens, and count as received in the whole second of
/// the clock's reading, where it has one.
pub proof fn law_refresh_credentials(tokens: StoredOAuthTokensView, reading: Option<nat>)
    ensures
        ({
            let credentials = tokens.credentials(CredentialExposure::Refresh, reading);
            &&& credentials.client_id == tokens.client_id
            &&& credentials.token_response == tokens.token_response
            &&& tokens.token_response.scopes == Some(credentials.granted_scopes) || (
            tokens.token_response.scopes is None && credentials.granted_scopes.len() == 0)
            &&& reading is None ==> credentials.token_received_at is None
            &&& reading matches Some(time) ==> time < 0x1_0000_0000_0000_0000 * 1_000_000_000 ==> (
            credentials.token_received_at matches Some(secs) && secs * 1_000_000_000 <= time < (
            secs + 1) * 1_000_000_000)
        }),
{
}

/// Tokens that were read again are adopted for an expiry exactly where they are not due for a
/// refresh, and for a rejection exactly where besides their access token is another one.
pub proof fn law_adopted_tokens(
    latest: StoredOAuthTokensView,
    rejected_access_token: Seq<char>,
    now: nat,
)
    ensures
        RefreshReasonView::Expiry.adopts(latest, now) <==> !crate::oauth::tokens::needs_refresh(
            latest.expires_at,
            now,
        ),
        (RefreshReasonView::Unauthorized { rejected_access_token }).adopts(latest, now) <==> (
        !crate::oauth::tokens::needs_refresh(latest.expires_at, now)
            && latest.token_response.access_token != rejected_access_token),
        RefreshReasonView::Expiry.text() == "expiry"@,
        (RefreshReasonView::Unauthorized { rejected_access_token }).text() == "unauthorized"@,
{
}

/// A failure to install credentials says what was being done, and why it failed.
pub proof fn law_install_failures(message: Seq<char>)
    ensures
        InstallFailureView::NotStaged(message).error().message
            == "failed to stage OAuth tokens for authorization manager"@,
        InstallFailureView::NotStaged(message).error().causes == seq![message],
        InstallFailureView::NotAdopted(message).error().message
            == "failed to adopt refreshed OAuth tokens"@,
        InstallFailureView::NotAdopted(message).error().causes == seq![message],
{
}

/// An error in a context says the context first, then what it said, and then its own causes, in
/// order and each once.
pub proof fn law_context_comes_first(error: OAuthErrorView, message: Seq<char>)
    ensures
        error.in_context(message).message == message,
        error.in_context(message).causes.len() == error.causes.len() + 1,
        error.in_context(message).causes[0] == error.message,
        forall|i: int|
            0 <= i < error.causes.len() ==> #[trigger] error.in_context(message).causes[i + 1]
                == error.causes[i],
        OAuthErrorView::plain(message).message == message,
        OAuthErrorView::plain(message).causes.len() == 0,
        OAuthErrorView::caused(message, error.message).message == message,
        OAuthErrorView::caused(message, error.message).causes.len() == 1,
        OAuthErrorView::caused(message, error.message).causes[0] == error.message,
{
}

/// A refresh begins by locking the server's credentials, and is about them.
pub proof fn law_refresh_begins_with_the_lock(
    persistor: OAuthPersistorView,
    reason: RefreshReasonView,
    timeout: nat,
)
    ensures
        persistor.begin(reason, timeout) matches RefreshStepView::Call(
            RefreshCallView::LockRefresh { server_name, url },
            transaction,
        ) && {
            &&& server_name == persistor.server_name
            &&& url == persistor.url
            &&& transaction.server_name == persistor.server_name
            &&& transaction.url == persistor.url
            &&& transaction.credential_store == persistor.credential_store
            &&& transaction.reason == reason
            &&& transaction.timeout == timeout
            &&& transaction.stage is Locking
        },
{
}

/// Credentials are refreshed ahead of time exactly where the client has some that are due for a
/// refresh; otherwise nothing is done and nothing changes.
pub proof fn law_refresh_ahead_of_time(persistor: OAuthPersistorView, timeout: nat, now: nat)
    ensures
        persistor.current_credentials is Some && crate::oauth::tokens::needs_refresh(
            persistor.current_credentials->0.expires_at,
            now,
        ) ==> persistor.refresh_if_needed(timeout, now) == persistor.begin(
            RefreshReasonView::Expiry,
            timeout,
        ),
        persistor.current_credentials is None || !crate::oauth::tokens::needs_refresh(
            persistor.current_credentials->0.expires_at,
            now,
        ) ==> (persistor.refresh_if_needed(timeout, now) matches RefreshStepView::Done(outcome)
            && outcome.result is Ok && outcome.current is Keep),
{
}

/// The outcome of a refresh changes the client's credentials and nothing else of the client.
pub proof fn law_outcome_changes_the_credentials_only(
    persistor: OAuthPersistorView,
    update: CurrentCredentialsView,
)
    ensures
        ({
            let updated = persistor.with_current(update);
            &&& updated.server_name == persistor.server_name
            &&& updated.url == persistor.url
            &&& updated.credential_store == persistor.credential_store
            &&& update is Keep ==> updated.current_credentials == persistor.current_credentials
            &&& update is Clear ==> updated.current_credentials is None
            &&& update matches CurrentCredentialsView::Replace(tokens)
                ==> updated.current_credentials == Some(tokens)
        }),
{
}

/// No reply changes what a refresh is about, why it is made or how long the provider may take.
pub proof fn law_refresh_stays_what_it_is(
    transaction: RefreshTransactionView,
    reply: RefreshReplyView,
    reading: Option<nat>,
)
    requires
        transaction.accepts(reply),
    ensures
        transaction.resume(reply, reading) matches RefreshStepView::Call(_, next) ==> {
            &&& next.server_name == transaction.server_name
            &&& next.url == transaction.url
            &&& next.credential_store == transaction.credential_store
            &&& next.reason == transaction.reason
            &&& next.timeout == transaction.timeout
        },
{
}

/// A refresh waits for the reply to the call that it last made, and for no other.
pub proof fn law_refresh_waits_for_its_call(
    transaction: RefreshTransactionView,
    reply: RefreshReplyView,
)
    ensures
        transaction.stage is Locking ==> (transaction.accepts(reply) <==> reply is Locked),
        transaction.stage is Rereading ==> (transaction.accepts(reply) <==> reply is Stored
            && reply->Stored_0 is Loaded),
        transaction.stage is Clearing ==> (transaction.accepts(reply) <==> reply is Cleared),
        transaction.stage is Adopting || transaction.stage is Staging
            || transaction.stage is Unstaging || transaction.stage is Restoring
            || transaction.stage is Reverting ==> (transaction.accepts(reply)
            <==> reply is Installed),
        transaction.stage is Requesting ==> (transaction.accepts(reply) <==> reply is Refreshed),
        transaction.stage is Persisting ==> (transaction.accepts(reply) <==> reply is Stored
            && reply->Stored_0 is Saved),
{
}

/// Once the lock is held, the credentials are read again from the store that they came from. A
/// lock that cannot be had ends the refresh with its message.
pub proof fn law_after_the_lock(
    transaction: RefreshTransactionView,
    message: Seq<char>,
    reading: Option<nat>,
)
    requires
        transaction.stage is Locking,
    ensures
        transaction.resume(RefreshReplyView::Locked(Ok(())), reading) matches RefreshStepView::Call(
            RefreshCallView::Store(step),
            next,
        ) && {
            &&& step == StoreStepView::reread(
                transaction.server_name,
                transaction.url,
                transaction.credential_store,
            )
            &&& next.stage is Rereading
        },
        transaction.resume(RefreshReplyView::Locked(Err(message)), reading) matches
            RefreshStepView::Done(outcome) && {
            &&& outcome.current is Keep
            &&& outcome.result is Err
            &&& outcome.result->Err_0.message == message
            &&& outcome.result->Err_0.causes.len() == 0
        },
{
}

/// Credentials that were read again are installed for requests where they are adopted, and for
/// the refresh where they are not. Where there are none any more the manager is cleared, and where
/// they cannot be read the refresh ends with that error.
pub proof fn law_after_reading_again(
    transaction: RefreshTransactionView,
    found: ResolvedOAuthTokensView,
    error: OAuthErrorView,
    reading: Option<nat>,
)
    requires
        transaction.stage is Rereading,
    ensures
        ({
            let adopted = transaction.reason.adopts(
                found.tokens,
                if reading is Some {
                    reading->0
                } else {
                    0
                },
            );
            &&& adopted ==> (transaction.resume(
                RefreshReplyView::Stored(StoreOutcomeView::Loaded(Ok(Some(found)))),
                reading,
            ) matches RefreshStepView::Call(
                RefreshCallView::Install { credentials, exposure },
                next,
            ) && {
                &&& exposure == CredentialExposure::Request
                &&& credentials == found.tokens.credentials(CredentialExposure::Request, None)
                &&& next.stage == (RefreshStageView::Adopting { latest: found.tokens })
            })
            &&& !adopted ==> (transaction.resume(
                RefreshReplyView::Stored(StoreOutcomeView::Loaded(Ok(Some(found)))),
                reading,
            ) matches RefreshStepView::Call(
                RefreshCallView::Install { credentials, exposure },
                next,
            ) && {
                &&& exposure == CredentialExposure::Refresh
                &&& credentials == found.tokens.credentials(CredentialExposure::Refresh, reading)
                &&& next.stage == (RefreshStageView::Staging { latest: found.tokens })
            })
        }),
        transaction.resume(RefreshReplyView::Stored(StoreOutcomeView::Loaded(Ok(None))), reading)
            matches RefreshStepView::Call(call, next) && call is ClearManager
            && next.stage is Clearing,
        transaction.resume(
            RefreshReplyView::Stored(StoreOutcomeView::Loaded(Err(error))),
            reading,
        ) matches RefreshStepView::Done(outcome) && outcome.current is Keep
            && outcome.result is Err && outcome.result->Err_0 == error,
{
}

/// Credentials that are gone are gone for the client too, which is told that it has to be
/// authorized again.
pub proof fn law_removed_credentials_are_cleared(
    transaction: RefreshTransactionView,
    reading: Option<nat>,
)
    requires
        transaction.stage is Clearing,
    ensures
        transaction.resume(RefreshReplyView::Cleared, reading) matches RefreshStepView::Done(
            outcome,
        ) && {
            &&& outcome.current is Clear
            &&& outcome.result is Err
            &&& outcome.result->Err_0.message == "OAuth tokens for server "@
                + transaction.server_name
                + " were removed before refresh; authorization required"@
            &&& outcome.result->Err_0.causes.len() == 0
        },
{
}

/// Adopted credentials become the client's once the manager has them; until then the client keeps
/// what it has.
pub proof fn law_after_adopting(
    transaction: RefreshTransactionView,
    latest: StoredOAuthTokensView,
    failure: InstallFailureView,
    reading: Option<nat>,
)
    requires
        transaction.stage == (RefreshStageView::Adopting { latest }),
    ensures
        transaction.resume(RefreshReplyView::Installed(Ok(())), reading) matches
            RefreshStepView::Done(outcome) && outcome.result is Ok && outcome.current
            == CurrentCredentialsView::Replace(latest),
        transaction.resume(RefreshReplyView::Installed(Err(failure)), reading) matches
            RefreshStepView::Done(outcome) && outcome.current is Keep && outcome.result is Err
            && outcome.result->Err_0 == failure.error(),
{
}

/// With the refresh token in place the provider is asked, for as long as the refresh allows. Where
/// it could not be put in place the manager is given credentials for requests again.
pub proof fn law_after_staging(
    transaction: RefreshTransactionView,
    latest: StoredOAuthTokensView,
    failure: InstallFailureView,
    reading: Option<nat>,
)
    requires
        transaction.stage == (RefreshStageView::Staging { latest }),
    ensures
        transaction.resume(RefreshReplyView::Installed(Ok(())), reading) matches
            RefreshStepView::Call(RefreshCallView::RequestRefresh { timeout }, next) && {
            &&& timeout == transaction.timeout
            &&& next.stage == (RefreshStageView::Requesting { latest })
        },
        transaction.resume(RefreshReplyView::Installed(Err(failure)), reading) matches
            RefreshStepView::Call(RefreshCallView::Install { credentials, exposure }, next) && {
            &&& exposure == CredentialExposure::Request
            &&& credentials == latest.credentials(CredentialExposure::Request, None)
            &&& next.stage == (RefreshStageView::Unstaging { error: failure.error() })
        },
{
}

/// A refresh token that could not be put in place ends the refresh with that error, or, where the
/// credentials for requests could not be put back either, with the error of that.
pub proof fn law_after_unstaging(
    transaction: RefreshTransactionView,
    error: OAuthErrorView,
    failure: InstallFailureView,
    reading: Option<nat>,
)
    requires
        transaction.stage == (RefreshStageView::Unstaging { error }),
    ensures
        transaction.resume(RefreshReplyView::Installed(Ok(())), reading) matches
            RefreshStepView::Done(outcome) && {
            &&& outcome.current is Keep
            &&& outcome.result is Err
            &&& outcome.result->Err_0.message == "failed to stage OAuth credentials for refresh"@
            &&& outcome.result->Err_0.causes == seq![error.message] + error.causes
        },
        transaction.resume(RefreshReplyView::Installed(Err(failure)), reading) matches
            RefreshStepView::Done(outcome) && {
            &&& outcome.current is Keep
            &&& outcome.result is Err
            &&& outcome.result->Err_0.message == "failed to restore request-only OAuth credentials"@
            &&& outcome.result->Err_0.causes == seq![failure.error().message]
                + failure.error().causes
        },
{
}

/// Whatever the provider answers, the manager is given credentials for requests at once: those of
/// the refreshed tokens where there are any, and else the previous ones.
pub proof fn law_after_the_answer(
    transaction: RefreshTransactionView,
    latest: StoredOAuthTokensView,
    response: OAuthTokenResponseView,
    message: Seq<char>,
    reading: Option<nat>,
)
    requires
        transaction.stage == (RefreshStageView::Requesting { latest }),
    ensures
        transaction.resume(
            RefreshReplyView::Refreshed(ProviderReplyView::Token(response)),
            reading,
        ) matches RefreshStepView::Call(RefreshCallView::Install { credentials, exposure }, next)
            && {
            let tokens = latest.refreshed_by(
                response,
                transaction.server_name,
                transaction.url,
                if reading is Some {
                    reading->0
                } else {
                    0
                },
            );
            &&& exposure == CredentialExposure::Request
            &&& credentials == tokens.credentials(CredentialExposure::Request, None)
            &&& next.stage matches RefreshStageView::Restoring { latest: previous, refreshed }
            &&& previous == latest
            &&& refreshed is Ok && refreshed->Ok_0 == tokens
        },
        transaction.resume(
            RefreshReplyView::Refreshed(ProviderReplyView::Failed(message)),
            reading,
        ) matches RefreshStepView::Call(RefreshCallView::Install { credentials, exposure }, next)
            && {
            &&& exposure == CredentialExposure::Request
            &&& credentials == latest.credentials(CredentialExposure::Request, None)
            &&& next.stage matches RefreshStageView::Restoring { latest: previous, refreshed }
            &&& previous == latest
            &&& refreshed is Err
            &&& refreshed->Err_0.message == "failed to refresh OAuth tokens for server "@
                + transaction.server_name
            &&& refreshed->Err_0.causes == seq![message]
        },
        transaction.resume(RefreshReplyView::Refreshed(ProviderReplyView::TimedOut), reading)
            matches RefreshStepView::Call(RefreshCallView::Install { credentials, exposure }, next)
            && {
            &&& exposure == CredentialExposure::Request
            &&& credentials == latest.credentials(CredentialExposure::Request, None)
            &&& next.stage matches RefreshStageView::Restoring { latest: previous, refreshed }
            &&& previous == latest
            &&& refreshed is Err
            &&& refreshed->Err_0.message == "timed out after "@ + crate::duration::debug_text(
                transaction.timeout,
            ) + " refreshing OAuth tokens for server "@ + transaction.server_name
            &&& refreshed->Err_0.causes.len() == 0
        },
{
}

/// Refreshed tokens are saved once the manager has its credentials for requests back; a refresh
/// that failed ends with its error then. Where the manager did not take them back the refresh ends
/// with the error of that, whatever the provider answered, and nothing is saved.
pub proof fn law_after_restoring(
    transaction: RefreshTransactionView,
    latest: StoredOAuthTokensView,
    tokens: StoredOAuthTokensView,
    error: OAuthErrorView,
    failure: InstallFailureView,
    reading: Option<nat>,
)
    ensures
        transaction.stage == (RefreshStageView::Restoring { latest, refreshed: Ok(tokens) }) ==> {
            &&& transaction.resume(RefreshReplyView::Installed(Ok(())), reading) matches
                RefreshStepView::Call(RefreshCallView::Store(step), next)
            &&& step == StoreStepView::persist(
                transaction.server_name,
                tokens,
                transaction.credential_store,
            )
            &&& next.stage == (RefreshStageView::Persisting { latest, refreshed: tokens })
        },
        transaction.stage == (RefreshStageView::Restoring { latest, refreshed: Err(error) }) ==> {
            &&& transaction.resume(RefreshReplyView::Installed(Ok(())), reading) matches
                RefreshStepView::Done(outcome)
            &&& outcome.current is Keep
            &&& outcome.result is Err
            &&& outcome.result->Err_0 == error
        },
        transaction.stage is Restoring ==> {
            &&& transaction.resume(RefreshReplyView::Installed(Err(failure)), reading) matches
                RefreshStepView::Done(outcome)
            &&& outcome.current is Keep
            &&& outcome.result is Err
            &&& outcome.result->Err_0.message == "failed to restore request-only OAuth credentials"@
            &&& outcome.result->Err_0.causes == seq![failure.error().message]
                + failure.error().causes
        },
{
}

/// Tokens that were saved become the client's. Where they could not be saved the manager is given
/// credentials for requests of the previous tokens.
pub proof fn law_after_saving(
    transaction: RefreshTransactionView,
    latest: StoredOAuthTokensView,
    refreshed: StoredOAuthTokensView,
    error: OAuthErrorView,
    reading: Option<nat>,
)
    requires
        transaction.stage == (RefreshStageView::Persisting { latest, refreshed }),
    ensures
        transaction.resume(RefreshReplyView::Stored(StoreOutcomeView::Saved(Ok(()))), reading)
            matches RefreshStepView::Done(outcome) && outcome.result is Ok && outcome.current
            == CurrentCredentialsView::Replace(refreshed),
        transaction.resume(RefreshReplyView::Stored(StoreOutcomeView::Saved(Err(error))), reading)
            matches RefreshStepView::Call(RefreshCallView::Install { credentials, exposure }, next)
            && {
            &&& exposure == CredentialExposure::Request
            &&& credentials == latest.credentials(CredentialExposure::Request, None)
            &&& next.stage == (RefreshStageView::Reverting { error })
        },
{
}

/// A refresh whose tokens could not be saved ends with that error, or, where the previous tokens
/// could not be given back either, with the error of that.
pub proof fn law_after_reverting(
    transaction: RefreshTransactionView,
    error: OAuthErrorView,
    failure: InstallFailureView,
    reading: Option<nat>,
)
    requires
        transaction.stage == (RefreshStageView::Reverting { error }),
    ensures
        transaction.resume(RefreshReplyView::Installed(Ok(())), reading) matches
            RefreshStepView::Done(outcome) && outcome.current is Keep && outcome.result is Err
            && outcome.result->Err_0 == error,
        transaction.resume(RefreshReplyView::Installed(Err(failure)), reading) matches
            RefreshStepView::Done(outcome) && {
            &&& outcome.current is Keep
            &&& outcome.result is Err
            &&& outcome.result->Err_0.message
                == "failed to restore request-only OAuth credentials after refresh persistence failed"@
            &&& outcome.result->Err_0.causes == seq![failure.error().message]
                + failure.error().causes
        },
{
}

} // verus!
