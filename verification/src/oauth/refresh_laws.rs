//! What holds of refresh transactions.

use vstd::prelude::*;

use crate::oauth::error::OAuthErrorView;
use crate::oauth::persistor::{
    CredentialExposure, CurrentCredentialsView, InstallFailureView, OAuthPersistorView,
    ProviderReplyView, RefreshCallView, RefreshOutcomeView, RefreshReasonView, RefreshReplyView,
    RefreshStageView, RefreshStepView, RefreshTransactionView, StoredCredentialsView,
};
use crate::oauth::store::{
    AuthKeyringBackendKind, OAuthCredentialsStoreMode, ResolvedOAuthCredentialStore,
    ResolvedOAuthTokensView, StoreOutcomeView, StoreStepView,
};
use crate::oauth::store_laws::Stores;
use crate::oauth::tokens::{OAuthTokenResponseView, StoredOAuthTokensView};

verus! {

impl RefreshStageView {
    /// The authorization manager may hold the refresh token.
    pub open spec fn exposes_refresh_token(self) -> bool {
        self is Staging || self is Requesting
    }

    /// How many calls can follow the one that is waited for, and itself.
    pub open spec fn calls_left(self) -> nat {
        match self {
            RefreshStageView::Locking => 7,
            RefreshStageView::Rereading => 6,
            RefreshStageView::Staging { .. } => 5,
            RefreshStageView::Requesting { .. } => 4,
            RefreshStageView::Restoring { .. } => 3,
            RefreshStageView::Persisting { .. } => 2,
            _ => 1,
        }
    }
}

/// A transaction makes at most seven calls: each brings it nearer to its end.
pub proof fn law_transaction_ends(
    transaction: RefreshTransactionView,
    reply: RefreshReplyView,
    reading: Option<nat>,
)
    requires
        transaction.accepts(reply),
    ensures
        transaction.resume(reply, reading) matches RefreshStepView::Call(_, next)
            ==> next.stage.calls_left() < transaction.stage.calls_left(),
        transaction.stage.calls_left() == 1 ==> transaction.resume(reply, reading) is Done,
{
}

/// The manager is given the refresh token only after the credentials were read again under the
/// lock, and asks the provider only after it was given the refresh token.
pub proof fn law_refresh_token_is_exposed_under_lock(
    transaction: RefreshTransactionView,
    reply: RefreshReplyView,
    reading: Option<nat>,
)
    requires
        transaction.accepts(reply),
    ensures
        transaction.resume(reply, reading) matches RefreshStepView::Call(
            RefreshCallView::Install { credentials, exposure: CredentialExposure::Refresh },
            next,
        ) ==> transaction.stage is Rereading && next.stage is Staging,
        transaction.resume(reply, reading) matches RefreshStepView::Call(
            RefreshCallView::RequestRefresh { timeout },
            next,
        ) ==> transaction.stage is Staging && next.stage is Requesting,
{
}

/// Once the manager may hold the refresh token, the transaction does not end before the manager
/// was told to take request credentials in its place: request credentials hold neither the
/// refresh token nor the lifetime.
pub proof fn law_refresh_token_is_taken_back(
    transaction: RefreshTransactionView,
    reply: RefreshReplyView,
    reading: Option<nat>,
)
    requires
        transaction.accepts(reply),
        transaction.stage.exposes_refresh_token(),
    ensures
        transaction.resume(reply, reading) matches RefreshStepView::Call(call, next) && (
        next.stage.exposes_refresh_token() || (call matches RefreshCallView::Install {
            credentials,
            exposure: CredentialExposure::Request,
        } && credentials.token_response.refresh_token is None
            && credentials.token_response.expires_in is None)),
{
}

/// The reply says that `tokens` were saved as the outcome of a refresh.
pub open spec fn was_saved(
    transaction: RefreshTransactionView,
    reply: RefreshReplyView,
    tokens: StoredOAuthTokensView,
) -> bool {
    &&& transaction.stage matches RefreshStageView::Persisting { latest, refreshed }
    &&& refreshed == tokens
    &&& reply matches RefreshReplyView::Stored(StoreOutcomeView::Saved(result))
    &&& result is Ok
}

/// The reply says that the manager took `tokens`, which were read again.
pub open spec fn was_adopted(
    transaction: RefreshTransactionView,
    reply: RefreshReplyView,
    tokens: StoredOAuthTokensView,
) -> bool {
    &&& transaction.stage matches RefreshStageView::Adopting { latest }
    &&& latest == tokens
    &&& reply matches RefreshReplyView::Installed(result)
    &&& result is Ok
}

/// The client's credentials are replaced only by tokens that were just saved, or that were read
/// again and given to the manager; a transaction that fails leaves them, unless they are gone from
/// their store.
pub proof fn law_current_credentials_follow_the_store(
    transaction: RefreshTransactionView,
    reply: RefreshReplyView,
    reading: Option<nat>,
)
    requires
        transaction.accepts(reply),
    ensures
        transaction.resume(reply, reading) matches RefreshStepView::Done(outcome) ==> {
            &&& outcome.current matches CurrentCredentialsView::Replace(tokens) ==> {
                &&& outcome.result is Ok
                &&& {
                    ||| was_saved(transaction, reply, tokens)
                    ||| was_adopted(transaction, reply, tokens)
                }
            }
            &&& outcome.current is Clear ==> outcome.result is Err && transaction.stage is Clearing
            &&& outcome.result is Ok ==> outcome.current is Replace
        },
{
}

/// A transaction reads and writes stored credentials only in the store that they came from.
pub proof fn law_transaction_stays_on_its_store(
    transaction: RefreshTransactionView,
    reply: RefreshReplyView,
    reading: Option<nat>,
)
    requires
        transaction.accepts(reply),
    ensures
        transaction.resume(reply, reading) matches RefreshStepView::Call(call, next) ==> {
            &&& next.credential_store == transaction.credential_store
            &&& next.server_name == transaction.server_name && next.url == transaction.url
            &&& call matches RefreshCallView::Store(step) ==> step == StoreStepView::reread(
                transaction.server_name,
                transaction.url,
                transaction.credential_store,
            ) || exists|tokens: StoredOAuthTokensView|
                step == #[trigger] StoreStepView::persist(
                    transaction.server_name,
                    tokens,
                    transaction.credential_store,
                )
        },
{
}

/// Tokens that were read again and need no refresh are used without asking the provider, unless
/// their access token is the one that was rejected. A rejection that arrives after another client
/// refreshed the tokens therefore leads to no second refresh.
pub proof fn law_refreshed_elsewhere_is_adopted(
    transaction: RefreshTransactionView,
    found: ResolvedOAuthTokensView,
    reading: Option<nat>,
    installed: Result<(), InstallFailureView>,
)
    requires
        transaction.stage is Rereading,
        !crate::oauth::tokens::needs_refresh(
            found.tokens.expires_at,
            crate::clock::epoch_nanos(reading),
        ),
        transaction.reason matches RefreshReasonView::Unauthorized { rejected_access_token }
            ==> rejected_access_token != found.tokens.token_response.access_token,
    ensures
        transaction.resume(
            RefreshReplyView::Stored(StoreOutcomeView::Loaded(Ok(Some(found)))),
            reading,
        ) matches RefreshStepView::Call(call, next) && call == (RefreshCallView::Install {
            credentials: found.tokens.credentials(CredentialExposure::Request, None),
            exposure: CredentialExposure::Request,
        }) && next.resume(RefreshReplyView::Installed(installed), reading) is Done,
{
}

/// Tokens that could not be saved are dropped: the manager is given the previous ones back, the
/// client keeps what it holds, and the failure to save is what is reported.
pub proof fn law_unsaved_tokens_are_dropped(
    transaction: RefreshTransactionView,
    latest: StoredOAuthTokensView,
    refreshed: StoredOAuthTokensView,
    error: OAuthErrorView,
    reading: Option<nat>,
)
    requires
        transaction.stage == (RefreshStageView::Persisting { latest, refreshed }),
    ensures
        transaction.resume(
            RefreshReplyView::Stored(StoreOutcomeView::Saved(Err(error))),
            reading,
        ) matches RefreshStepView::Call(call, next) && call == (RefreshCallView::Install {
            credentials: latest.credentials(CredentialExposure::Request, None),
            exposure: CredentialExposure::Request,
        }) && next.resume(RefreshReplyView::Installed(Ok(())), reading) == RefreshStepView::Done(
            RefreshOutcomeView { result: Err(error), current: CurrentCredentialsView::Keep },
        ),
{
}

/// What a refresh transaction acts on.
#[verifier::ext_equal]
pub struct RefreshWorld {
    pub stores: Stores,
    /// The credentials that the authorization manager holds.
    pub manager: Option<StoredCredentialsView>,
    /// What the provider answers.
    pub provider: ProviderReplyView,
    /// How often the provider was asked.
    pub requests: nat,
}

impl RefreshWorld {
    /// What a call leaves behind, and what it gives back.
    pub open spec fn answer(self, call: RefreshCallView, now: nat) -> (
        RefreshWorld,
        RefreshReplyView,
    ) {
        match call {
            RefreshCallView::LockRefresh { server_name, url } => (
                self,
                RefreshReplyView::Locked(Ok(())),
            ),
            RefreshCallView::Store(step) => (
                RefreshWorld { stores: self.stores.after(step, now), ..self },
                RefreshReplyView::Stored(self.stores.outcome(step, now)->0),
            ),
            RefreshCallView::ClearManager => (
                RefreshWorld { manager: None, ..self },
                RefreshReplyView::Cleared,
            ),
            RefreshCallView::Install { credentials, exposure } => (
                RefreshWorld { manager: Some(credentials), ..self },
                RefreshReplyView::Installed(Ok(())),
            ),
            RefreshCallView::RequestRefresh { timeout } => (
                RefreshWorld { requests: self.requests + 1, ..self },
                RefreshReplyView::Refreshed(self.provider),
            ),
        }
    }

    /// What a transaction of at most `calls` calls leaves behind, and what it comes to.
    pub open spec fn run(self, step: RefreshStepView, now: nat, calls: nat) -> (
        RefreshWorld,
        Option<RefreshOutcomeView>,
    )
        decreases calls,
    {
        match step {
            RefreshStepView::Done(outcome) => (self, Some(outcome)),
            RefreshStepView::Call(call, transaction) => if calls == 0 {
                (self, None)
            } else {
                let (world, reply) = self.answer(call, now);
                world.run(transaction.resume(reply, Some(now)), now, (calls - 1) as nat)
            },
        }
    }

    /// The store that the client uses works, and holds `tokens` for its server.
    pub open spec fn holds(
        self,
        client: OAuthPersistorView,
        tokens: StoredOAuthTokensView,
    ) -> bool {
        holds(
            self.stores,
            client.server_name,
            client.url,
            client.credential_store,
            tokens,
        )
    }
}

/// The store works, and reading it gives `tokens` with the lifetime that is left then.
pub open spec fn holds(
    stores: Stores,
    server_name: Seq<char>,
    url: Seq<char>,
    store: ResolvedOAuthCredentialStore,
    tokens: StoredOAuthTokensView,
) -> bool {
    &&& works(stores, store)
    &&& forall|at: nat|
        #[trigger] stores.outcome(StoreStepView::reread(server_name, url, store), at) == Some(
            StoreOutcomeView::Loaded(
                Ok(
                    Some(
                        ResolvedOAuthTokensView { tokens: tokens.with_lifetime_left(at), store },
                    ),
                ),
            ),
        )
}

/// The store can be read and written.
pub open spec fn works(stores: Stores, store: ResolvedOAuthCredentialStore) -> bool {
    match store {
        ResolvedOAuthCredentialStore::File => stores.file_failure is None
            && stores.file_is_consistent(),
        ResolvedOAuthCredentialStore::Keyring(_) => stores.keyring_failure is None,
    }
}

/// What a store keeps of tokens that are written to it at `now`.
pub open spec fn kept_by(
    store: ResolvedOAuthCredentialStore,
    tokens: StoredOAuthTokensView,
    now: nat,
) -> StoredOAuthTokensView {
    match store {
        ResolvedOAuthCredentialStore::File => tokens.fallback_entry(now).tokens(),
        ResolvedOAuthCredentialStore::Keyring(_) => tokens,
    }
}

#[verifier::spinoff_prover]
#[verifier::rlimit(30)]
proof fn lemma_reread_changes_nothing(
    stores: Stores,
    server_name: Seq<char>,
    url: Seq<char>,
    store: ResolvedOAuthCredentialStore,
    now: nat,
)
    ensures
        stores.after(StoreStepView::reread(server_name, url, store), now) == stores,
{
    reveal_with_fuel(Stores::run, 8);
}

#[verifier::spinoff_prover]
#[verifier::rlimit(30)]
proof fn lemma_persisted_is_held(
    stores: Stores,
    tokens: StoredOAuthTokensView,
    store: ResolvedOAuthCredentialStore,
    now: nat,
)
    requires
        works(stores, store),
    ensures
        stores.outcome(StoreStepView::persist(tokens.server_name, tokens, store), now) == Some(
            StoreOutcomeView::Saved(Ok(())),
        ),
        holds(
            stores.after(StoreStepView::persist(tokens.server_name, tokens, store), now),
            tokens.server_name,
            tokens.url,
            store,
            kept_by(store, tokens, now),
        ),
{
    let after = stores.after(StoreStepView::persist(tokens.server_name, tokens, store), now);
    let reread = StoreStepView::reread(tokens.server_name, tokens.url, store);
    match store {
        ResolvedOAuthCredentialStore::File => {
            reveal_with_fuel(Stores::run, 8);
            let key = crate::oauth::keys::store_key(tokens.server_name, tokens.url);
            crate::oauth::store_laws::lemma_file_with_entry(
                crate::oauth::store_laws::file_entries(stores.file),
                key,
                tokens.fallback_entry(now),
            );
        },
        ResolvedOAuthCredentialStore::Keyring(_) => {
            reveal_with_fuel(Stores::run, 8);
        },
    }
}

/// A refresh that the provider answers asks it once, whatever it is for, unless the stored tokens
/// are taken over without it. The store that the client uses then holds what it can keep of the new
/// tokens, the manager holds what requests need of them, and the client holds them.
pub proof fn law_answered_refresh_replaces_the_tokens(
    world: RefreshWorld,
    client: OAuthPersistorView,
    stored: StoredOAuthTokensView,
    response: OAuthTokenResponseView,
    reason: RefreshReasonView,
    timeout: nat,
    now: nat,
)
    requires
        world.holds(client, stored),
        world.provider == ProviderReplyView::Token(response),
        !reason.adopts(stored.with_lifetime_left(now), now),
    ensures
        ({
            let refreshed = stored.with_lifetime_left(now).refreshed_by(
                response,
                client.server_name,
                client.url,
                now,
            );
            let (after, outcome) = world.run(client.begin(reason, timeout), now, 7);
            &&& outcome == Some(
                RefreshOutcomeView {
                    result: Ok(()),
                    current: CurrentCredentialsView::Replace(refreshed),
                },
            )
            &&& after.holds(client, kept_by(client.credential_store, refreshed, now))
            &&& after.manager == Some(refreshed.credentials(CredentialExposure::Request, None))
            &&& after.requests == world.requests + 1
        }),
{
    reveal_with_fuel(RefreshWorld::run, 8);
    let store = client.credential_store;
    let refreshed = stored.with_lifetime_left(now).refreshed_by(
        response,
        client.server_name,
        client.url,
        now,
    );
    lemma_reread_changes_nothing(world.stores, client.server_name, client.url, store, now);
    lemma_persisted_is_held(world.stores, refreshed, store, now);
    assert(world.stores.outcome(
        StoreStepView::reread(client.server_name, client.url, store),
        now,
    ) is Some);
}

/// Tokens that are in their store and need no refresh are taken over by every transaction but one
/// for a rejection of their own access token: the provider is not asked, and no store changes. So
/// a login that is saved before a refresh reads again is what the refresh takes over.
pub proof fn law_stored_tokens_are_taken_over(
    world: RefreshWorld,
    client: OAuthPersistorView,
    stored: StoredOAuthTokensView,
    reason: RefreshReasonView,
    timeout: nat,
    now: nat,
)
    requires
        world.holds(client, stored),
        reason.adopts(stored.with_lifetime_left(now), now),
    ensures
        ({
            let (after, outcome) = world.run(client.begin(reason, timeout), now, 7);
            &&& outcome == Some(
                RefreshOutcomeView {
                    result: Ok(()),
                    current: CurrentCredentialsView::Replace(stored.with_lifetime_left(now)),
                },
            )
            &&& after.manager == Some(
                stored.with_lifetime_left(now).credentials(CredentialExposure::Request, None),
            )
            &&& after.stores == world.stores
            &&& after.requests == world.requests
        }),
{
    reveal_with_fuel(RefreshWorld::run, 8);
    let store = client.credential_store;
    lemma_reread_changes_nothing(world.stores, client.server_name, client.url, store, now);
    assert(world.stores.outcome(
        StoreStepView::reread(client.server_name, client.url, store),
        now,
    ) is Some);
}

/// A refresh of expired tokens that the provider answers asks it once. The store that the client
/// uses then holds what it can keep of the new tokens, the manager holds what requests need of
/// them, and the client holds them.
pub proof fn law_refresh_replaces_expired_tokens(
    world: RefreshWorld,
    client: OAuthPersistorView,
    stored: StoredOAuthTokensView,
    response: OAuthTokenResponseView,
    timeout: nat,
    now: nat,
)
    requires
        world.holds(client, stored),
        world.provider == ProviderReplyView::Token(response),
        crate::oauth::tokens::needs_refresh(stored.expires_at, now),
    ensures
        ({
            let refreshed = stored.with_lifetime_left(now).refreshed_by(
                response,
                client.server_name,
                client.url,
                now,
            );
            let (after, outcome) = world.run(
                client.begin(RefreshReasonView::Expiry, timeout),
                now,
                7,
            );
            &&& outcome == Some(
                RefreshOutcomeView {
                    result: Ok(()),
                    current: CurrentCredentialsView::Replace(refreshed),
                },
            )
            &&& after.holds(client, kept_by(client.credential_store, refreshed, now))
            &&& after.manager == Some(refreshed.credentials(CredentialExposure::Request, None))
            &&& after.requests == world.requests + 1
        }),
{
    law_answered_refresh_replaces_the_tokens(
        world,
        client,
        stored,
        response,
        RefreshReasonView::Expiry,
        timeout,
        now,
    );
}

/// A refresh that the provider refuses or does not answer changes no store, whatever it is for: the
/// store still holds the tokens, so a later refresh can succeed. The manager holds what requests
/// need of them, and the client keeps what it holds.
pub proof fn law_unanswered_refresh_changes_nothing(
    world: RefreshWorld,
    client: OAuthPersistorView,
    stored: StoredOAuthTokensView,
    reason: RefreshReasonView,
    timeout: nat,
    now: nat,
)
    requires
        world.holds(client, stored),
        !(world.provider is Token),
        !reason.adopts(stored.with_lifetime_left(now), now),
    ensures
        ({
            let (after, outcome) = world.run(client.begin(reason, timeout), now, 7);
            &&& outcome matches Some(end) && end.result is Err && end.current is Keep
            &&& after.stores == world.stores
            &&& after.holds(client, stored)
            &&& after.manager == Some(
                stored.with_lifetime_left(now).credentials(CredentialExposure::Request, None),
            )
            &&& after.requests == world.requests + 1
        }),
{
    reveal_with_fuel(RefreshWorld::run, 8);
    let store = client.credential_store;
    lemma_reread_changes_nothing(world.stores, client.server_name, client.url, store, now);
    assert(world.stores.outcome(
        StoreStepView::reread(client.server_name, client.url, store),
        now,
    ) is Some);
}

/// A second client whose request was rejected with the token that a refresh has replaced takes
/// over the new tokens: two rejections of one token lead to one request to the provider. Both
/// clients then hold the new tokens, the second as the store keeps them, and the store and the
/// manager hold them too.
pub proof fn law_one_token_is_refreshed_once(
    world: RefreshWorld,
    first: OAuthPersistorView,
    second: OAuthPersistorView,
    stored: StoredOAuthTokensView,
    response: OAuthTokenResponseView,
    timeout: nat,
    now: nat,
    later: nat,
)
    requires
        world.holds(first, stored),
        second.server_name == first.server_name,
        second.url == first.url,
        second.credential_store == first.credential_store,
        world.provider == ProviderReplyView::Token(response),
        response.access_token != stored.token_response.access_token,
        !crate::oauth::tokens::needs_refresh(
            crate::oauth::tokens::expiry_millis(response.expires_in, now),
            later,
        ),
    ensures
        ({
            let reason = RefreshReasonView::Unauthorized {
                rejected_access_token: stored.token_response.access_token,
            };
            let (refreshed, outcome) = world.run(first.begin(reason, timeout), now, 7);
            let (adopted, second_outcome) = refreshed.run(second.begin(reason, timeout), later, 7);
            let tokens = stored.with_lifetime_left(now).refreshed_by(
                response,
                first.server_name,
                first.url,
                now,
            );
            let kept = kept_by(first.credential_store, tokens, now);
            &&& outcome == Some(
                RefreshOutcomeView {
                    result: Ok(()),
                    current: CurrentCredentialsView::Replace(tokens),
                },
            )
            &&& second_outcome == Some(
                RefreshOutcomeView {
                    result: Ok(()),
                    current: CurrentCredentialsView::Replace(kept.with_lifetime_left(later)),
                },
            )
            &&& adopted.requests == world.requests + 1
            &&& adopted.stores == refreshed.stores
            &&& adopted.holds(first, kept)
            &&& adopted.manager == Some(
                kept.with_lifetime_left(later).credentials(CredentialExposure::Request, None),
            )
        }),
{
    let reason = RefreshReasonView::Unauthorized {
        rejected_access_token: stored.token_response.access_token,
    };
    law_answered_refresh_replaces_the_tokens(world, first, stored, response, reason, timeout, now);
    let refreshed = stored.with_lifetime_left(now).refreshed_by(
        response,
        first.server_name,
        first.url,
        now,
    );
    let after = world.run(first.begin(reason, timeout), now, 7).0;
    law_stored_tokens_are_taken_over(
        after,
        second,
        kept_by(first.credential_store, refreshed, now),
        reason,
        timeout,
        later,
    );
}

/// A transaction that finds the tokens gone from their store takes them from the manager and from
/// the client, and asks for authorization.
pub proof fn law_removed_tokens_are_not_brought_back(
    world: RefreshWorld,
    client: OAuthPersistorView,
    reason: RefreshReasonView,
    timeout: nat,
    now: nat,
)
    requires
        world.stores.outcome(
            StoreStepView::reread(client.server_name, client.url, client.credential_store),
            now,
        ) == Some(StoreOutcomeView::Loaded(Ok(None))),
    ensures
        ({
            let (after, outcome) = world.run(client.begin(reason, timeout), now, 7);
            &&& outcome matches Some(end) && end.result is Err && end.current is Clear
            &&& after == (RefreshWorld { manager: None, ..world })
        }),
{
    reveal_with_fuel(RefreshWorld::run, 8);
    lemma_reread_changes_nothing(
        world.stores,
        client.server_name,
        client.url,
        client.credential_store,
        now,
    );
}

#[verifier::spinoff_prover]
#[verifier::rlimit(30)]
proof fn lemma_reread_finds_nothing(
    stores: Stores,
    server_name: Seq<char>,
    url: Seq<char>,
    backend: AuthKeyringBackendKind,
    store: ResolvedOAuthCredentialStore,
    now: nat,
)
    requires
        stores.keyring_failure is None,
        stores.file_failure is None,
        store == ResolvedOAuthCredentialStore::File || store
            == ResolvedOAuthCredentialStore::Keyring(backend),
        !stores.keyring.contains_key(crate::oauth::keys::store_key(server_name, url)),
        backend == AuthKeyringBackendKind::Secrets ==> !stores.secrets.contains_key(
            crate::oauth::keys::secret_name(server_name, url),
        ),
        crate::oauth::fallback_file::entry_for(
            crate::oauth::store_laws::file_entries(stores.file),
            crate::oauth::keys::store_key(server_name, url),
        ) is None,
    ensures
        stores.outcome(StoreStepView::reread(server_name, url, store), now) == Some(
            StoreOutcomeView::Loaded(Ok(None)),
        ),
{
    reveal_with_fuel(Stores::run, 8);
}

proof fn lemma_deleted_is_not_reread(
    stores: Stores,
    server_name: Seq<char>,
    url: Seq<char>,
    mode: OAuthCredentialsStoreMode,
    backend: AuthKeyringBackendKind,
    store: ResolvedOAuthCredentialStore,
    now: nat,
    later: nat,
)
    requires
        stores.keyring_failure is None,
        stores.file_failure is None,
        stores.file_is_consistent(),
        store == ResolvedOAuthCredentialStore::File || store
            == ResolvedOAuthCredentialStore::Keyring(backend),
    ensures
        stores.after(StoreStepView::delete(server_name, url, mode, backend), now).outcome(
            StoreStepView::reread(server_name, url, store),
            later,
        ) == Some(StoreOutcomeView::Loaded(Ok(None))),
{
    crate::oauth::store_laws::lemma_nothing_left(stores, server_name, url, mode, backend, now);
    lemma_reread_finds_nothing(
        stores.after(StoreStepView::delete(server_name, url, mode, backend), now),
        server_name,
        url,
        backend,
        store,
        later,
    );
}

/// A logout is not undone: a refresh that comes after it finds the tokens gone, whichever of the
/// stores it reads, asks the provider nothing, and puts nothing back.
pub proof fn law_logout_is_not_undone(
    world: RefreshWorld,
    client: OAuthPersistorView,
    mode: OAuthCredentialsStoreMode,
    backend: AuthKeyringBackendKind,
    reason: RefreshReasonView,
    timeout: nat,
    now: nat,
    later: nat,
)
    requires
        world.stores.keyring_failure is None,
        world.stores.file_failure is None,
        world.stores.file_is_consistent(),
        client.credential_store == ResolvedOAuthCredentialStore::File || client.credential_store
            == ResolvedOAuthCredentialStore::Keyring(backend),
    ensures
        ({
            let gone = RefreshWorld {
                stores: world.stores.after(
                    StoreStepView::delete(client.server_name, client.url, mode, backend),
                    now,
                ),
                ..world
            };
            let (after, outcome) = gone.run(client.begin(reason, timeout), later, 7);
            &&& outcome matches Some(end) && end.result is Err && end.current is Clear
            &&& after == (RefreshWorld { manager: None, ..gone })
        }),
{
    let step = StoreStepView::delete(client.server_name, client.url, mode, backend);
    let gone = RefreshWorld { stores: world.stores.after(step, now), ..world };
    lemma_deleted_is_not_reread(
        world.stores,
        client.server_name,
        client.url,
        mode,
        backend,
        client.credential_store,
        now,
        later,
    );
    law_removed_tokens_are_not_brought_back(gone, client, reason, timeout, later);
}

} // verus!
