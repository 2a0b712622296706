//! What holds across operations on stored credentials.

use vstd::prelude::*;

use crate::oauth::error::OAuthErrorView;
use crate::oauth::fallback_file::{FallbackEntries, FallbackTokenEntryView};
use crate::oauth::store::{
    AuthKeyringBackendKind, OAuthCredentialsStoreMode, ResolvedOAuthCredentialStore,
    FileFailureView, LockedOperationView, ResolvedOAuthTokensView, StoreCallView, StoreFailureView,
    StoreOperationView, StoreOutcomeView, StoreReplyView, StoreStepView,
};
use crate::oauth::tokens::StoredOAuthTokensView;

verus! {

/// The stores that operations act on: what each of them holds, and whether it fails.
#[verifier::ext_equal]
pub struct Stores {
    /// The keyring's entries under the service of this library.
    pub keyring: Map<Seq<char>, StoredOAuthTokensView>,
    /// The encrypted store's entries.
    pub secrets: Map<Seq<char>, StoredOAuthTokensView>,
    /// The file, if there is one.
    pub file: Option<FallbackEntries>,
    /// The message with which the keyring fails, and the encrypted store that depends on it.
    pub keyring_failure: Option<Seq<char>>,
    /// The message with which the file cannot be read or written.
    pub file_failure: Option<Seq<char>>,
}

/// What reading from a store gives back.
pub open spec fn loaded(
    entries: Map<Seq<char>, StoredOAuthTokensView>,
    key: Seq<char>,
    failure: Option<Seq<char>>,
) -> StoreReplyView {
    StoreReplyView::Loaded(
        match failure {
            Some(message) => Err(StoreFailureView::Failed(message)),
            None => Ok(
                if entries.contains_key(key) {
                    Some(entries[key])
                } else {
                    None
                },
            ),
        },
    )
}

/// What deleting from a store gives back.
pub open spec fn deleted(
    entries: Map<Seq<char>, StoredOAuthTokensView>,
    key: Seq<char>,
    failure: Option<Seq<char>>,
) -> StoreReplyView {
    StoreReplyView::Deleted(
        match failure {
            Some(message) => Err(StoreFailureView::Failed(message)),
            None => Ok(entries.contains_key(key)),
        },
    )
}

/// What locking or writing a store gives back.
pub open spec fn done(failure: Option<Seq<char>>) -> StoreReplyView {
    StoreReplyView::Done(
        match failure {
            Some(message) => Err(StoreFailureView::Failed(message)),
            None => Ok(()),
        },
    )
}

impl Stores {
    /// What the stores hold after a call, and what the call gives back.
    pub open spec fn answer(self, call: StoreCallView) -> (Stores, StoreReplyView) {
        match call {
            StoreCallView::LockRefresh { server_name, url } => (self, done(None)),
            StoreCallView::LoadKeyring { service, key } => (
                self,
                loaded(self.keyring, key, self.keyring_failure),
            ),
            StoreCallView::SaveKeyring { service, key, tokens } => (
                if self.keyring_failure is None {
                    Stores { keyring: self.keyring.insert(key, tokens), ..self }
                } else {
                    self
                },
                done(self.keyring_failure),
            ),
            StoreCallView::DeleteKeyring { service, key } => (
                if self.keyring_failure is None {
                    Stores { keyring: self.keyring.remove(key), ..self }
                } else {
                    self
                },
                deleted(self.keyring, key, self.keyring_failure),
            ),
            StoreCallView::LockSecrets => (self, done(None)),
            StoreCallView::LoadSecret { name } => (
                self,
                loaded(self.secrets, name, self.keyring_failure),
            ),
            StoreCallView::SaveSecret { name, tokens } => (
                if self.keyring_failure is None {
                    Stores { secrets: self.secrets.insert(name, tokens), ..self }
                } else {
                    self
                },
                done(self.keyring_failure),
            ),
            StoreCallView::DeleteSecret { name } => (
                if self.keyring_failure is None {
                    Stores { secrets: self.secrets.remove(name), ..self }
                } else {
                    self
                },
                deleted(self.secrets, name, self.keyring_failure),
            ),
            StoreCallView::LockFile => (self, done(None)),
            StoreCallView::ReadFile => (
                self,
                StoreReplyView::FileRead(
                    match self.file_failure {
                        Some(message) => Err(FileFailureView::NotLocated(message)),
                        None => Ok(self.file),
                    },
                ),
            ),
            StoreCallView::WriteFile { file } => (
                if self.file_failure is None {
                    Stores { file: Some(file), ..self }
                } else {
                    self
                },
                done(self.file_failure),
            ),
            StoreCallView::RemoveFile => (
                if self.file_failure is None {
                    Stores { file: None, ..self }
                } else {
                    self
                },
                done(self.file_failure),
            ),
        }
    }

    /// What the stores hold after an operation of at most `calls` calls at `now`, and what the
    /// operation came to.
    pub open spec fn run(self, step: StoreStepView, now: nat, calls: nat) -> (
        Stores,
        Option<StoreOutcomeView>,
    )
        decreases calls,
    {
        match step {
            StoreStepView::Done(outcome) => (self, Some(outcome)),
            StoreStepView::Call(call, operation) => if calls == 0 {
                (self, None)
            } else {
                let (stores, reply) = self.answer(call);
                stores.run(operation.resume(reply, now), now, (calls - 1) as nat)
            },
        }
    }

    /// What the stores hold after an operation at `now`.
    pub open spec fn after(self, step: StoreStepView, now: nat) -> Stores {
        self.run(step, now, 7).0
    }

    /// What an operation at `now` comes to.
    pub open spec fn outcome(self, step: StoreStepView, now: nat) -> Option<StoreOutcomeView> {
        self.run(step, now, 7).1
    }

    /// The file holds its entries under the keys of their own servers, in the order of the keys.
    pub open spec fn file_is_consistent(self) -> bool {
        self.file matches Some(entries) ==> crate::oauth::fallback_file::keys_rise(entries)
            && own_keys(entries)
    }
}

/// Each entry stands under the key of its own server.
pub open spec fn own_keys(entries: FallbackEntries) -> bool {
    forall|i: int|
        0 <= i < entries.len() ==> crate::oauth::keys::store_key(
            (#[trigger] entries[i]).1.server_name,
            entries[i].1.server_url,
        ) == entries[i].0
}

/// The entries that the file holds, none where there is no file.
pub open spec fn file_entries(file: Option<FallbackEntries>) -> FallbackEntries {
    match file {
        Some(entries) => entries,
        None => seq![],
    }
}

proof fn lemma_own_keys_tail(entries: FallbackEntries)
    requires
        own_keys(entries),
        entries.len() > 0,
    ensures
        own_keys(entries.drop_first()),
        crate::oauth::keys::store_key(entries[0].1.server_name, entries[0].1.server_url)
            == entries[0].0,
{
    let rest = entries.drop_first();
    assert forall|i: int| 0 <= i < rest.len() implies crate::oauth::keys::store_key(
        (#[trigger] rest[i]).1.server_name,
        rest[i].1.server_url,
    ) == rest[i].0 by {
        assert(rest[i] == entries[i + 1]);
    }
    assert(entries[0] == entries[0]);
}

proof fn lemma_entry_for_added(
    entries: FallbackEntries,
    key: Seq<char>,
    entry: FallbackTokenEntryView,
)
    requires
        own_keys(entries),
        crate::oauth::keys::store_key(entry.server_name, entry.server_url) == key,
    ensures
        crate::oauth::fallback_file::entry_for(
            crate::oauth::fallback_file::with_entry(entries, key, entry),
            key,
        ) == Some(entry),
    decreases entries.len(),
{
    let added = crate::oauth::fallback_file::with_entry(entries, key, entry);
    if entries.len() > 0 && entries[0].0 != key && !crate::oauth::fallback_file::text_less(
        key,
        entries[0].0,
    ) {
        lemma_own_keys_tail(entries);
        lemma_entry_for_added(entries.drop_first(), key, entry);
        assert(added[0] == entries[0]);
        assert(added.drop_first() =~= crate::oauth::fallback_file::with_entry(
            entries.drop_first(),
            key,
            entry,
        ));
    } else {
        assert(added[0] == (key, entry));
    }
}

/// The file that holds an entry under the key of its own server is read back as that entry.
pub proof fn lemma_file_with_entry(
    entries: FallbackEntries,
    key: Seq<char>,
    entry: FallbackTokenEntryView,
)
    requires
        own_keys(entries),
        crate::oauth::fallback_file::keys_rise(entries),
        crate::oauth::keys::store_key(entry.server_name, entry.server_url) == key,
    ensures
        ({
            let added = crate::oauth::fallback_file::with_entry(entries, key, entry);
            &&& added.len() > 0
            &&& own_keys(added)
            &&& crate::oauth::fallback_file::keys_rise(added)
            &&& crate::oauth::fallback_file::entry_for(added, key) == Some(entry)
        }),
{
    lemma_entry_for_added(entries, key, entry);
    lemma_own_keys_with(entries, key, entry);
    crate::oauth::fallback_file::lemma_with_entry_keeps_order(entries, key, entry);
}

proof fn lemma_own_keys_with(
    entries: FallbackEntries,
    key: Seq<char>,
    entry: FallbackTokenEntryView,
)
    requires
        own_keys(entries),
        crate::oauth::keys::store_key(entry.server_name, entry.server_url) == key,
    ensures
        own_keys(crate::oauth::fallback_file::with_entry(entries, key, entry)),
    decreases entries.len(),
{
    let added = crate::oauth::fallback_file::with_entry(entries, key, entry);
    if entries.len() > 0 {
        let rest = entries.drop_first();
        lemma_own_keys_tail(entries);
        lemma_own_keys_with(rest, key, entry);
        let added_rest = crate::oauth::fallback_file::with_entry(rest, key, entry);
        assert forall|i: int| 0 <= i < added.len() implies crate::oauth::keys::store_key(
            (#[trigger] added[i]).1.server_name,
            added[i].1.server_url,
        ) == added[i].0 by {
            if i > 0 {
                if entries[0].0 == key {
                    assert(added[i] == rest[i - 1]);
                } else if crate::oauth::fallback_file::text_less(key, entries[0].0) {
                    assert(added[i] == entries[i - 1]);
                } else {
                    assert(added[i] == added_rest[i - 1]);
                }
            }
        }
    }
}

proof fn lemma_entry_for_absent(entries: FallbackEntries, key: Seq<char>)
    requires
        own_keys(entries),
        !crate::oauth::fallback_file::has_entry(entries, key),
    ensures
        crate::oauth::fallback_file::entry_for(entries, key) is None,
    decreases entries.len(),
{
    if entries.len() > 0 {
        let rest = entries.drop_first();
        lemma_own_keys_tail(entries);
        assert(entries[0].0 != key);
        assert forall|i: int| 0 <= i < rest.len() implies #[trigger] rest[i].0 != key by {
            assert(rest[i].0 == entries[i + 1].0);
        }
        lemma_entry_for_absent(rest, key);
    }
}

proof fn lemma_entry_gone(entries: FallbackEntries, key: Seq<char>)
    requires
        crate::oauth::fallback_file::keys_rise(entries),
    ensures
        !crate::oauth::fallback_file::has_entry(
            crate::oauth::fallback_file::without_entry(entries, key),
            key,
        ),
    decreases entries.len(),
{
    if entries.len() > 0 {
        let rest = entries.drop_first();
        assert forall|i: int, j: int|
            0 <= i < j < rest.len() implies crate::oauth::fallback_file::text_less(
            #[trigger] rest[i].0,
            #[trigger] rest[j].0,
        ) by {
            assert(rest[i].0 == entries[i + 1].0 && rest[j].0 == entries[j + 1].0);
        }
        if entries[0].0 == key {
            assert forall|i: int| 0 <= i < rest.len() implies #[trigger] rest[i].0 != key by {
                assert(rest[i].0 == entries[i + 1].0);
                crate::oauth::fallback_file::lemma_text_less_irreflexive(key);
            }
        } else {
            lemma_entry_gone(rest, key);
            let removed = crate::oauth::fallback_file::without_entry(entries, key);
            let removed_rest = crate::oauth::fallback_file::without_entry(rest, key);
            assert forall|i: int| 0 <= i < removed.len() implies #[trigger] removed[i].0 != key by {
                if i > 0 {
                    assert(removed[i].0 == removed_rest[i - 1].0);
                }
            }
        }
    }
}

proof fn lemma_own_keys_without(entries: FallbackEntries, key: Seq<char>)
    requires
        own_keys(entries),
    ensures
        own_keys(crate::oauth::fallback_file::without_entry(entries, key)),
    decreases entries.len(),
{
    if entries.len() > 0 {
        let rest = entries.drop_first();
        lemma_own_keys_tail(entries);
        lemma_own_keys_without(rest, key);
        if entries[0].0 != key {
            let removed = crate::oauth::fallback_file::without_entry(entries, key);
            let removed_rest = crate::oauth::fallback_file::without_entry(rest, key);
            assert forall|i: int| 0 <= i < removed.len() implies crate::oauth::keys::store_key(
                (#[trigger] removed[i]).1.server_name,
                removed[i].1.server_url,
            ) == removed[i].0 by {
                if i > 0 {
                    assert(removed[i] == removed_rest[i - 1]);
                }
            }
        }
    }
}

/// What is saved to a working keyring is found there again, with the lifetime that is left when it
/// is read, whatever becomes of the file.
#[verifier::spinoff_prover]
#[verifier::rlimit(30)]
pub proof fn law_saved_to_keyring_is_found(
    stores: Stores,
    server_name: Seq<char>,
    tokens: StoredOAuthTokensView,
    mode: OAuthCredentialsStoreMode,
    backend: AuthKeyringBackendKind,
    now: nat,
    later: nat,
)
    requires
        stores.keyring_failure is None,
        mode != OAuthCredentialsStoreMode::File,
    ensures
        stores.outcome(StoreStepView::save(server_name, tokens, mode, backend), now) == Some(
            StoreOutcomeView::Saved(Ok(())),
        ),
        stores.after(StoreStepView::save(server_name, tokens, mode, backend), now).outcome(
            StoreStepView::resolve(server_name, tokens.url, mode, backend),
            later,
        ) == Some(
            StoreOutcomeView::Loaded(
                Ok(
                    Some(
                        ResolvedOAuthTokensView {
                            tokens: tokens.with_lifetime_left(later),
                            store: ResolvedOAuthCredentialStore::Keyring(backend),
                        },
                    ),
                ),
            ),
        ),
{
    reveal_with_fuel(Stores::run, 8);
}

/// Saving to a working keyring leaves no entry for the server in a file that can be written.
#[verifier::spinoff_prover]
#[verifier::rlimit(30)]
pub proof fn law_saving_to_keyring_clears_file(
    stores: Stores,
    server_name: Seq<char>,
    tokens: StoredOAuthTokensView,
    mode: OAuthCredentialsStoreMode,
    backend: AuthKeyringBackendKind,
    now: nat,
)
    requires
        stores.keyring_failure is None,
        stores.file_failure is None,
        stores.file_is_consistent(),
        mode != OAuthCredentialsStoreMode::File,
    ensures
        !crate::oauth::fallback_file::has_entry(
            file_entries(
                stores.after(StoreStepView::save(server_name, tokens, mode, backend), now).file,
            ),
            crate::oauth::keys::store_key(server_name, tokens.url),
        ),
{
    reveal_with_fuel(Stores::run, 8);
    let key = crate::oauth::keys::store_key(server_name, tokens.url);
    lemma_entry_gone(file_entries(stores.file), key);
}

#[verifier::spinoff_prover]
#[verifier::rlimit(30)]
proof fn lemma_saved_to_file(
    stores: Stores,
    tokens: StoredOAuthTokensView,
    mode: OAuthCredentialsStoreMode,
    backend: AuthKeyringBackendKind,
    now: nat,
)
    requires
        mode == OAuthCredentialsStoreMode::File || (mode == OAuthCredentialsStoreMode::Auto
            && stores.keyring_failure is Some),
        stores.file_failure is None,
    ensures
        ({
            let step = StoreStepView::save(tokens.server_name, tokens, mode, backend);
            let entries = crate::oauth::fallback_file::with_entry(
                file_entries(stores.file),
                crate::oauth::keys::store_key(tokens.server_name, tokens.url),
                tokens.fallback_entry(now),
            );
            &&& stores.outcome(step, now) == Some(StoreOutcomeView::Saved(Ok(())))
            &&& stores.after(step, now) == (Stores { file: Some(entries), ..stores })
        }),
{
    let entries = crate::oauth::fallback_file::with_entry(
        file_entries(stores.file),
        crate::oauth::keys::store_key(tokens.server_name, tokens.url),
        tokens.fallback_entry(now),
    );
    assert(entries.len() > 0);
    reveal_with_fuel(Stores::run, 8);
}

#[verifier::spinoff_prover]
#[verifier::rlimit(30)]
proof fn lemma_found_in_file(
    stores: Stores,
    server_name: Seq<char>,
    url: Seq<char>,
    mode: OAuthCredentialsStoreMode,
    backend: AuthKeyringBackendKind,
    now: nat,
)
    requires
        mode == OAuthCredentialsStoreMode::File || (mode == OAuthCredentialsStoreMode::Auto
            && stores.keyring_failure is Some),
        stores.file_failure is None,
        stores.file is Some,
        crate::oauth::fallback_file::tokens_for(
            stores.file->0,
            crate::oauth::keys::store_key(server_name, url),
            now,
        ) is Some,
    ensures
        stores.outcome(StoreStepView::resolve(server_name, url, mode, backend), now) == Some(
            StoreOutcomeView::Loaded(
                Ok(
                    Some(
                        ResolvedOAuthTokensView {
                            tokens: crate::oauth::fallback_file::tokens_for(
                                stores.file->0,
                                crate::oauth::keys::store_key(server_name, url),
                                now,
                            )->0,
                            store: ResolvedOAuthCredentialStore::File,
                        },
                    ),
                ),
            ),
        ),
{
    reveal_with_fuel(Stores::run, 8);
}

/// Where the keyring fails, `Auto` mode saves to the file, and finds there what the file can hold
/// of the tokens; so does `File` mode, whatever the keyring does.
pub proof fn law_saved_to_file_is_found(
    stores: Stores,
    tokens: StoredOAuthTokensView,
    mode: OAuthCredentialsStoreMode,
    backend: AuthKeyringBackendKind,
    now: nat,
    later: nat,
)
    requires
        mode == OAuthCredentialsStoreMode::File || (mode == OAuthCredentialsStoreMode::Auto
            && stores.keyring_failure is Some),
        stores.file_failure is None,
        stores.file_is_consistent(),
    ensures
        stores.outcome(StoreStepView::save(tokens.server_name, tokens, mode, backend), now) == Some(
            StoreOutcomeView::Saved(Ok(())),
        ),
        stores.after(StoreStepView::save(tokens.server_name, tokens, mode, backend), now).outcome(
            StoreStepView::resolve(tokens.server_name, tokens.url, mode, backend),
            later,
        ) == Some(
            StoreOutcomeView::Loaded(
                Ok(
                    Some(
                        ResolvedOAuthTokensView {
                            tokens: tokens.fallback_entry(now).tokens().with_lifetime_left(later),
                            store: ResolvedOAuthCredentialStore::File,
                        },
                    ),
                ),
            ),
        ),
{
    let key = crate::oauth::keys::store_key(tokens.server_name, tokens.url);
    let entry = tokens.fallback_entry(now);
    lemma_entry_for_added(file_entries(stores.file), key, entry);
    lemma_saved_to_file(stores, tokens, mode, backend, now);
    let after = stores.after(
        StoreStepView::save(tokens.server_name, tokens, mode, backend),
        now,
    );
    lemma_found_in_file(after, tokens.server_name, tokens.url, mode, backend, later);
}

/// Whatever tokens are saved to the file, with or without a known expiry, what is found there
/// later is for the same server and client, with the same access token, refresh token and scopes:
/// only an empty list of scopes is found as none.
pub proof fn law_file_gives_back_the_login(
    stores: Stores,
    tokens: StoredOAuthTokensView,
    mode: OAuthCredentialsStoreMode,
    backend: AuthKeyringBackendKind,
    now: nat,
    later: nat,
)
    requires
        mode == OAuthCredentialsStoreMode::File || (mode == OAuthCredentialsStoreMode::Auto
            && stores.keyring_failure is Some),
        stores.file_failure is None,
        stores.file_is_consistent(),
    ensures
        stores.after(StoreStepView::save(tokens.server_name, tokens, mode, backend), now).outcome(
            StoreStepView::resolve(tokens.server_name, tokens.url, mode, backend),
            later,
        ) matches Some(StoreOutcomeView::Loaded(Ok(Some(found)))) && {
            &&& found.store == ResolvedOAuthCredentialStore::File
            &&& found.tokens.server_name == tokens.server_name
            &&& found.tokens.url == tokens.url
            &&& found.tokens.client_id == tokens.client_id
            &&& found.tokens.token_response.access_token == tokens.token_response.access_token
            &&& found.tokens.token_response.refresh_token == tokens.token_response.refresh_token
            &&& tokens.token_response.scopes is Some && tokens.token_response.scopes->0.len() > 0
                ==> found.tokens.token_response.scopes == tokens.token_response.scopes
            &&& tokens.token_response.scopes is None || tokens.token_response.scopes->0.len() == 0
                ==> found.tokens.token_response.scopes is None
            &&& tokens.expires_at is Some ==> found.tokens.expires_at == tokens.expires_at
        },
{
    law_saved_to_file_is_found(stores, tokens, mode, backend, now, later);
}

/// The file keeps of bearer tokens without further members all but an empty list of scopes and
/// the lifetime, which follows from the expiry. Where no expiry is known the file keeps the one
/// that the lifetime leads to, and none where no lifetime is known either.
pub proof fn law_file_keeps_bearer_tokens(tokens: StoredOAuthTokensView, now: nat, later: nat)
    requires
        tokens.token_response.token_type is Bearer,
        tokens.token_response.extra_fields.len() == 0,
        tokens.token_response.scopes matches Some(scopes) ==> scopes.len() > 0,
    ensures
        tokens.expires_at is Some ==> tokens.fallback_entry(now).tokens().with_lifetime_left(later)
            == tokens.with_lifetime_left(later),
        tokens.expires_at is None && tokens.token_response.expires_in is None
            ==> tokens.fallback_entry(now).tokens().with_lifetime_left(later) == tokens,
        ({
            let kept = tokens.fallback_entry(now).tokens().with_lifetime_left(later);
            &&& kept.server_name == tokens.server_name
            &&& kept.url == tokens.url
            &&& kept.client_id == tokens.client_id
            &&& kept.token_response.access_token == tokens.token_response.access_token
            &&& kept.token_response.token_type == tokens.token_response.token_type
            &&& kept.token_response.refresh_token == tokens.token_response.refresh_token
            &&& kept.token_response.scopes == tokens.token_response.scopes
            &&& kept.token_response.extra_fields == tokens.token_response.extra_fields
            &&& tokens.expires_at is None ==> kept.expires_at
                == crate::oauth::tokens::expiry_millis(tokens.token_response.expires_in, now)
        }),
{
    let kept = tokens.fallback_entry(now).tokens();
    assert(kept.token_response.extra_fields =~= tokens.token_response.extra_fields);
}

/// A keyring that holds nothing for the server lets `Auto` mode find what the file holds.
#[verifier::spinoff_prover]
#[verifier::rlimit(30)]
pub proof fn law_auto_falls_back_to_file(
    stores: Stores,
    server_name: Seq<char>,
    url: Seq<char>,
    backend: AuthKeyringBackendKind,
    now: nat,
)
    requires
        stores.keyring_failure is Some || (!stores.keyring.contains_key(
            crate::oauth::keys::store_key(server_name, url),
        ) && !stores.secrets.contains_key(crate::oauth::keys::secret_name(server_name, url))),
    ensures
        stores.outcome(
            StoreStepView::resolve(server_name, url, OAuthCredentialsStoreMode::Auto, backend),
            now,
        ) == stores.outcome(
            StoreStepView::resolve(server_name, url, OAuthCredentialsStoreMode::File, backend),
            now,
        ),
{
    reveal_with_fuel(Stores::run, 8);
}

/// Deleting removes the credentials from every store that the client uses, tells whether there
/// were any, and leaves nothing to be found.
#[verifier::spinoff_prover]
#[verifier::rlimit(30)]
pub proof fn law_deleted_is_gone(
    stores: Stores,
    server_name: Seq<char>,
    url: Seq<char>,
    mode: OAuthCredentialsStoreMode,
    backend: AuthKeyringBackendKind,
    now: nat,
    later: nat,
)
    requires
        stores.keyring_failure is None,
        stores.file_failure is None,
        stores.file_is_consistent(),
    ensures
        stores.outcome(StoreStepView::delete(server_name, url, mode, backend), now) == Some(
            StoreOutcomeView::Deleted(
                Ok(
                    stores.keyring.contains_key(crate::oauth::keys::store_key(server_name, url))
                        || (backend == AuthKeyringBackendKind::Secrets
                        && stores.secrets.contains_key(
                        crate::oauth::keys::secret_name(server_name, url),
                    )) || crate::oauth::fallback_file::has_entry(
                        file_entries(stores.file),
                        crate::oauth::keys::store_key(server_name, url),
                    ),
                ),
            ),
        ),
        stores.after(StoreStepView::delete(server_name, url, mode, backend), now).outcome(
            StoreStepView::resolve(server_name, url, mode, backend),
            later,
        ) == Some(StoreOutcomeView::Loaded(Ok(None))),
{
    reveal_with_fuel(Stores::run, 8);
    let key = crate::oauth::keys::store_key(server_name, url);
    let entries = file_entries(stores.file);
    lemma_entry_gone(entries, key);
    lemma_own_keys_without(entries, key);
    lemma_entry_for_absent(crate::oauth::fallback_file::without_entry(entries, key), key);
    if !crate::oauth::fallback_file::has_entry(entries, key) {
        lemma_entry_for_absent(entries, key);
    }
}

/// Where the keyring fails to delete, an operation that relies on the keyring fails and changes
/// nothing: the file keeps its entry.
#[verifier::spinoff_prover]
#[verifier::rlimit(30)]
pub proof fn law_failed_delete_changes_nothing(
    stores: Stores,
    server_name: Seq<char>,
    url: Seq<char>,
    mode: OAuthCredentialsStoreMode,
    backend: AuthKeyringBackendKind,
    now: nat,
)
    requires
        stores.keyring_failure is Some,
        mode != OAuthCredentialsStoreMode::File,
    ensures
        stores.outcome(StoreStepView::delete(server_name, url, mode, backend), now) == Some(
            StoreOutcomeView::Deleted(
                Err(
                    OAuthErrorView::caused(
                        "failed to delete OAuth tokens from keyring"@,
                        stores.keyring_failure->0,
                    ),
                ),
            ),
        ),
        stores.after(StoreStepView::delete(server_name, url, mode, backend), now) == stores,
{
    reveal_with_fuel(Stores::run, 8);
}

/// Writing back to the store that credentials were found in changes no other store.
#[verifier::spinoff_prover]
#[verifier::rlimit(30)]
pub proof fn law_persisting_stays_in_its_store(
    stores: Stores,
    server_name: Seq<char>,
    tokens: StoredOAuthTokensView,
    store: ResolvedOAuthCredentialStore,
    now: nat,
)
    ensures
        stores.outcome(StoreStepView::persist(server_name, tokens, store), now) is Some,
        match store {
            ResolvedOAuthCredentialStore::File => {
                let after = stores.after(StoreStepView::persist(server_name, tokens, store), now);
                after.keyring == stores.keyring && after.secrets == stores.secrets
            },
            ResolvedOAuthCredentialStore::Keyring(backend) => {
                let after = stores.after(StoreStepView::persist(server_name, tokens, store), now);
                &&& after.file == stores.file
                &&& backend == AuthKeyringBackendKind::Direct ==> after.secrets == stores.secrets
                &&& backend == AuthKeyringBackendKind::Secrets ==> after.keyring == stores.keyring
            },
        },
{
    reveal_with_fuel(Stores::run, 8);
}

proof fn lemma_other_entries_kept(
    entries: FallbackEntries,
    key: Seq<char>,
    entry: FallbackTokenEntryView,
    other: (Seq<char>, FallbackTokenEntryView),
)
    requires
        other.0 != key,
    ensures
        crate::oauth::fallback_file::with_entry(entries, key, entry).contains(other)
            == entries.contains(other),
        crate::oauth::fallback_file::without_entry(entries, key).contains(other)
            == entries.contains(other),
    decreases entries.len(),
{
    let added = crate::oauth::fallback_file::with_entry(entries, key, entry);
    let removed = crate::oauth::fallback_file::without_entry(entries, key);
    if entries.len() == 0 {
        assert(added[0] == (key, entry));
    } else {
        let rest = entries.drop_first();
        lemma_other_entries_kept(rest, key, entry, other);
        lemma_contains_split(entries, other);
        if entries[0].0 == key {
            lemma_contains_split(added, other);
            assert(added.drop_first() =~= rest);
        } else {
            if crate::oauth::fallback_file::text_less(key, entries[0].0) {
                lemma_contains_split(added, other);
                assert(added.drop_first() =~= entries);
            } else {
                lemma_contains_split(added, other);
                assert(added.drop_first() =~= crate::oauth::fallback_file::with_entry(
                    rest,
                    key,
                    entry,
                ));
            }
            lemma_contains_split(removed, other);
            assert(removed.drop_first() =~= crate::oauth::fallback_file::without_entry(rest, key));
        }
    }
}

proof fn lemma_contains_split(
    entries: FallbackEntries,
    other: (Seq<char>, FallbackTokenEntryView),
)
    requires
        entries.len() > 0,
    ensures
        entries.contains(other) == (entries[0] == other || entries.drop_first().contains(other)),
{
    let rest = entries.drop_first();
    if entries.contains(other) {
        let i = choose|i: int| 0 <= i < entries.len() && entries[i] == other;
        if i > 0 {
            assert(rest[i - 1] == other);
        }
    }
    if rest.contains(other) {
        let i = choose|i: int| 0 <= i < rest.len() && rest[i] == other;
        assert(entries[i + 1] == other);
    }
}

impl Stores {
    /// The stores hold the same as `before` under a key, a name in the encrypted store and an entry
    /// of the file.
    pub open spec fn keeps(
        self,
        before: Stores,
        key: Seq<char>,
        name: Seq<char>,
        entry: FallbackTokenEntryView,
    ) -> bool {
        &&& self.keyring.contains_key(key) == before.keyring.contains_key(key)
        &&& before.keyring.contains_key(key) ==> self.keyring[key] == before.keyring[key]
        &&& self.secrets.contains_key(name) == before.secrets.contains_key(name)
        &&& before.secrets.contains_key(name) ==> self.secrets[name] == before.secrets[name]
        &&& file_entries(self.file).contains((key, entry)) == file_entries(before.file).contains(
            (key, entry),
        )
    }
}

#[verifier::spinoff_prover]
#[verifier::rlimit(30)]
proof fn lemma_save_keeps_others(
    stores: Stores,
    tokens: StoredOAuthTokensView,
    mode: OAuthCredentialsStoreMode,
    backend: AuthKeyringBackendKind,
    now: nat,
    other_key: Seq<char>,
    other_name: Seq<char>,
    other_entry: FallbackTokenEntryView,
)
    requires
        other_key != crate::oauth::keys::store_key(tokens.server_name, tokens.url),
        other_name != crate::oauth::keys::secret_name(tokens.server_name, tokens.url),
    ensures
        stores.after(
            StoreStepView::save(tokens.server_name, tokens, mode, backend),
            now,
        ).keeps(stores, other_key, other_name, other_entry),
{
    lemma_other_entries_kept(
        file_entries(stores.file),
        crate::oauth::keys::store_key(tokens.server_name, tokens.url),
        tokens.fallback_entry(now),
        (other_key, other_entry),
    );
    reveal_with_fuel(Stores::run, 8);
}

#[verifier::spinoff_prover]
#[verifier::rlimit(30)]
proof fn lemma_delete_keeps_others(
    stores: Stores,
    tokens: StoredOAuthTokensView,
    mode: OAuthCredentialsStoreMode,
    backend: AuthKeyringBackendKind,
    now: nat,
    other_key: Seq<char>,
    other_name: Seq<char>,
    other_entry: FallbackTokenEntryView,
)
    requires
        other_key != crate::oauth::keys::store_key(tokens.server_name, tokens.url),
        other_name != crate::oauth::keys::secret_name(tokens.server_name, tokens.url),
    ensures
        stores.after(
            StoreStepView::delete(tokens.server_name, tokens.url, mode, backend),
            now,
        ).keeps(stores, other_key, other_name, other_entry),
{
    lemma_other_entries_kept(
        file_entries(stores.file),
        crate::oauth::keys::store_key(tokens.server_name, tokens.url),
        tokens.fallback_entry(now),
        (other_key, other_entry),
    );
    reveal_with_fuel(Stores::run, 8);
}

/// Saving and deleting the credentials of one server leaves those of every other server as they
/// were, in each store.
pub proof fn law_other_servers_are_untouched(
    stores: Stores,
    step: StoreStepView,
    server_name: Seq<char>,
    tokens: StoredOAuthTokensView,
    mode: OAuthCredentialsStoreMode,
    backend: AuthKeyringBackendKind,
    now: nat,
    other_key: Seq<char>,
    other_name: Seq<char>,
    other_entry: FallbackTokenEntryView,
)
    requires
        server_name == tokens.server_name,
        step == StoreStepView::save(server_name, tokens, mode, backend) || step
            == StoreStepView::delete(server_name, tokens.url, mode, backend),
        other_key != crate::oauth::keys::store_key(server_name, tokens.url),
        other_name != crate::oauth::keys::secret_name(server_name, tokens.url),
    ensures
        stores.after(step, now).keeps(stores, other_key, other_name, other_entry),
{
    lemma_save_keeps_others(
        stores,
        tokens,
        mode,
        backend,
        now,
        other_key,
        other_name,
        other_entry,
    );
    lemma_delete_keeps_others(
        stores,
        tokens,
        mode,
        backend,
        now,
        other_key,
        other_name,
        other_entry,
    );
}

#[verifier::spinoff_prover]
#[verifier::rlimit(30)]
proof fn lemma_save_keeps_file_consistent(
    stores: Stores,
    server_name: Seq<char>,
    tokens: StoredOAuthTokensView,
    mode: OAuthCredentialsStoreMode,
    backend: AuthKeyringBackendKind,
    now: nat,
)
    requires
        stores.file_is_consistent(),
    ensures
        stores.after(
            StoreStepView::save(server_name, tokens, mode, backend),
            now,
        ).file_is_consistent(),
{
    let entries = file_entries(stores.file);
    let own = crate::oauth::keys::store_key(tokens.server_name, tokens.url);
    let named = crate::oauth::keys::store_key(server_name, tokens.url);
    lemma_file_with_entry(entries, own, tokens.fallback_entry(now));
    lemma_own_keys_without(entries, named);
    crate::oauth::fallback_file::lemma_without_entry_keeps_order(entries, named);
    reveal_with_fuel(Stores::run, 8);
}

#[verifier::spinoff_prover]
#[verifier::rlimit(30)]
proof fn lemma_persist_keeps_file_consistent(
    stores: Stores,
    server_name: Seq<char>,
    tokens: StoredOAuthTokensView,
    store: ResolvedOAuthCredentialStore,
    now: nat,
)
    requires
        stores.file_is_consistent(),
    ensures
        stores.after(
            StoreStepView::persist(server_name, tokens, store),
            now,
        ).file_is_consistent(),
{
    let entries = file_entries(stores.file);
    let own = crate::oauth::keys::store_key(tokens.server_name, tokens.url);
    let named = crate::oauth::keys::store_key(server_name, tokens.url);
    lemma_file_with_entry(entries, own, tokens.fallback_entry(now));
    lemma_own_keys_without(entries, named);
    crate::oauth::fallback_file::lemma_without_entry_keeps_order(entries, named);
    reveal_with_fuel(Stores::run, 8);
}

#[verifier::spinoff_prover]
#[verifier::rlimit(30)]
proof fn lemma_delete_keeps_file_consistent(
    stores: Stores,
    server_name: Seq<char>,
    tokens: StoredOAuthTokensView,
    mode: OAuthCredentialsStoreMode,
    backend: AuthKeyringBackendKind,
    now: nat,
)
    requires
        stores.file_is_consistent(),
    ensures
        stores.after(
            StoreStepView::delete(server_name, tokens.url, mode, backend),
            now,
        ).file_is_consistent(),
{
    let entries = file_entries(stores.file);
    let own = crate::oauth::keys::store_key(tokens.server_name, tokens.url);
    let named = crate::oauth::keys::store_key(server_name, tokens.url);
    lemma_file_with_entry(entries, own, tokens.fallback_entry(now));
    lemma_own_keys_without(entries, named);
    crate::oauth::fallback_file::lemma_without_entry_keeps_order(entries, named);
    reveal_with_fuel(Stores::run, 8);
}

/// Saving, writing back and deleting keep each entry of the file under the key of its own server,
/// and the keys in their order.
pub proof fn law_file_stays_consistent(
    stores: Stores,
    step: StoreStepView,
    server_name: Seq<char>,
    tokens: StoredOAuthTokensView,
    mode: OAuthCredentialsStoreMode,
    backend: AuthKeyringBackendKind,
    store: ResolvedOAuthCredentialStore,
    now: nat,
)
    requires
        stores.file_is_consistent(),
        step == StoreStepView::save(server_name, tokens, mode, backend) || step
            == StoreStepView::persist(server_name, tokens, store) || step == StoreStepView::delete(
            server_name,
            tokens.url,
            mode,
            backend,
        ),
    ensures
        stores.after(step, now).file_is_consistent(),
{
    lemma_save_keeps_file_consistent(stores, server_name, tokens, mode, backend, now);
    lemma_persist_keeps_file_consistent(stores, server_name, tokens, store, now);
    lemma_delete_keeps_file_consistent(stores, server_name, tokens, mode, backend, now);
}

proof fn lemma_more_calls(stores: Stores, step: StoreStepView, now: nat, calls: nat)
    requires
        stores.run(step, now, calls).1 is Some,
    ensures
        stores.run(step, now, calls + 1) == stores.run(step, now, calls),
    decreases calls,
{
    match step {
        StoreStepView::Done(outcome) => {},
        StoreStepView::Call(call, operation) => {
            let (next, reply) = stores.answer(call);
            lemma_more_calls(next, operation.resume(reply, now), now, (calls - 1) as nat);
        },
    }
}

proof fn lemma_save_ends(
    stores: Stores,
    server_name: Seq<char>,
    tokens: StoredOAuthTokensView,
    mode: OAuthCredentialsStoreMode,
    backend: AuthKeyringBackendKind,
    now: nat,
)
    ensures
        stores.run(StoreStepView::save(server_name, tokens, mode, backend), now, 6).1 is Some,
{
    let step = StoreStepView::save(server_name, tokens, mode, backend);
    assert(stores.run(step, now, 5).1 is Some) by {
        reveal_with_fuel(Stores::run, 6);
    }
    lemma_more_calls(stores, step, now, 5);
}

proof fn lemma_delete_ends(
    stores: Stores,
    server_name: Seq<char>,
    url: Seq<char>,
    mode: OAuthCredentialsStoreMode,
    backend: AuthKeyringBackendKind,
    now: nat,
)
    ensures
        stores.run(StoreStepView::delete(server_name, url, mode, backend), now, 6).1 is Some,
{
    reveal_with_fuel(Stores::run, 7);
}

/// The step that saves credentials under the lock of the server's credentials.
pub open spec fn locked_save(
    server_name: Seq<char>,
    tokens: StoredOAuthTokensView,
    mode: OAuthCredentialsStoreMode,
    backend: AuthKeyringBackendKind,
) -> StoreStepView {
    StoreStepView::Call(
        StoreCallView::LockRefresh { server_name, url: tokens.url },
        StoreOperationView::RefreshLocking {
            next: LockedOperationView::Save { server_name, tokens, mode, backend },
        },
    )
}

/// The step that deletes credentials under the lock of the server's credentials.
pub open spec fn locked_delete(
    server_name: Seq<char>,
    url: Seq<char>,
    mode: OAuthCredentialsStoreMode,
    backend: AuthKeyringBackendKind,
) -> StoreStepView {
    StoreStepView::Call(
        StoreCallView::LockRefresh { server_name, url },
        StoreOperationView::RefreshLocking {
            next: LockedOperationView::Delete { server_name, url, mode, backend },
        },
    )
}

/// Once they hold the lock of the server's credentials, a login saves and a logout deletes as the
/// operations without that lock do.
pub proof fn law_lock_changes_no_outcome(
    stores: Stores,
    server_name: Seq<char>,
    tokens: StoredOAuthTokensView,
    mode: OAuthCredentialsStoreMode,
    backend: AuthKeyringBackendKind,
    now: nat,
)
    ensures
        stores.run(locked_save(server_name, tokens, mode, backend), now, 7) == stores.run(
            StoreStepView::save(server_name, tokens, mode, backend),
            now,
            7,
        ),
        stores.run(locked_delete(server_name, tokens.url, mode, backend), now, 7) == stores.run(
            StoreStepView::delete(server_name, tokens.url, mode, backend),
            now,
            7,
        ),
{
    let save = StoreStepView::save(server_name, tokens, mode, backend);
    let delete = StoreStepView::delete(server_name, tokens.url, mode, backend);
    lemma_save_ends(stores, server_name, tokens, mode, backend, now);
    lemma_more_calls(stores, save, now, 6);
    lemma_delete_ends(stores, server_name, tokens.url, mode, backend, now);
    lemma_more_calls(stores, delete, now, 6);
}

/// The call works on the encrypted store.
pub open spec fn works_on_secrets(call: StoreCallView) -> bool {
    call is LoadSecret || call is SaveSecret || call is DeleteSecret
}

/// The call works on the file.
pub open spec fn works_on_file(call: StoreCallView) -> bool {
    call is ReadFile || call is WriteFile || call is RemoveFile
}

/// The step works neither on the encrypted store nor on the file.
pub open spec fn works_on_neither(step: StoreStepView) -> bool {
    step matches StoreStepView::Call(call, _) ==> !works_on_secrets(call) && !works_on_file(call)
}

/// The encrypted store is worked on only right after its lock was taken, and the file only after
/// its lock was taken: it is read right after that, and written right after it was read.
pub proof fn law_stores_are_locked_first(
    operation: StoreOperationView,
    reply: StoreReplyView,
    now: nat,
)
    requires
        operation.accepts(reply),
    ensures
        operation.resume(reply, now) matches StoreStepView::Call(call, next) ==> {
            &&& works_on_secrets(call) ==> operation is SecretsLocking && reply->Done_0 is Ok
            &&& call is ReadFile ==> operation is FileLocking && reply->Done_0 is Ok
            &&& (call is WriteFile || call is RemoveFile) ==> operation is FileReading
            &&& next is SecretsLocking ==> call is LockSecrets
            &&& next is FileLocking ==> call is LockFile
            &&& next is FileReading ==> call is ReadFile
        },
{
}

/// No operation begins with work on the encrypted store or on the file: a lock comes first.
pub proof fn law_operations_begin_with_a_lock(
    server_name: Seq<char>,
    tokens: StoredOAuthTokensView,
    mode: OAuthCredentialsStoreMode,
    backend: AuthKeyringBackendKind,
    store: ResolvedOAuthCredentialStore,
)
    ensures
        works_on_neither(StoreStepView::save(server_name, tokens, mode, backend)),
        works_on_neither(StoreStepView::resolve(server_name, tokens.url, mode, backend)),
        works_on_neither(StoreStepView::reread(server_name, tokens.url, store)),
        works_on_neither(StoreStepView::persist(server_name, tokens, store)),
        works_on_neither(StoreStepView::delete(server_name, tokens.url, mode, backend)),
{
}

/// What deleting leaves in working stores: no credentials of the server.
#[verifier::spinoff_prover]
#[verifier::rlimit(30)]
pub proof fn lemma_nothing_left(
    stores: Stores,
    server_name: Seq<char>,
    url: Seq<char>,
    mode: OAuthCredentialsStoreMode,
    backend: AuthKeyringBackendKind,
    now: nat,
)
    requires
        stores.keyring_failure is None,
        stores.file_failure is None,
        stores.file_is_consistent(),
    ensures
        ({
            let after = stores.after(StoreStepView::delete(server_name, url, mode, backend), now);
            let key = crate::oauth::keys::store_key(server_name, url);
            &&& after.keyring_failure is None
            &&& after.file_failure is None
            &&& !after.keyring.contains_key(key)
            &&& backend == AuthKeyringBackendKind::Secrets ==> !after.secrets.contains_key(
                crate::oauth::keys::secret_name(server_name, url),
            )
            &&& crate::oauth::fallback_file::entry_for(file_entries(after.file), key) is None
        }),
{
    reveal_with_fuel(Stores::run, 8);
    let key = crate::oauth::keys::store_key(server_name, url);
    let entries = file_entries(stores.file);
    lemma_entry_gone(entries, key);
    lemma_own_keys_without(entries, key);
    lemma_entry_for_absent(crate::oauth::fallback_file::without_entry(entries, key), key);
    if !crate::oauth::fallback_file::has_entry(entries, key) {
        lemma_entry_for_absent(entries, key);
    }
}

} // verus!
