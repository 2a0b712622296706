//! What each operation on stored credentials begins with, and what each reply leads to.

use vstd::prelude::*;

use crate::oauth::fallback_file::FallbackEntries;
use crate::oauth::store::{
    AfterLoad, AfterSave, AuthKeyringBackendKind, DeleteReport, FileFailureView, FileJobView,
    LockedOperationView, OAuthCredentialsStoreMode, ResolvedOAuthCredentialStore, SecretJobView,
    StoreCallView, StoreFailureView, StoreOperationView, StoreOutcomeView, StoreReplyView,
    StoreStepView,
};
use crate::oauth::tokens::StoredOAuthTokensView;

verus! {

/// A failure of the file says which file, what was being done and why it failed; where the file
/// could not even be located, only why.
pub proof fn law_file_failures(path: Seq<char>, message: Seq<char>)
    ensures
        FileFailureView::NotLocated(message).error().message == message,
        FileFailureView::NotLocated(message).error().causes.len() == 0,
        (FileFailureView::Unreadable { path, message }).error().message
            == "failed to read credentials file at "@ + path,
        (FileFailureView::Unreadable { path, message }).error().causes == seq![message],
        (FileFailureView::Malformed { path, message }).error().message
            == "failed to parse credentials file at "@ + path,
        (FileFailureView::Malformed { path, message }).error().causes == seq![message],
{
}

/// A failure of a store says its own message, whichever kind of failure it is.
pub proof fn law_failures_keep_their_message(message: Seq<char>)
    ensures
        StoreFailureView::Unavailable(message).message() == message,
        StoreFailureView::Failed(message).message() == message,
        StoreFailureView::Malformed(message).message() == message,
{
}

/// Credentials that could not be loaded are reported by the failure's own message, unless they
/// were malformed, or the encrypted store failed: then that is said first, and the message is its
/// cause.
pub proof fn law_load_errors(message: Seq<char>)
    ensures
        ({
            let error = StoreFailureView::Malformed(message).load_error(
                AuthKeyringBackendKind::Direct,
            );
            &&& error.message == "failed to deserialize OAuth tokens from keyring"@
            &&& error.causes == seq![message]
        }),
        ({
            let error = StoreFailureView::Malformed(message).load_error(
                AuthKeyringBackendKind::Secrets,
            );
            &&& error.message == "failed to deserialize OAuth tokens from encrypted storage"@
            &&& error.causes == seq![message]
        }),
        ({
            let error = StoreFailureView::Failed(message).load_error(
                AuthKeyringBackendKind::Secrets,
            );
            &&& error.message == "failed to load MCP OAuth tokens from encrypted storage"@
            &&& error.causes == seq![message]
        }),
        ({
            let error = StoreFailureView::Failed(message).load_error(
                AuthKeyringBackendKind::Direct,
            );
            &&& error.message == message
            &&& error.causes.len() == 0
        }),
        forall|backend: AuthKeyringBackendKind|
            (#[trigger] StoreFailureView::Unavailable(message).load_error(backend)).message
                == message && StoreFailureView::Unavailable(message).load_error(
                backend,
            ).causes.len() == 0,
{
}

/// Credentials that could not be saved are reported by what was being done, with the failure's
/// message as the cause; only an encrypted store that could not be had is reported by its message
/// alone.
pub proof fn law_save_errors(message: Seq<char>)
    ensures
        forall|backend: AuthKeyringBackendKind|
            (#[trigger] StoreFailureView::Malformed(message).save_error(backend)).message
                == "failed to serialize OAuth tokens"@ && StoreFailureView::Malformed(
                message,
            ).save_error(backend).causes == seq![message],
        ({
            let error = StoreFailureView::Failed(message).save_error(
                AuthKeyringBackendKind::Direct,
            );
            &&& error.message == "failed to write OAuth tokens to keyring: "@ + message
            &&& error.causes == seq![message]
        }),
        ({
            let error = StoreFailureView::Unavailable(message).save_error(
                AuthKeyringBackendKind::Direct,
            );
            &&& error.message == "failed to write OAuth tokens to keyring: "@ + message
            &&& error.causes == seq![message]
        }),
        ({
            let error = StoreFailureView::Failed(message).save_error(
                AuthKeyringBackendKind::Secrets,
            );
            &&& error.message == "failed to write OAuth tokens to encrypted storage"@
            &&& error.causes == seq![message]
        }),
        ({
            let error = StoreFailureView::Unavailable(message).save_error(
                AuthKeyringBackendKind::Secrets,
            );
            &&& error.message == message
            &&& error.causes.len() == 0
        }),
{
}

/// Credentials that could not be deleted from the encrypted store are reported so, with the
/// failure's message as the cause; a store that could not be had is reported by its message alone.
pub proof fn law_secret_delete_errors(failure: StoreFailureView)
    ensures
        failure matches StoreFailureView::Unavailable(message) ==> {
            &&& failure.secret_delete_error().message == message
            &&& failure.secret_delete_error().causes.len() == 0
        },
        !(failure is Unavailable) ==> {
            &&& failure.secret_delete_error().message
                == "failed to delete OAuth tokens from encrypted storage"@
            &&& failure.secret_delete_error().causes == seq![failure.message()]
        },
{
}

/// Saving begins in the store that the mode names first: the file in `File` mode, and the keyring
/// or the encrypted store in the others, under the key or the name of the server and the tokens'
/// address. `Auto` mode may go on to the file.
pub proof fn law_saving_begins_in_its_store(
    server_name: Seq<char>,
    tokens: StoredOAuthTokensView,
    mode: OAuthCredentialsStoreMode,
    backend: AuthKeyringBackendKind,
)
    ensures
        ({
            let step = StoreStepView::save(server_name, tokens, mode, backend);
            let after = if mode == OAuthCredentialsStoreMode::Auto {
                AfterSave::CleanUpOrFallBack
            } else {
                AfterSave::CleanUp
            };
            &&& mode == OAuthCredentialsStoreMode::File ==> step == StoreStepView::Call(
                StoreCallView::LockFile,
                StoreOperationView::FileLocking {
                    job: FileJobView::Save { tokens, keyring_failure: None },
                },
            )
            &&& mode != OAuthCredentialsStoreMode::File && backend == AuthKeyringBackendKind::Direct
                ==> step == StoreStepView::Call(
                StoreCallView::SaveKeyring {
                    service: "Codex MCP Credentials"@,
                    key: crate::oauth::keys::store_key(server_name, tokens.url),
                    tokens,
                },
                StoreOperationView::KeyringSaving { backend, server_name, tokens, after },
            )
            &&& mode != OAuthCredentialsStoreMode::File && backend
                == AuthKeyringBackendKind::Secrets ==> step == StoreStepView::Call(
                StoreCallView::LockSecrets,
                StoreOperationView::SecretsLocking {
                    job: SecretJobView::Save { server_name, tokens, after },
                },
            )
        }),
{
}

/// Loading begins in the store that the mode names first. `Auto` mode may go on to the file.
pub proof fn law_loading_begins_in_its_store(
    server_name: Seq<char>,
    url: Seq<char>,
    mode: OAuthCredentialsStoreMode,
    backend: AuthKeyringBackendKind,
)
    ensures
        ({
            let step = StoreStepView::resolve(server_name, url, mode, backend);
            let after = if mode == OAuthCredentialsStoreMode::Auto {
                AfterLoad::FallBack
            } else {
                AfterLoad::Finish
            };
            &&& mode == OAuthCredentialsStoreMode::File ==> step == StoreStepView::Call(
                StoreCallView::LockFile,
                StoreOperationView::FileLocking { job: FileJobView::Load { server_name, url } },
            )
            &&& mode != OAuthCredentialsStoreMode::File && backend == AuthKeyringBackendKind::Direct
                ==> step == StoreStepView::Call(
                StoreCallView::LoadKeyring {
                    service: "Codex MCP Credentials"@,
                    key: crate::oauth::keys::store_key(server_name, url),
                },
                StoreOperationView::KeyringLoading { backend, server_name, url, after },
            )
            &&& mode != OAuthCredentialsStoreMode::File && backend
                == AuthKeyringBackendKind::Secrets ==> step == StoreStepView::Call(
                StoreCallView::LockSecrets,
                StoreOperationView::SecretsLocking {
                    job: SecretJobView::Load { server_name, url, after },
                },
            )
        }),
{
}

/// Credentials are read again from the store that they came from and from no other, and
/// refreshed credentials are saved there and nowhere else.
pub proof fn law_refreshing_uses_the_store_of_the_tokens(
    server_name: Seq<char>,
    url: Seq<char>,
    tokens: StoredOAuthTokensView,
)
    ensures
        StoreStepView::reread(server_name, url, ResolvedOAuthCredentialStore::File)
            == StoreStepView::Call(
            StoreCallView::LockFile,
            StoreOperationView::FileLocking { job: FileJobView::Load { server_name, url } },
        ),
        StoreStepView::reread(
            server_name,
            url,
            ResolvedOAuthCredentialStore::Keyring(AuthKeyringBackendKind::Direct),
        ) == StoreStepView::Call(
            StoreCallView::LoadKeyring {
                service: "Codex MCP Credentials"@,
                key: crate::oauth::keys::store_key(server_name, url),
            },
            StoreOperationView::KeyringLoading {
                backend: AuthKeyringBackendKind::Direct,
                server_name,
                url,
                after: AfterLoad::Reread,
            },
        ),
        StoreStepView::reread(
            server_name,
            url,
            ResolvedOAuthCredentialStore::Keyring(AuthKeyringBackendKind::Secrets),
        ) == StoreStepView::Call(
            StoreCallView::LockSecrets,
            StoreOperationView::SecretsLocking {
                job: SecretJobView::Load { server_name, url, after: AfterLoad::Reread },
            },
        ),
        StoreStepView::persist(server_name, tokens, ResolvedOAuthCredentialStore::File)
            == StoreStepView::Call(
            StoreCallView::LockFile,
            StoreOperationView::FileLocking {
                job: FileJobView::Save { tokens, keyring_failure: None },
            },
        ),
        StoreStepView::persist(
            server_name,
            tokens,
            ResolvedOAuthCredentialStore::Keyring(AuthKeyringBackendKind::Direct),
        ) == StoreStepView::Call(
            StoreCallView::SaveKeyring {
                service: "Codex MCP Credentials"@,
                key: crate::oauth::keys::store_key(server_name, tokens.url),
                tokens,
            },
            StoreOperationView::KeyringSaving {
                backend: AuthKeyringBackendKind::Direct,
                server_name,
                tokens,
                after: AfterSave::Finish,
            },
        ),
        StoreStepView::persist(
            server_name,
            tokens,
            ResolvedOAuthCredentialStore::Keyring(AuthKeyringBackendKind::Secrets),
        ) == StoreStepView::Call(
            StoreCallView::LockSecrets,
            StoreOperationView::SecretsLocking {
                job: SecretJobView::Save { server_name, tokens, after: AfterSave::Finish },
            },
        ),
{
}

/// Deleting begins in the keyring, whatever the mode and the backend.
pub proof fn law_deleting_begins_in_the_keyring(
    server_name: Seq<char>,
    url: Seq<char>,
    mode: OAuthCredentialsStoreMode,
    backend: AuthKeyringBackendKind,
)
    ensures
        ({
            let key = crate::oauth::keys::store_key(server_name, url);
            StoreStepView::delete(server_name, url, mode, backend) == StoreStepView::Call(
                StoreCallView::DeleteKeyring { service: "Codex MCP Credentials"@, key },
                StoreOperationView::KeyringDeleting { backend, server_name, url, key, mode },
            )
        }),
{
}

/// With the lock of a refresh in hand, saving and deleting begin; without it they end with the
/// failure's message.
pub proof fn law_after_the_refresh_lock(
    server_name: Seq<char>,
    url: Seq<char>,
    tokens: StoredOAuthTokensView,
    mode: OAuthCredentialsStoreMode,
    backend: AuthKeyringBackendKind,
    failure: StoreFailureView,
    now: nat,
)
    ensures
        ({
            let saving = StoreOperationView::RefreshLocking {
                next: LockedOperationView::Save { server_name, tokens, mode, backend },
            };
            let deleting = StoreOperationView::RefreshLocking {
                next: LockedOperationView::Delete { server_name, url, mode, backend },
            };
            &&& saving.resume(StoreReplyView::Done(Ok(())), now) == StoreStepView::save(
                server_name,
                tokens,
                mode,
                backend,
            )
            &&& deleting.resume(StoreReplyView::Done(Ok(())), now) == StoreStepView::delete(
                server_name,
                url,
                mode,
                backend,
            )
            &&& saving.resume(StoreReplyView::Done(Err(failure)), now) matches StoreStepView::Done(
                StoreOutcomeView::Saved(result),
            )
            &&& result is Err && result->Err_0.message == failure.message()
                && result->Err_0.causes.len() == 0
            &&& deleting.resume(StoreReplyView::Done(Err(failure)), now) matches
                StoreStepView::Done(StoreOutcomeView::Deleted(result))
            &&& result is Err && result->Err_0.message == failure.message()
                && result->Err_0.causes.len() == 0
        }),
{
}

/// Once the keyring or the encrypted store has the tokens, the file's entry for them is cleaned
/// up, unless only that store was to be written, which ends the saving.
pub proof fn law_after_a_keyring_save(
    backend: AuthKeyringBackendKind,
    server_name: Seq<char>,
    tokens: StoredOAuthTokensView,
    after: AfterSave,
    now: nat,
)
    ensures
        ({
            let step = (StoreOperationView::KeyringSaving {
                backend,
                server_name,
                tokens,
                after,
            }).resume(StoreReplyView::Done(Ok(())), now);
            &&& after == AfterSave::Finish ==> (step matches StoreStepView::Done(
                StoreOutcomeView::Saved(result),
            ) && result is Ok)
            &&& after != AfterSave::Finish ==> step == StoreStepView::Call(
                StoreCallView::LockFile,
                StoreOperationView::FileLocking {
                    job: FileJobView::Delete {
                        key: crate::oauth::keys::store_key(server_name, tokens.url),
                        report: DeleteReport::CleanUp,
                    },
                },
            )
        }),
{
}

/// Where the keyring or the encrypted store did not take the tokens, `Auto` mode saves them to the
/// file, and remembers why; otherwise the saving ends with that error.
pub proof fn law_after_a_failed_keyring_save(
    backend: AuthKeyringBackendKind,
    server_name: Seq<char>,
    tokens: StoredOAuthTokensView,
    after: AfterSave,
    failure: StoreFailureView,
    now: nat,
)
    ensures
        ({
            let step = (StoreOperationView::KeyringSaving {
                backend,
                server_name,
                tokens,
                after,
            }).resume(StoreReplyView::Done(Err(failure)), now);
            &&& after == AfterSave::CleanUpOrFallBack ==> step == StoreStepView::Call(
                StoreCallView::LockFile,
                StoreOperationView::FileLocking {
                    job: FileJobView::Save {
                        tokens,
                        keyring_failure: Some(failure.save_error(backend).message),
                    },
                },
            )
            &&& after != AfterSave::CleanUpOrFallBack ==> (step matches StoreStepView::Done(
                StoreOutcomeView::Saved(result),
            ) && result is Err && result->Err_0 == failure.save_error(backend))
        }),
{
}

/// What the keyring or the encrypted store has is what is loaded, with its lifetime brought up to
/// date and with the store that it came from. Where it has nothing, `Auto` mode loads from the
/// file and the others find nothing.
pub proof fn law_after_a_keyring_load(
    backend: AuthKeyringBackendKind,
    server_name: Seq<char>,
    url: Seq<char>,
    after: AfterLoad,
    tokens: StoredOAuthTokensView,
    now: nat,
)
    ensures
        ({
            let loading = StoreOperationView::KeyringLoading { backend, server_name, url, after };
            &&& loading.resume(StoreReplyView::Loaded(Ok(Some(tokens))), now) matches
                StoreStepView::Done(StoreOutcomeView::Loaded(Ok(Some(found))))
            &&& found.tokens == tokens.with_lifetime_left(now)
            &&& found.store == ResolvedOAuthCredentialStore::Keyring(backend)
            &&& after == AfterLoad::FallBack ==> loading.resume(
                StoreReplyView::Loaded(Ok(None)),
                now,
            ) == StoreStepView::Call(
                StoreCallView::LockFile,
                StoreOperationView::FileLocking { job: FileJobView::Load { server_name, url } },
            )
            &&& after != AfterLoad::FallBack ==> loading.resume(
                StoreReplyView::Loaded(Ok(None)),
                now,
            ) == StoreStepView::Done(StoreOutcomeView::Loaded(Ok(None)))
        }),
{
}

/// Where the keyring or the encrypted store cannot be read, `Auto` mode loads from the file, and
/// the others end with that error; reading again says so first.
pub proof fn law_after_a_failed_keyring_load(
    backend: AuthKeyringBackendKind,
    server_name: Seq<char>,
    url: Seq<char>,
    failure: StoreFailureView,
    now: nat,
)
    ensures
        (StoreOperationView::KeyringLoading {
            backend,
            server_name,
            url,
            after: AfterLoad::FallBack,
        }).resume(StoreReplyView::Loaded(Err(failure)), now) == StoreStepView::Call(
            StoreCallView::LockFile,
            StoreOperationView::FileLocking { job: FileJobView::Load { server_name, url } },
        ),
        (StoreOperationView::KeyringLoading {
            backend,
            server_name,
            url,
            after: AfterLoad::Finish,
        }).resume(StoreReplyView::Loaded(Err(failure)), now) matches StoreStepView::Done(
            StoreOutcomeView::Loaded(result),
        ) && result is Err && result->Err_0 == failure.load_error(backend),
        (StoreOperationView::KeyringLoading {
            backend,
            server_name,
            url,
            after: AfterLoad::Reread,
        }).resume(StoreReplyView::Loaded(Err(failure)), now) matches StoreStepView::Done(
            StoreOutcomeView::Loaded(result),
        ) && {
            &&& result is Err
            &&& result->Err_0.message
                == "failed to reread OAuth tokens from resolved keyring storage"@
            &&& result->Err_0.causes == seq![failure.load_error(backend).message]
                + failure.load_error(backend).causes
        },
{
}

/// After the keyring, credentials are deleted from the encrypted store, where that is the backend,
/// and then from the file. What the keyring had is remembered on the way.
pub proof fn law_after_a_keyring_delete(
    server_name: Seq<char>,
    url: Seq<char>,
    key: Seq<char>,
    mode: OAuthCredentialsStoreMode,
    removed: bool,
    direct_removed: bool,
    now: nat,
)
    ensures
        (StoreOperationView::KeyringDeleting {
            backend: AuthKeyringBackendKind::Direct,
            server_name,
            url,
            key,
            mode,
        }).resume(StoreReplyView::Deleted(Ok(removed)), now) == StoreStepView::Call(
            StoreCallView::LockFile,
            StoreOperationView::FileLocking {
                job: FileJobView::Delete { key, report: DeleteReport::KeyringRemoved(removed) },
            },
        ),
        (StoreOperationView::KeyringDeleting {
            backend: AuthKeyringBackendKind::Secrets,
            server_name,
            url,
            key,
            mode,
        }).resume(StoreReplyView::Deleted(Ok(removed)), now) == StoreStepView::Call(
            StoreCallView::LockSecrets,
            StoreOperationView::SecretsLocking {
                job: SecretJobView::Delete { server_name, url, key, mode, direct_removed: removed },
            },
        ),
        (StoreOperationView::SecretDeleting { key, mode, direct_removed }).resume(
            StoreReplyView::Deleted(Ok(removed)),
            now,
        ) == StoreStepView::Call(
            StoreCallView::LockFile,
            StoreOperationView::FileLocking {
                job: FileJobView::Delete {
                    key,
                    report: DeleteReport::KeyringRemoved(direct_removed || removed),
                },
            },
        ),
{
}

/// Where credentials cannot be deleted from the keyring or the encrypted store, `File` mode goes
/// on to the file as if there had been none; the other modes end with that error, and say first
/// what was being done.
pub proof fn law_after_a_failed_keyring_delete(
    backend: AuthKeyringBackendKind,
    server_name: Seq<char>,
    url: Seq<char>,
    key: Seq<char>,
    mode: OAuthCredentialsStoreMode,
    direct_removed: bool,
    failure: StoreFailureView,
    now: nat,
)
    ensures
        ({
            let keyring = (StoreOperationView::KeyringDeleting {
                backend,
                server_name,
                url,
                key,
                mode,
            }).resume(StoreReplyView::Deleted(Err(failure)), now);
            let secret = (StoreOperationView::SecretDeleting { key, mode, direct_removed }).resume(
                StoreReplyView::Deleted(Err(failure)),
                now,
            );
            let file = StoreStepView::Call(
                StoreCallView::LockFile,
                StoreOperationView::FileLocking {
                    job: FileJobView::Delete { key, report: DeleteReport::KeyringRemoved(false) },
                },
            );
            &&& mode == OAuthCredentialsStoreMode::File ==> keyring == file && secret == file
            &&& mode != OAuthCredentialsStoreMode::File ==> {
                &&& keyring matches StoreStepView::Done(StoreOutcomeView::Deleted(result))
                &&& result is Err
                &&& result->Err_0.message == "failed to delete OAuth tokens from keyring"@
                &&& result->Err_0.causes == seq![failure.message()]
            }
            &&& mode != OAuthCredentialsStoreMode::File ==> {
                &&& secret matches StoreStepView::Done(StoreOutcomeView::Deleted(result))
                &&& result is Err
                &&& result->Err_0.message == "failed to delete OAuth tokens from keyring"@
                &&& result->Err_0.causes == seq![failure.secret_delete_error().message]
                    + failure.secret_delete_error().causes
            }
        }),
{
}

/// With its lock in hand, the encrypted store is called for what the lock was taken for, under the
/// name of the server and its address.
pub proof fn law_after_the_secrets_lock(
    server_name: Seq<char>,
    url: Seq<char>,
    tokens: StoredOAuthTokensView,
    save: AfterSave,
    load: AfterLoad,
    key: Seq<char>,
    mode: OAuthCredentialsStoreMode,
    direct_removed: bool,
    now: nat,
)
    ensures
        (StoreOperationView::SecretsLocking {
            job: SecretJobView::Save { server_name, tokens, after: save },
        }).resume(StoreReplyView::Done(Ok(())), now) == StoreStepView::Call(
            StoreCallView::SaveSecret {
                name: crate::oauth::keys::secret_name(server_name, tokens.url),
                tokens,
            },
            StoreOperationView::KeyringSaving {
                backend: AuthKeyringBackendKind::Secrets,
                server_name,
                tokens,
                after: save,
            },
        ),
        (StoreOperationView::SecretsLocking {
            job: SecretJobView::Load { server_name, url, after: load },
        }).resume(StoreReplyView::Done(Ok(())), now) == StoreStepView::Call(
            StoreCallView::LoadSecret { name: crate::oauth::keys::secret_name(server_name, url) },
            StoreOperationView::KeyringLoading {
                backend: AuthKeyringBackendKind::Secrets,
                server_name,
                url,
                after: load,
            },
        ),
        (StoreOperationView::SecretsLocking {
            job: SecretJobView::Delete { server_name, url, key, mode, direct_removed },
        }).resume(StoreReplyView::Done(Ok(())), now) == StoreStepView::Call(
            StoreCallView::DeleteSecret { name: crate::oauth::keys::secret_name(server_name, url) },
            StoreOperationView::SecretDeleting { key, mode, direct_removed },
        ),
{
}

/// An encrypted store whose lock cannot be had is a store that failed, with the message of the
/// lock: `Auto` mode goes on to the file, `File` mode deletes from the file alone, and all else
/// ends with the failure.
pub proof fn law_after_a_failed_secrets_lock(
    server_name: Seq<char>,
    url: Seq<char>,
    tokens: StoredOAuthTokensView,
    save: AfterSave,
    key: Seq<char>,
    mode: OAuthCredentialsStoreMode,
    direct_removed: bool,
    failure: StoreFailureView,
    now: nat,
)
    ensures
        ({
            let saving = (StoreOperationView::SecretsLocking {
                job: SecretJobView::Save { server_name, tokens, after: save },
            }).resume(StoreReplyView::Done(Err(failure)), now);
            &&& save == AfterSave::CleanUpOrFallBack ==> saving == StoreStepView::Call(
                StoreCallView::LockFile,
                StoreOperationView::FileLocking {
                    job: FileJobView::Save { tokens, keyring_failure: Some(failure.message()) },
                },
            )
            &&& save != AfterSave::CleanUpOrFallBack ==> (saving matches StoreStepView::Done(
                StoreOutcomeView::Saved(result),
            ) && result is Err && result->Err_0.message == failure.message()
                && result->Err_0.causes.len() == 0)
        }),
        (StoreOperationView::SecretsLocking {
            job: SecretJobView::Load { server_name, url, after: AfterLoad::FallBack },
        }).resume(StoreReplyView::Done(Err(failure)), now) == StoreStepView::Call(
            StoreCallView::LockFile,
            StoreOperationView::FileLocking { job: FileJobView::Load { server_name, url } },
        ),
        (StoreOperationView::SecretsLocking {
            job: SecretJobView::Load { server_name, url, after: AfterLoad::Finish },
        }).resume(StoreReplyView::Done(Err(failure)), now) matches StoreStepView::Done(
            StoreOutcomeView::Loaded(result),
        ) && result is Err && result->Err_0.message == failure.message()
            && result->Err_0.causes.len() == 0,
        (StoreOperationView::SecretsLocking {
            job: SecretJobView::Load { server_name, url, after: AfterLoad::Reread },
        }).resume(StoreReplyView::Done(Err(failure)), now) matches StoreStepView::Done(
            StoreOutcomeView::Loaded(result),
        ) && result is Err && result->Err_0.message
            == "failed to reread OAuth tokens from resolved keyring storage"@
            && result->Err_0.causes == seq![failure.message()],
        ({
            let deleting = (StoreOperationView::SecretsLocking {
                job: SecretJobView::Delete { server_name, url, key, mode, direct_removed },
            }).resume(StoreReplyView::Done(Err(failure)), now);
            &&& mode == OAuthCredentialsStoreMode::File ==> deleting == StoreStepView::Call(
                StoreCallView::LockFile,
                StoreOperationView::FileLocking {
                    job: FileJobView::Delete { key, report: DeleteReport::KeyringRemoved(false) },
                },
            )
            &&& mode != OAuthCredentialsStoreMode::File ==> (deleting matches StoreStepView::Done(
                StoreOutcomeView::Deleted(result),
            ) && result is Err && result->Err_0.message
                == "failed to delete OAuth tokens from keyring"@ && result->Err_0.causes
                == seq![failure.message()])
        }),
{
}

/// The file is read once its lock is held, whatever it is locked for.
pub proof fn law_after_the_file_lock(job: FileJobView, now: nat)
    ensures
        (StoreOperationView::FileLocking { job }).resume(StoreReplyView::Done(Ok(())), now)
            == StoreStepView::Call(
            StoreCallView::ReadFile,
            StoreOperationView::FileReading { job },
        ),
{
}

/// A file that cannot be locked, read or written ends what it was to be used for with that error,
/// with two exceptions: saving after the keyring failed says first that it did, and cleaning up
/// after the keyring was written is a success all the same.
pub proof fn law_after_a_failure_of_the_file(
    job: FileJobView,
    failure: StoreFailureView,
    unread: FileFailureView,
    now: nat,
)
    ensures
        ({
            let locking = (StoreOperationView::FileLocking { job }).resume(
                StoreReplyView::Done(Err(failure)),
                now,
            );
            let writing = (StoreOperationView::FileWriting { job }).resume(
                StoreReplyView::Done(Err(failure)),
                now,
            );
            let reading = (StoreOperationView::FileReading { job }).resume(
                StoreReplyView::FileRead(Err(unread)),
                now,
            );
            &&& locking == writing
            &&& locking is Done && reading is Done
            &&& job is Load ==> {
                &&& locking->Done_0 matches StoreOutcomeView::Loaded(result)
                &&& result is Err && result->Err_0.message == failure.message()
                    && result->Err_0.causes.len() == 0
                &&& reading->Done_0 matches StoreOutcomeView::Loaded(result)
                &&& result is Err && result->Err_0 == unread.error()
            }
            &&& job matches FileJobView::Save { tokens, keyring_failure: None } ==> {
                &&& locking->Done_0 matches StoreOutcomeView::Saved(result)
                &&& result is Err && result->Err_0.message == failure.message()
                    && result->Err_0.causes.len() == 0
                &&& reading->Done_0 matches StoreOutcomeView::Saved(result)
                &&& result is Err && result->Err_0 == unread.error()
            }
            &&& job matches FileJobView::Save { tokens, keyring_failure: Some(why) } ==> {
                &&& locking->Done_0 matches StoreOutcomeView::Saved(result)
                &&& result is Err && result->Err_0.message
                    == "failed to write OAuth tokens to keyring: "@ + why && result->Err_0.causes
                    == seq![failure.message()]
                &&& reading->Done_0 matches StoreOutcomeView::Saved(result)
                &&& result is Err && result->Err_0.message
                    == "failed to write OAuth tokens to keyring: "@ + why && result->Err_0.causes
                    == seq![unread.error().message] + unread.error().causes
            }
            &&& job matches FileJobView::Delete { key, report: DeleteReport::CleanUp } ==> {
                &&& locking->Done_0 matches StoreOutcomeView::Saved(result)
                &&& result is Ok
                &&& reading->Done_0 matches StoreOutcomeView::Saved(result)
                &&& result is Ok
            }
            &&& job matches FileJobView::Delete { key, report: DeleteReport::KeyringRemoved(_) }
                ==> {
                &&& locking->Done_0 matches StoreOutcomeView::Deleted(result)
                &&& result is Err && result->Err_0.message == failure.message()
                    && result->Err_0.causes.len() == 0
                &&& reading->Done_0 matches StoreOutcomeView::Deleted(result)
                &&& result is Err && result->Err_0 == unread.error()
            }
        }),
{
}

/// What a file holds for the server is what is loaded from it, and nothing where it holds nothing
/// or is not there.
pub proof fn law_after_reading_to_load(
    server_name: Seq<char>,
    url: Seq<char>,
    entries: FallbackEntries,
    now: nat,
)
    ensures
        ({
            let reading = StoreOperationView::FileReading {
                job: FileJobView::Load { server_name, url },
            };
            let held = crate::oauth::fallback_file::tokens_for(
                entries,
                crate::oauth::keys::store_key(server_name, url),
                now,
            );
            &&& reading.resume(StoreReplyView::FileRead(Ok(None)), now) == StoreStepView::Done(
                StoreOutcomeView::Loaded(Ok(None)),
            )
            &&& held is None ==> reading.resume(StoreReplyView::FileRead(Ok(Some(entries))), now)
                == StoreStepView::Done(StoreOutcomeView::Loaded(Ok(None)))
            &&& held matches Some(tokens) ==> (reading.resume(
                StoreReplyView::FileRead(Ok(Some(entries))),
                now,
            ) matches StoreStepView::Done(StoreOutcomeView::Loaded(Ok(Some(found))))
                && found.tokens == tokens && found.store == ResolvedOAuthCredentialStore::File)
        }),
{
}

/// Saving writes the file with the entry for the tokens under their own key, beside the entries
/// that it had, or alone where there was no file; then the tokens are saved.
pub proof fn law_after_reading_to_save(
    tokens: StoredOAuthTokensView,
    keyring_failure: Option<Seq<char>>,
    file: Option<FallbackEntries>,
    now: nat,
)
    ensures
        ({
            let job = FileJobView::Save { tokens, keyring_failure };
            let key = crate::oauth::keys::store_key(tokens.server_name, tokens.url);
            &&& (StoreOperationView::FileReading { job }).resume(
                StoreReplyView::FileRead(Ok(file)),
                now,
            ) matches StoreStepView::Call(StoreCallView::WriteFile { file: written }, next)
            &&& next == (StoreOperationView::FileWriting { job })
            &&& file matches Some(entries) ==> written == crate::oauth::fallback_file::with_entry(
                entries,
                key,
                tokens.fallback_entry(now),
            )
            &&& file is None ==> written == seq![(key, tokens.fallback_entry(now))]
            &&& next.resume(StoreReplyView::Done(Ok(())), now) matches StoreStepView::Done(
                StoreOutcomeView::Saved(result),
            )
            &&& result is Ok
        }),
{
    let key = crate::oauth::keys::store_key(tokens.server_name, tokens.url);
    let entry = tokens.fallback_entry(now);
    match file {
        Some(entries) => {
            crate::oauth::token_laws::law_adding_touches_one_key(entries, key, entry, (key, entry));
            assert(crate::oauth::fallback_file::with_entry(entries, key, entry).len() > 0);
        },
        None => {
            assert(crate::oauth::fallback_file::with_entry(seq![], key, entry) == seq![
                (key, entry),
            ]);
        },
    }
}

/// Deleting an entry that the file has writes the file without it, or removes a file that would
/// hold nothing; where the file does not have it nothing is written. Either way the deletion tells
/// whether any store had the credentials, and cleaning up is a success.
pub proof fn law_after_reading_to_delete(
    key: Seq<char>,
    report: DeleteReport,
    entries: FallbackEntries,
    now: nat,
)
    ensures
        ({
            let job = FileJobView::Delete { key, report };
            let reading = StoreOperationView::FileReading { job };
            let writing = StoreOperationView::FileWriting { job };
            let listed = crate::oauth::fallback_file::has_entry(entries, key);
            let rest = crate::oauth::fallback_file::without_entry(entries, key);
            let present = reading.resume(StoreReplyView::FileRead(Ok(Some(entries))), now);
            let absent = reading.resume(StoreReplyView::FileRead(Ok(None)), now);
            let written = writing.resume(StoreReplyView::Done(Ok(())), now);
            &&& listed && rest.len() > 0 ==> present == StoreStepView::Call(
                StoreCallView::WriteFile { file: rest },
                writing,
            )
            &&& listed && rest.len() == 0 ==> present == StoreStepView::Call(
                StoreCallView::RemoveFile,
                writing,
            )
            &&& !listed ==> present == absent
            &&& absent is Done && written is Done
            &&& report == DeleteReport::CleanUp ==> {
                &&& absent->Done_0 matches StoreOutcomeView::Saved(result)
                &&& result is Ok
                &&& written->Done_0 matches StoreOutcomeView::Saved(result)
                &&& result is Ok
            }
            &&& report matches DeleteReport::KeyringRemoved(removed) ==> {
                &&& absent->Done_0 matches StoreOutcomeView::Deleted(result)
                &&& result is Ok && result->Ok_0 == removed
                &&& written->Done_0 matches StoreOutcomeView::Deleted(result)
                &&& result is Ok && result->Ok_0
            }
        }),
{
}

/// An operation waits for the reply to the call that it last made, and for no other.
pub proof fn law_operations_wait_for_their_call(
    operation: StoreOperationView,
    reply: StoreReplyView,
)
    ensures
        operation is RefreshLocking || operation is SecretsLocking || operation is KeyringSaving
            || operation is FileLocking || operation is FileWriting ==> (operation.accepts(reply)
            <==> reply is Done),
        operation is KeyringLoading ==> (operation.accepts(reply) <==> reply is Loaded),
        operation is KeyringDeleting || operation is SecretDeleting ==> (operation.accepts(reply)
            <==> reply is Deleted),
        operation is FileReading ==> (operation.accepts(reply) <==> reply is FileRead),
{
}

} // verus!
