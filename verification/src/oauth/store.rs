//! Where credentials are kept, and how they are saved, found and deleted there.
//!
//! A keyring, an encrypted store and a file can hold credentials. An operation on them is a series
//! of calls: [`StoreStep`] tells which call to make next, and [`StoreOperation::resume`] takes what
//! the call gave back.

use vstd::prelude::*;

use crate::clock::{time_of, unix_time};
use crate::duplicate::Duplicate;
use crate::duration::Duration;
use crate::oauth::error::{OAuthError, OAuthErrorView};
use crate::oauth::fallback_file::{
    file_with_tokens_at, tokens_in_file_at, FallbackEntries, FallbackFile,
};
use crate::oauth::keys::{compute_secret_name, compute_store_key, SecretName, KEYRING_SERVICE};
use crate::oauth::tokens::{
    refresh_expires_in_from_timestamp_at, StoredOAuthTokens, StoredOAuthTokensView,
};
use crate::text::joined;

verus! {

/// Where credentials are to be kept.
#[derive(Clone, Copy, Debug, PartialEq, Eq, Structural)]
pub enum OAuthCredentialsStoreMode {
    /// In the keyring, or in the file where the keyring fails or holds none.
    Auto,
    /// In the file.
    File,
    /// In the keyring.
    Keyring,
}

/// How the keyring keeps credentials.
#[derive(Clone, Copy, Debug, PartialEq, Eq, Structural)]
pub enum AuthKeyringBackendKind {
    /// As entries of their own.
    Direct,
    /// In an encrypted store whose key is in the keyring.
    Secrets,
}

/// The store that credentials were found in.
#[derive(Clone, Copy, Debug, PartialEq, Eq, Structural)]
pub enum ResolvedOAuthCredentialStore {
    File,
    Keyring(AuthKeyringBackendKind),
}

/// Credentials and the store that they were found in.
#[derive(Debug, PartialEq)]
pub struct ResolvedOAuthTokens {
    pub tokens: StoredOAuthTokens,
    pub store: ResolvedOAuthCredentialStore,
}

/// What `ResolvedOAuthTokens` stands for.
#[verifier::ext_equal]
pub struct ResolvedOAuthTokensView {
    pub tokens: StoredOAuthTokensView,
    pub store: ResolvedOAuthCredentialStore,
}

impl DeepView for ResolvedOAuthTokens {
    type V = ResolvedOAuthTokensView;

    open spec fn deep_view(&self) -> ResolvedOAuthTokensView {
        ResolvedOAuthTokensView {
            tokens: self.tokens.deep_view(),
            store: self.store,
        }
    }
}

/// Why a call failed, with the message of the failure.
#[derive(Debug, PartialEq)]
pub enum StoreFailure {
    /// The store could not be locked or reached.
    Unavailable(String),
    /// The store failed.
    Failed(String),
    /// The credentials could not be written as text or read from it.
    Malformed(String),
}

/// What `StoreFailure` stands for.
#[verifier::ext_equal]
pub enum StoreFailureView {
    Unavailable(Seq<char>),
    Failed(Seq<char>),
    Malformed(Seq<char>),
}

impl DeepView for StoreFailure {
    type V = StoreFailureView;

    open spec fn deep_view(&self) -> StoreFailureView {
        match self {
            StoreFailure::Unavailable(value) => StoreFailureView::Unavailable(value@),
            StoreFailure::Failed(value) => StoreFailureView::Failed(value@),
            StoreFailure::Malformed(value) => StoreFailureView::Malformed(value@),
        }
    }
}

/// Why the file could not be read, with the message of the failure.
#[derive(Debug, PartialEq)]
pub enum FileFailure {
    /// It is not known where the file is.
    NotLocated(String),
    /// The file could not be read.
    Unreadable { path: String, message: String },
    /// What the file holds could not be understood.
    Malformed { path: String, message: String },
}

/// What `FileFailure` stands for.
#[verifier::ext_equal]
pub enum FileFailureView {
    NotLocated(Seq<char>),
    Unreadable { path: Seq<char>, message: Seq<char> },
    Malformed { path: Seq<char>, message: Seq<char> },
}

impl DeepView for FileFailure {
    type V = FileFailureView;

    open spec fn deep_view(&self) -> FileFailureView {
        match self {
            FileFailure::NotLocated(value) => FileFailureView::NotLocated(value@),
            FileFailure::Unreadable { path, message } => FileFailureView::Unreadable {
                path: path@,
                message: message@,
            },
            FileFailure::Malformed { path, message } => FileFailureView::Malformed {
                path: path@,
                message: message@,
            },
        }
    }
}

impl FileFailureView {
    /// What is reported where the file could not be read.
    pub open spec fn error(self) -> OAuthErrorView {
        match self {
            FileFailureView::NotLocated(message) => OAuthErrorView::plain(message),
            FileFailureView::Unreadable { path, message } => OAuthErrorView::caused(
                "failed to read credentials file at "@ + path,
                message,
            ),
            FileFailureView::Malformed { path, message } => OAuthErrorView::caused(
                "failed to parse credentials file at "@ + path,
                message,
            ),
        }
    }
}

impl FileFailure {
    fn into_error(self) -> (error: OAuthError)
        ensures
            error.deep_view() == self.deep_view().error(),
    {
        match self {
            FileFailure::NotLocated(message) => OAuthError::plain(message),
            FileFailure::Unreadable { path, message } => OAuthError::caused(
                joined("failed to read credentials file at ", path.as_str()),
                message,
            ),
            FileFailure::Malformed { path, message } => OAuthError::caused(
                joined("failed to parse credentials file at ", path.as_str()),
                message,
            ),
        }
    }
}

/// A call to make.
#[derive(Debug, PartialEq)]
pub enum StoreCall {
    /// Take the lock of a server's credentials, and hold it to the end of the operation.
    LockRefresh { server_name: String, url: String },
    /// Read an entry of the keyring.
    LoadKeyring { service: String, key: String },
    /// Write an entry of the keyring.
    SaveKeyring { service: String, key: String, tokens: StoredOAuthTokens },
    /// Delete an entry of the keyring.
    DeleteKeyring { service: String, key: String },
    /// Take the lock of the encrypted store, and hold it until the next call has been made.
    LockSecrets,
    /// Read from the encrypted store.
    LoadSecret { name: SecretName },
    /// Write to the encrypted store.
    SaveSecret { name: SecretName, tokens: StoredOAuthTokens },
    /// Delete from the encrypted store.
    DeleteSecret { name: SecretName },
    /// Take the lock of the file, and hold it to the end of the operation.
    LockFile,
    /// Read the file, if there is one.
    ReadFile,
    /// Write the file, so that only its owner can read it.
    WriteFile { file: FallbackFile },
    /// Remove the file, if there is one.
    RemoveFile,
}

/// What `StoreCall` stands for.
#[verifier::ext_equal]
pub enum StoreCallView {
    LockRefresh { server_name: Seq<char>, url: Seq<char> },
    LoadKeyring { service: Seq<char>, key: Seq<char> },
    SaveKeyring { service: Seq<char>, key: Seq<char>, tokens: StoredOAuthTokensView },
    DeleteKeyring { service: Seq<char>, key: Seq<char> },
    LockSecrets,
    LoadSecret { name: Seq<char> },
    SaveSecret { name: Seq<char>, tokens: StoredOAuthTokensView },
    DeleteSecret { name: Seq<char> },
    LockFile,
    ReadFile,
    WriteFile { file: FallbackEntries },
    RemoveFile,
}

impl DeepView for StoreCall {
    type V = StoreCallView;

    open spec fn deep_view(&self) -> StoreCallView {
        match self {
            StoreCall::LockRefresh { server_name, url } => StoreCallView::LockRefresh {
                server_name: server_name@,
                url: url@,
            },
            StoreCall::LoadKeyring { service, key } => StoreCallView::LoadKeyring {
                service: service@,
                key: key@,
            },
            StoreCall::SaveKeyring { service, key, tokens } => StoreCallView::SaveKeyring {
                service: service@,
                key: key@,
                tokens: tokens.deep_view(),
            },
            StoreCall::DeleteKeyring { service, key } => StoreCallView::DeleteKeyring {
                service: service@,
                key: key@,
            },
            StoreCall::LockSecrets => StoreCallView::LockSecrets,
            StoreCall::LoadSecret { name } => StoreCallView::LoadSecret {
                name: name.deep_view(),
            },
            StoreCall::SaveSecret { name, tokens } => StoreCallView::SaveSecret {
                name: name.deep_view(),
                tokens: tokens.deep_view(),
            },
            StoreCall::DeleteSecret { name } => StoreCallView::DeleteSecret {
                name: name.deep_view(),
            },
            StoreCall::LockFile => StoreCallView::LockFile,
            StoreCall::ReadFile => StoreCallView::ReadFile,
            StoreCall::WriteFile { file } => StoreCallView::WriteFile {
                file: file.deep_view(),
            },
            StoreCall::RemoveFile => StoreCallView::RemoveFile,
        }
    }
}

/// What a call gave back.
#[derive(Debug, PartialEq)]
pub enum StoreReply {
    /// A lock was taken, or something was written or removed.
    Done(Result<(), StoreFailure>),
    /// Credentials were read, or there were none.
    Loaded(Result<Option<StoredOAuthTokens>, StoreFailure>),
    /// Credentials were deleted, or there were none.
    Deleted(Result<bool, StoreFailure>),
    /// The file was read, or there was none.
    FileRead(Result<Option<FallbackFile>, FileFailure>),
}

/// What `StoreReply` stands for.
#[verifier::ext_equal]
pub enum StoreReplyView {
    Done(Result<(), StoreFailureView>),
    Loaded(Result<Option<StoredOAuthTokensView>, StoreFailureView>),
    Deleted(Result<bool, StoreFailureView>),
    FileRead(Result<Option<FallbackEntries>, FileFailureView>),
}

impl DeepView for StoreReply {
    type V = StoreReplyView;

    open spec fn deep_view(&self) -> StoreReplyView {
        match self {
            StoreReply::Done(value) => StoreReplyView::Done(match value {
                Ok(()) => Ok(()),
                Err(value) => Err(value.deep_view()),
            }),
            StoreReply::Loaded(value) => StoreReplyView::Loaded(match value {
                Ok(value) => Ok(value.deep_view()),
                Err(value) => Err(value.deep_view()),
            }),
            StoreReply::Deleted(value) => StoreReplyView::Deleted(match value {
                Ok(value) => Ok(value.deep_view()),
                Err(value) => Err(value.deep_view()),
            }),
            StoreReply::FileRead(value) => StoreReplyView::FileRead(match value {
                Ok(value) => Ok(value.deep_view()),
                Err(value) => Err(value.deep_view()),
            }),
        }
    }
}

/// What an operation came to.
#[derive(Debug, PartialEq)]
pub enum StoreOutcome {
    Saved(Result<(), OAuthError>),
    /// Whether there was anything to delete.
    Deleted(Result<bool, OAuthError>),
    Loaded(Result<Option<ResolvedOAuthTokens>, OAuthError>),
}

/// What `StoreOutcome` stands for.
#[verifier::ext_equal]
pub enum StoreOutcomeView {
    Saved(Result<(), OAuthErrorView>),
    Deleted(Result<bool, OAuthErrorView>),
    Loaded(Result<Option<ResolvedOAuthTokensView>, OAuthErrorView>),
}

impl DeepView for StoreOutcome {
    type V = StoreOutcomeView;

    open spec fn deep_view(&self) -> StoreOutcomeView {
        match self {
            StoreOutcome::Saved(value) => StoreOutcomeView::Saved(match value {
                Ok(()) => Ok(()),
                Err(value) => Err(value.deep_view()),
            }),
            StoreOutcome::Deleted(value) => StoreOutcomeView::Deleted(match value {
                Ok(value) => Ok(value.deep_view()),
                Err(value) => Err(value.deep_view()),
            }),
            StoreOutcome::Loaded(value) => StoreOutcomeView::Loaded(match value {
                Ok(value) => Ok(value.deep_view()),
                Err(value) => Err(value.deep_view()),
            }),
        }
    }
}

/// What follows once the keyring was written.
#[derive(Clone, Copy, Debug, PartialEq, Eq, Structural)]
pub enum AfterSave {
    /// Nothing.
    Finish,
    /// The file's entry is removed.
    CleanUp,
    /// The file's entry is removed; and where the keyring fails, the file is written.
    CleanUpOrFallBack,
}

/// What follows once the keyring was read.
#[derive(Clone, Copy, Debug, PartialEq, Eq, Structural)]
pub enum AfterLoad {
    /// Nothing.
    Finish,
    /// Where the keyring fails or holds nothing, the file is read.
    FallBack,
    /// Nothing; a failure is reported as one to read again.
    Reread,
}

/// What is reported once the file's entry was deleted.
#[derive(Clone, Copy, Debug, PartialEq, Eq, Structural)]
pub enum DeleteReport {
    /// That the credentials were saved, whatever became of the file.
    CleanUp,
    /// Whether there was anything to delete, given whether the keyring held anything.
    KeyringRemoved(bool),
}

/// What is done with the file.
#[derive(Debug, PartialEq)]
pub enum FileJob {
    Load { server_name: String, url: String },
    /// Written because the keyring was not asked, or because it failed with a message.
    Save { tokens: StoredOAuthTokens, keyring_failure: Option<String> },
    Delete { key: String, report: DeleteReport },
}

/// What `FileJob` stands for.
#[verifier::ext_equal]
pub enum FileJobView {
    Load { server_name: Seq<char>, url: Seq<char> },
    Save { tokens: StoredOAuthTokensView, keyring_failure: Option<Seq<char>> },
    Delete { key: Seq<char>, report: DeleteReport },
}

impl DeepView for FileJob {
    type V = FileJobView;

    open spec fn deep_view(&self) -> FileJobView {
        match self {
            FileJob::Load { server_name, url } => FileJobView::Load {
                server_name: server_name@,
                url: url@,
            },
            FileJob::Save { tokens, keyring_failure } => FileJobView::Save {
                tokens: tokens.deep_view(),
                keyring_failure: keyring_failure.deep_view(),
            },
            FileJob::Delete { key, report } => FileJobView::Delete {
                key: key@,
                report: *report,
            },
        }
    }
}

/// What is done with the encrypted store.
#[derive(Debug, PartialEq)]
pub enum SecretJob {
    Save { server_name: String, tokens: StoredOAuthTokens, after: AfterSave },
    Load { server_name: String, url: String, after: AfterLoad },
    /// Deletes an entry, after the keyring's own was deleted.
    Delete {
        server_name: String,
        url: String,
        key: String,
        mode: OAuthCredentialsStoreMode,
        direct_removed: bool,
    },
}

/// What `SecretJob` stands for.
#[verifier::ext_equal]
pub enum SecretJobView {
    Save { server_name: Seq<char>, tokens: StoredOAuthTokensView, after: AfterSave },
    Load { server_name: Seq<char>, url: Seq<char>, after: AfterLoad },
    Delete {
        server_name: Seq<char>,
        url: Seq<char>,
        key: Seq<char>,
        mode: OAuthCredentialsStoreMode,
        direct_removed: bool,
    },
}

impl DeepView for SecretJob {
    type V = SecretJobView;

    open spec fn deep_view(&self) -> SecretJobView {
        match self {
            SecretJob::Save { server_name, tokens, after } => SecretJobView::Save {
                server_name: server_name@,
                tokens: tokens.deep_view(),
                after: *after,
            },
            SecretJob::Load { server_name, url, after } => SecretJobView::Load {
                server_name: server_name@,
                url: url@,
                after: *after,
            },
            SecretJob::Delete { server_name, url, key, mode, direct_removed } =>
                SecretJobView::Delete {
                server_name: server_name@,
                url: url@,
                key: key@,
                mode: *mode,
                direct_removed: *direct_removed,
            },
        }
    }
}

/// What is done once the lock of a server's credentials is held.
#[derive(Debug, PartialEq)]
pub enum LockedOperation {
    Save {
        server_name: String,
        tokens: StoredOAuthTokens,
        mode: OAuthCredentialsStoreMode,
        backend: AuthKeyringBackendKind,
    },
    Delete {
        server_name: String,
        url: String,
        mode: OAuthCredentialsStoreMode,
        backend: AuthKeyringBackendKind,
    },
}

/// What `LockedOperation` stands for.
#[verifier::ext_equal]
pub enum LockedOperationView {
    Save {
        server_name: Seq<char>,
        tokens: StoredOAuthTokensView,
        mode: OAuthCredentialsStoreMode,
        backend: AuthKeyringBackendKind,
    },
    Delete {
        server_name: Seq<char>,
        url: Seq<char>,
        mode: OAuthCredentialsStoreMode,
        backend: AuthKeyringBackendKind,
    },
}

impl DeepView for LockedOperation {
    type V = LockedOperationView;

    open spec fn deep_view(&self) -> LockedOperationView {
        match self {
            LockedOperation::Save { server_name, tokens, mode, backend } =>
                LockedOperationView::Save {
                server_name: server_name@,
                tokens: tokens.deep_view(),
                mode: *mode,
                backend: *backend,
            },
            LockedOperation::Delete { server_name, url, mode, backend } =>
                LockedOperationView::Delete {
                server_name: server_name@,
                url: url@,
                mode: *mode,
                backend: *backend,
            },
        }
    }
}

/// An operation that waits for what a call gives back.
#[derive(Debug, PartialEq)]
pub enum StoreOperation {
    RefreshLocking { next: LockedOperation },
    SecretsLocking { job: SecretJob },
    KeyringSaving {
        backend: AuthKeyringBackendKind,
        server_name: String,
        tokens: StoredOAuthTokens,
        after: AfterSave,
    },
    KeyringLoading {
        backend: AuthKeyringBackendKind,
        server_name: String,
        url: String,
        after: AfterLoad,
    },
    KeyringDeleting {
        backend: AuthKeyringBackendKind,
        server_name: String,
        url: String,
        key: String,
        mode: OAuthCredentialsStoreMode,
    },
    SecretDeleting { key: String, mode: OAuthCredentialsStoreMode, direct_removed: bool },
    FileLocking { job: FileJob },
    FileReading { job: FileJob },
    FileWriting { job: FileJob },
}

/// What `StoreOperation` stands for.
#[verifier::ext_equal]
pub enum StoreOperationView {
    RefreshLocking { next: LockedOperationView },
    SecretsLocking { job: SecretJobView },
    KeyringSaving {
        backend: AuthKeyringBackendKind,
        server_name: Seq<char>,
        tokens: StoredOAuthTokensView,
        after: AfterSave,
    },
    KeyringLoading {
        backend: AuthKeyringBackendKind,
        server_name: Seq<char>,
        url: Seq<char>,
        after: AfterLoad,
    },
    KeyringDeleting {
        backend: AuthKeyringBackendKind,
        server_name: Seq<char>,
        url: Seq<char>,
        key: Seq<char>,
        mode: OAuthCredentialsStoreMode,
    },
    SecretDeleting { key: Seq<char>, mode: OAuthCredentialsStoreMode, direct_removed: bool },
    FileLocking { job: FileJobView },
    FileReading { job: FileJobView },
    FileWriting { job: FileJobView },
}

impl DeepView for StoreOperation {
    type V = StoreOperationView;

    open spec fn deep_view(&self) -> StoreOperationView {
        match self {
            StoreOperation::RefreshLocking { next } => StoreOperationView::RefreshLocking {
                next: next.deep_view(),
            },
            StoreOperation::SecretsLocking { job } => StoreOperationView::SecretsLocking {
                job: job.deep_view(),
            },
            StoreOperation::KeyringSaving { backend, server_name, tokens, after } =>
                StoreOperationView::KeyringSaving {
                backend: *backend,
                server_name: server_name@,
                tokens: tokens.deep_view(),
                after: *after,
            },
            StoreOperation::KeyringLoading { backend, server_name, url, after } =>
                StoreOperationView::KeyringLoading {
                backend: *backend,
                server_name: server_name@,
                url: url@,
                after: *after,
            },
            StoreOperation::KeyringDeleting { backend, server_name, url, key, mode } =>
                StoreOperationView::KeyringDeleting {
                backend: *backend,
                server_name: server_name@,
                url: url@,
                key: key@,
                mode: *mode,
            },
            StoreOperation::SecretDeleting { key, mode, direct_removed } =>
                StoreOperationView::SecretDeleting {
                key: key@,
                mode: *mode,
                direct_removed: *direct_removed,
            },
            StoreOperation::FileLocking { job } => StoreOperationView::FileLocking {
                job: job.deep_view(),
            },
            StoreOperation::FileReading { job } => StoreOperationView::FileReading {
                job: job.deep_view(),
            },
            StoreOperation::FileWriting { job } => StoreOperationView::FileWriting {
                job: job.deep_view(),
            },
        }
    }
}

/// What an operation needs next: a call, or nothing, because it is done.
#[derive(Debug, PartialEq)]
pub enum StoreStep {
    Call(StoreCall, StoreOperation),
    Done(StoreOutcome),
}

/// What `StoreStep` stands for.
#[verifier::ext_equal]
pub enum StoreStepView {
    Call(StoreCallView, StoreOperationView),
    Done(StoreOutcomeView),
}

impl DeepView for StoreStep {
    type V = StoreStepView;

    open spec fn deep_view(&self) -> StoreStepView {
        match self {
            StoreStep::Call(value0, value1) =>
                StoreStepView::Call(value0.deep_view(), value1.deep_view()),
            StoreStep::Done(value) => StoreStepView::Done(value.deep_view()),
        }
    }
}

impl StoreFailureView {
    /// The message of the failure.
    pub open spec fn message(self) -> Seq<char> {
        match self {
            StoreFailureView::Unavailable(message) => message,
            StoreFailureView::Failed(message) => message,
            StoreFailureView::Malformed(message) => message,
        }
    }

    /// What is reported where credentials could not be read from the keyring.
    pub open spec fn load_error(self, backend: AuthKeyringBackendKind) -> OAuthErrorView {
        match (self, backend) {
            (StoreFailureView::Malformed(message), AuthKeyringBackendKind::Direct) =>
                OAuthErrorView::caused("failed to deserialize OAuth tokens from keyring"@, message),
            (StoreFailureView::Malformed(message), AuthKeyringBackendKind::Secrets) =>
                OAuthErrorView::caused(
                "failed to deserialize OAuth tokens from encrypted storage"@,
                message,
            ),
            (StoreFailureView::Failed(message), AuthKeyringBackendKind::Secrets) =>
                OAuthErrorView::caused(
                "failed to load MCP OAuth tokens from encrypted storage"@,
                message,
            ),
            _ => OAuthErrorView::plain(self.message()),
        }
    }

    /// What is reported where credentials could not be written to the keyring.
    pub open spec fn save_error(self, backend: AuthKeyringBackendKind) -> OAuthErrorView {
        match (self, backend) {
            (StoreFailureView::Malformed(message), _) => OAuthErrorView::caused(
                "failed to serialize OAuth tokens"@,
                message,
            ),
            (_, AuthKeyringBackendKind::Direct) => OAuthErrorView::caused(
                "failed to write OAuth tokens to keyring: "@ + self.message(),
                self.message(),
            ),
            (StoreFailureView::Failed(message), AuthKeyringBackendKind::Secrets) =>
                OAuthErrorView::caused(
                "failed to write OAuth tokens to encrypted storage"@,
                message,
            ),
            (StoreFailureView::Unavailable(message), AuthKeyringBackendKind::Secrets) =>
                OAuthErrorView::plain(message),
        }
    }

    /// What is reported where the encrypted store could not delete credentials.
    pub open spec fn secret_delete_error(self) -> OAuthErrorView {
        match self {
            StoreFailureView::Unavailable(message) => OAuthErrorView::plain(message),
            _ => OAuthErrorView::caused(
                "failed to delete OAuth tokens from encrypted storage"@,
                self.message(),
            ),
        }
    }
}

impl StoreFailure {
    /// The message of the failure.
    fn into_message(self) -> (message: String)
        ensures
            message@ == self.deep_view().message(),
    {
        match self {
            StoreFailure::Unavailable(message) => message,
            StoreFailure::Failed(message) => message,
            StoreFailure::Malformed(message) => message,
        }
    }

    /// What is reported where credentials could not be read from the keyring.
    fn into_load_error(self, backend: AuthKeyringBackendKind) -> (error: OAuthError)
        ensures
            error.deep_view() == self.deep_view().load_error(backend),
    {
        match (self, backend) {
            (StoreFailure::Malformed(message), AuthKeyringBackendKind::Direct) =>
                OAuthError::caused(
                "failed to deserialize OAuth tokens from keyring".to_owned(),
                message,
            ),
            (StoreFailure::Malformed(message), AuthKeyringBackendKind::Secrets) =>
                OAuthError::caused(
                "failed to deserialize OAuth tokens from encrypted storage".to_owned(),
                message,
            ),
            (StoreFailure::Failed(message), AuthKeyringBackendKind::Secrets) => OAuthError::caused(
                "failed to load MCP OAuth tokens from encrypted storage".to_owned(),
                message,
            ),
            (failure, _) => OAuthError::plain(failure.into_message()),
        }
    }

    /// What is reported where credentials could not be written to the keyring.
    fn into_save_error(self, backend: AuthKeyringBackendKind) -> (error: OAuthError)
        ensures
            error.deep_view() == self.deep_view().save_error(backend),
    {
        match (self, backend) {
            (StoreFailure::Malformed(message), _) => OAuthError::caused(
                "failed to serialize OAuth tokens".to_owned(),
                message,
            ),
            (failure, AuthKeyringBackendKind::Direct) => {
                let message = failure.into_message();
                OAuthError::caused(
                    joined("failed to write OAuth tokens to keyring: ", message.as_str()),
                    message,
                )
            },
            (StoreFailure::Failed(message), AuthKeyringBackendKind::Secrets) => OAuthError::caused(
                "failed to write OAuth tokens to encrypted storage".to_owned(),
                message,
            ),
            (StoreFailure::Unavailable(message), AuthKeyringBackendKind::Secrets) =>
                OAuthError::plain(message),
        }
    }

    /// What is reported where the encrypted store could not delete credentials.
    fn into_secret_delete_error(self) -> (error: OAuthError)
        ensures
            error.deep_view() == self.deep_view().secret_delete_error(),
    {
        match self {
            StoreFailure::Unavailable(message) => OAuthError::plain(message),
            failure => OAuthError::caused(
                "failed to delete OAuth tokens from encrypted storage".to_owned(),
                failure.into_message(),
            ),
        }
    }
}

impl StoreStepView {
    /// The operation saved nothing.
    pub open spec fn save_failed(error: OAuthErrorView) -> StoreStepView {
        StoreStepView::Done(StoreOutcomeView::Saved(Err(error)))
    }

    /// The file is worked on, under its lock.
    pub open spec fn file(job: FileJobView) -> StoreStepView {
        StoreStepView::Call(StoreCallView::LockFile, StoreOperationView::FileLocking { job })
    }

    /// The encrypted store is worked on, under its lock.
    pub open spec fn secrets(job: SecretJobView) -> StoreStepView {
        StoreStepView::Call(StoreCallView::LockSecrets, StoreOperationView::SecretsLocking { job })
    }

    /// Credentials are written to the keyring.
    pub open spec fn keyring_save(
        backend: AuthKeyringBackendKind,
        server_name: Seq<char>,
        tokens: StoredOAuthTokensView,
        after: AfterSave,
    ) -> StoreStepView {
        match backend {
            AuthKeyringBackendKind::Direct => StoreStepView::Call(
                StoreCallView::SaveKeyring {
                    service: KEYRING_SERVICE@,
                    key: crate::oauth::keys::store_key(server_name, tokens.url),
                    tokens,
                },
                StoreOperationView::KeyringSaving { backend, server_name, tokens, after },
            ),
            AuthKeyringBackendKind::Secrets => StoreStepView::secrets(
                SecretJobView::Save { server_name, tokens, after },
            ),
        }
    }

    /// Credentials could not be written to the keyring.
    pub open spec fn keyring_save_failed(
        tokens: StoredOAuthTokensView,
        after: AfterSave,
        error: OAuthErrorView,
    ) -> StoreStepView {
        match after {
            AfterSave::CleanUpOrFallBack => StoreStepView::file(
                FileJobView::Save { tokens, keyring_failure: Some(error.message) },
            ),
            _ => StoreStepView::save_failed(error),
        }
    }

    /// Credentials were written to the keyring.
    pub open spec fn keyring_saved(
        server_name: Seq<char>,
        tokens: StoredOAuthTokensView,
        after: AfterSave,
    ) -> StoreStepView {
        match after {
            AfterSave::Finish => StoreStepView::Done(StoreOutcomeView::Saved(Ok(()))),
            _ => StoreStepView::file(
                FileJobView::Delete {
                    key: crate::oauth::keys::store_key(server_name, tokens.url),
                    report: DeleteReport::CleanUp,
                },
            ),
        }
    }

    /// Credentials are saved where `mode` says.
    pub open spec fn save(
        server_name: Seq<char>,
        tokens: StoredOAuthTokensView,
        mode: OAuthCredentialsStoreMode,
        backend: AuthKeyringBackendKind,
    ) -> StoreStepView {
        match mode {
            OAuthCredentialsStoreMode::Auto => StoreStepView::keyring_save(
                backend,
                server_name,
                tokens,
                AfterSave::CleanUpOrFallBack,
            ),
            OAuthCredentialsStoreMode::File => StoreStepView::file(
                FileJobView::Save { tokens, keyring_failure: None },
            ),
            OAuthCredentialsStoreMode::Keyring => StoreStepView::keyring_save(
                backend,
                server_name,
                tokens,
                AfterSave::CleanUp,
            ),
        }
    }

    /// Credentials are read from the keyring.
    pub open spec fn keyring_load(
        backend: AuthKeyringBackendKind,
        server_name: Seq<char>,
        url: Seq<char>,
        after: AfterLoad,
    ) -> StoreStepView {
        match backend {
            AuthKeyringBackendKind::Direct => StoreStepView::Call(
                StoreCallView::LoadKeyring {
                    service: KEYRING_SERVICE@,
                    key: crate::oauth::keys::store_key(server_name, url),
                },
                StoreOperationView::KeyringLoading { backend, server_name, url, after },
            ),
            AuthKeyringBackendKind::Secrets => StoreStepView::secrets(
                SecretJobView::Load { server_name, url, after },
            ),
        }
    }

    /// Credentials could not be read from the keyring.
    pub open spec fn keyring_load_failed(
        server_name: Seq<char>,
        url: Seq<char>,
        after: AfterLoad,
        error: OAuthErrorView,
    ) -> StoreStepView {
        match after {
            AfterLoad::FallBack => StoreStepView::file(FileJobView::Load { server_name, url }),
            AfterLoad::Finish => StoreStepView::Done(StoreOutcomeView::Loaded(Err(error))),
            AfterLoad::Reread => StoreStepView::Done(
                StoreOutcomeView::Loaded(
                    Err(
                        error.in_context(
                            "failed to reread OAuth tokens from resolved keyring storage"@,
                        ),
                    ),
                ),
            ),
        }
    }

    /// Credentials are looked for where `mode` says.
    pub open spec fn resolve(
        server_name: Seq<char>,
        url: Seq<char>,
        mode: OAuthCredentialsStoreMode,
        backend: AuthKeyringBackendKind,
    ) -> StoreStepView {
        match mode {
            OAuthCredentialsStoreMode::Auto => StoreStepView::keyring_load(
                backend,
                server_name,
                url,
                AfterLoad::FallBack,
            ),
            OAuthCredentialsStoreMode::File => StoreStepView::file(
                FileJobView::Load { server_name, url },
            ),
            OAuthCredentialsStoreMode::Keyring => StoreStepView::keyring_load(
                backend,
                server_name,
                url,
                AfterLoad::Finish,
            ),
        }
    }

    /// Credentials are read again from the store that they were found in.
    pub open spec fn reread(
        server_name: Seq<char>,
        url: Seq<char>,
        store: ResolvedOAuthCredentialStore,
    ) -> StoreStepView {
        match store {
            ResolvedOAuthCredentialStore::File => StoreStepView::file(
                FileJobView::Load { server_name, url },
            ),
            ResolvedOAuthCredentialStore::Keyring(backend) => StoreStepView::keyring_load(
                backend,
                server_name,
                url,
                AfterLoad::Reread,
            ),
        }
    }

    /// Credentials are written back to the store that they were found in, and to no other.
    pub open spec fn persist(
        server_name: Seq<char>,
        tokens: StoredOAuthTokensView,
        store: ResolvedOAuthCredentialStore,
    ) -> StoreStepView {
        match store {
            ResolvedOAuthCredentialStore::File => StoreStepView::file(
                FileJobView::Save { tokens, keyring_failure: None },
            ),
            ResolvedOAuthCredentialStore::Keyring(backend) => StoreStepView::keyring_save(
                backend,
                server_name,
                tokens,
                AfterSave::Finish,
            ),
        }
    }

    /// Credentials are deleted from the keyring and from the file.
    pub open spec fn delete(
        server_name: Seq<char>,
        url: Seq<char>,
        mode: OAuthCredentialsStoreMode,
        backend: AuthKeyringBackendKind,
    ) -> StoreStepView {
        let key = crate::oauth::keys::store_key(server_name, url);
        StoreStepView::Call(
            StoreCallView::DeleteKeyring { service: KEYRING_SERVICE@, key },
            StoreOperationView::KeyringDeleting { backend, server_name, url, key, mode },
        )
    }

    /// The keyring could not delete the credentials. Only where they are kept in the file does the
    /// operation go on.
    pub open spec fn keyring_delete_failed(
        key: Seq<char>,
        mode: OAuthCredentialsStoreMode,
        error: OAuthErrorView,
    ) -> StoreStepView {
        match mode {
            OAuthCredentialsStoreMode::File => StoreStepView::file(
                FileJobView::Delete { key, report: DeleteReport::KeyringRemoved(false) },
            ),
            _ => StoreStepView::Done(
                StoreOutcomeView::Deleted(
                    Err(
                        error.in_context(
                            "failed to delete OAuth tokens from keyring"@,
                        ),
                    ),
                ),
            ),
        }
    }

    /// The file is written, or removed where it would hold nothing.
    pub open spec fn write_file(entries: FallbackEntries, job: FileJobView) -> StoreStepView {
        StoreStepView::Call(
            if entries.len() == 0 {
                StoreCallView::RemoveFile
            } else {
                StoreCallView::WriteFile { file: entries }
            },
            StoreOperationView::FileWriting { job },
        )
    }
}

impl DeleteReport {
    /// What is reported once the file's entry is gone.
    pub open spec fn outcome(self, file_removed: bool) -> StoreOutcomeView {
        match self {
            DeleteReport::CleanUp => StoreOutcomeView::Saved(Ok(())),
            DeleteReport::KeyringRemoved(removed) => StoreOutcomeView::Deleted(
                Ok(removed || file_removed),
            ),
        }
    }

    fn finish(self, file_removed: bool) -> (outcome: StoreOutcome)
        ensures
            outcome.deep_view() == self.outcome(file_removed),
    {
        match self {
            DeleteReport::CleanUp => StoreOutcome::Saved(Ok(())),
            DeleteReport::KeyringRemoved(removed) => StoreOutcome::Deleted(
                Ok(removed || file_removed),
            ),
        }
    }
}

impl SecretJobView {
    /// The encrypted store could not be locked.
    pub open spec fn failed(self, error: OAuthErrorView) -> StoreStepView {
        match self {
            SecretJobView::Save { server_name, tokens, after } =>
                StoreStepView::keyring_save_failed(tokens, after, error),
            SecretJobView::Load { server_name, url, after } => StoreStepView::keyring_load_failed(
                server_name,
                url,
                after,
                error,
            ),
            SecretJobView::Delete { server_name, url, key, mode, direct_removed } =>
                StoreStepView::keyring_delete_failed(key, mode, error),
        }
    }

    /// The encrypted store is locked.
    pub open spec fn locked(self) -> StoreStepView {
        let backend = AuthKeyringBackendKind::Secrets;
        match self {
            SecretJobView::Save { server_name, tokens, after } => StoreStepView::Call(
                StoreCallView::SaveSecret {
                    name: crate::oauth::keys::secret_name(server_name, tokens.url),
                    tokens,
                },
                StoreOperationView::KeyringSaving { backend, server_name, tokens, after },
            ),
            SecretJobView::Load { server_name, url, after } => StoreStepView::Call(
                StoreCallView::LoadSecret {
                    name: crate::oauth::keys::secret_name(server_name, url),
                },
                StoreOperationView::KeyringLoading { backend, server_name, url, after },
            ),
            SecretJobView::Delete { server_name, url, key, mode, direct_removed } =>
                StoreStepView::Call(
                StoreCallView::DeleteSecret {
                    name: crate::oauth::keys::secret_name(server_name, url),
                },
                StoreOperationView::SecretDeleting { key, mode, direct_removed },
            ),
        }
    }
}

impl FileJobView {
    /// The work on the file failed.
    pub open spec fn failed(self, error: OAuthErrorView) -> StoreOutcomeView {
        match self {
            FileJobView::Load { server_name, url } => StoreOutcomeView::Loaded(Err(error)),
            FileJobView::Save { tokens, keyring_failure } => StoreOutcomeView::Saved(
                Err(
                    match keyring_failure {
                        Some(message) => error.in_context(
                            "failed to write OAuth tokens to keyring: "@ + message,
                        ),
                        None => error,
                    },
                ),
            ),
            FileJobView::Delete { key, report } => match report {
                DeleteReport::CleanUp => StoreOutcomeView::Saved(Ok(())),
                DeleteReport::KeyringRemoved(_) => StoreOutcomeView::Deleted(Err(error)),
            },
        }
    }

    /// The file is locked.
    pub open spec fn locked(self) -> StoreStepView {
        StoreStepView::Call(
            StoreCallView::ReadFile,
            StoreOperationView::FileReading { job: self },
        )
    }

    /// The file was read.
    pub open spec fn read(self, file: Option<FallbackEntries>, now: nat) -> StoreStepView {
        match self {
            FileJobView::Load { server_name, url } => match file {
                Some(entries) => match crate::oauth::fallback_file::tokens_for(
                    entries,
                    crate::oauth::keys::store_key(server_name, url),
                    now,
                ) {
                    Some(tokens) => StoreStepView::Done(
                        StoreOutcomeView::Loaded(
                            Ok(
                                Some(
                                    ResolvedOAuthTokensView {
                                        tokens,
                                        store: ResolvedOAuthCredentialStore::File,
                                    },
                                ),
                            ),
                        ),
                    ),
                    None => StoreStepView::Done(StoreOutcomeView::Loaded(Ok(None))),
                },
                None => StoreStepView::Done(StoreOutcomeView::Loaded(Ok(None))),
            },
            FileJobView::Save { tokens, keyring_failure } => StoreStepView::write_file(
                crate::oauth::fallback_file::with_entry(
                    match file {
                        Some(entries) => entries,
                        None => seq![],
                    },
                    crate::oauth::keys::store_key(tokens.server_name, tokens.url),
                    tokens.fallback_entry(now),
                ),
                self,
            ),
            FileJobView::Delete { key, report } => match file {
                Some(entries) => if crate::oauth::fallback_file::has_entry(entries, key) {
                    StoreStepView::write_file(
                        crate::oauth::fallback_file::without_entry(entries, key),
                        self,
                    )
                } else {
                    StoreStepView::Done(report.outcome(false))
                },
                None => StoreStepView::Done(report.outcome(false)),
            },
        }
    }

    /// The file was written.
    pub open spec fn written(self) -> StoreOutcomeView {
        match self {
            FileJobView::Load { server_name, url } => StoreOutcomeView::Loaded(Ok(None)),
            FileJobView::Save { tokens, keyring_failure } => StoreOutcomeView::Saved(Ok(())),
            FileJobView::Delete { key, report } => report.outcome(true),
        }
    }
}

impl StoreOperationView {
    /// The operation waits for a reply of this kind.
    pub open spec fn accepts(self, reply: StoreReplyView) -> bool {
        match self {
            StoreOperationView::RefreshLocking { .. } => reply is Done,
            StoreOperationView::SecretsLocking { .. } => reply is Done,
            StoreOperationView::KeyringSaving { .. } => reply is Done,
            StoreOperationView::KeyringLoading { .. } => reply is Loaded,
            StoreOperationView::KeyringDeleting { .. } => reply is Deleted,
            StoreOperationView::SecretDeleting { .. } => reply is Deleted,
            StoreOperationView::FileLocking { .. } => reply is Done,
            StoreOperationView::FileReading { .. } => reply is FileRead,
            StoreOperationView::FileWriting { .. } => reply is Done,
        }
    }

    /// What the operation needs once its call gave back `reply` at `now`.
    pub open spec fn resume(self, reply: StoreReplyView, now: nat) -> StoreStepView {
        match (self, reply) {
            (StoreOperationView::RefreshLocking { next }, StoreReplyView::Done(result)) => match (
                result,
                next,
            ) {
                (Ok(_), LockedOperationView::Save { server_name, tokens, mode, backend }) =>
                    StoreStepView::save(server_name, tokens, mode, backend),
                (Ok(_), LockedOperationView::Delete { server_name, url, mode, backend }) =>
                    StoreStepView::delete(server_name, url, mode, backend),
                (Err(failure), LockedOperationView::Save { .. }) => StoreStepView::save_failed(
                    OAuthErrorView::plain(failure.message()),
                ),
                (Err(failure), LockedOperationView::Delete { .. }) => StoreStepView::Done(
                    StoreOutcomeView::Deleted(Err(OAuthErrorView::plain(failure.message()))),
                ),
            },
            (
                StoreOperationView::SecretsLocking { job },
                StoreReplyView::Done(result),
            ) => match result {
                Ok(_) => job.locked(),
                Err(failure) => job.failed(OAuthErrorView::plain(failure.message())),
            },
            (
                StoreOperationView::KeyringSaving { backend, server_name, tokens, after },
                StoreReplyView::Done(result),
            ) => match result {
                Ok(_) => StoreStepView::keyring_saved(server_name, tokens, after),
                Err(failure) => StoreStepView::keyring_save_failed(
                    tokens,
                    after,
                    failure.save_error(backend),
                ),
            },
            (
                StoreOperationView::KeyringLoading { backend, server_name, url, after },
                StoreReplyView::Loaded(result),
            ) => match result {
                Ok(Some(tokens)) => StoreStepView::Done(
                    StoreOutcomeView::Loaded(
                        Ok(
                            Some(
                                ResolvedOAuthTokensView {
                                    tokens: tokens.with_lifetime_left(now),
                                    store: ResolvedOAuthCredentialStore::Keyring(backend),
                                },
                            ),
                        ),
                    ),
                ),
                Ok(None) => match after {
                    AfterLoad::FallBack => StoreStepView::file(
                        FileJobView::Load { server_name, url },
                    ),
                    _ => StoreStepView::Done(StoreOutcomeView::Loaded(Ok(None))),
                },
                Err(failure) => StoreStepView::keyring_load_failed(
                    server_name,
                    url,
                    after,
                    failure.load_error(backend),
                ),
            },
            (
                StoreOperationView::KeyringDeleting { backend, server_name, url, key, mode },
                StoreReplyView::Deleted(result),
            ) => match result {
                Ok(removed) => match backend {
                    AuthKeyringBackendKind::Direct => StoreStepView::file(
                        FileJobView::Delete { key, report: DeleteReport::KeyringRemoved(removed) },
                    ),
                    AuthKeyringBackendKind::Secrets => StoreStepView::secrets(
                        SecretJobView::Delete {
                            server_name,
                            url,
                            key,
                            mode,
                            direct_removed: removed,
                        },
                    ),
                },
                Err(failure) => StoreStepView::keyring_delete_failed(
                    key,
                    mode,
                    OAuthErrorView::plain(failure.message()),
                ),
            },
            (
                StoreOperationView::SecretDeleting { key, mode, direct_removed },
                StoreReplyView::Deleted(result),
            ) => match result {
                Ok(removed) => StoreStepView::file(
                    FileJobView::Delete {
                        key,
                        report: DeleteReport::KeyringRemoved(direct_removed || removed),
                    },
                ),
                Err(failure) => StoreStepView::keyring_delete_failed(
                    key,
                    mode,
                    failure.secret_delete_error(),
                ),
            },
            (StoreOperationView::FileLocking { job }, StoreReplyView::Done(result)) => match result {
                Ok(_) => job.locked(),
                Err(failure) => StoreStepView::Done(
                    job.failed(OAuthErrorView::plain(failure.message())),
                ),
            },
            (
                StoreOperationView::FileReading { job },
                StoreReplyView::FileRead(result),
            ) => match result {
                Ok(file) => job.read(file, now),
                Err(failure) => StoreStepView::Done(job.failed(failure.error())),
            },
            (StoreOperationView::FileWriting { job }, StoreReplyView::Done(result)) => match result {
                Ok(_) => StoreStepView::Done(job.written()),
                Err(failure) => StoreStepView::Done(
                    job.failed(OAuthErrorView::plain(failure.message())),
                ),
            },
            _ => arbitrary(),
        }
    }
}

impl StoreStep {
    fn save_failed(error: OAuthError) -> (step: StoreStep)
        ensures
            step.deep_view() == StoreStepView::save_failed(error.deep_view()),
    {
        StoreStep::Done(StoreOutcome::Saved(Err(error)))
    }

    fn file(job: FileJob) -> (step: StoreStep)
        ensures
            step.deep_view() == StoreStepView::file(job.deep_view()),
    {
        StoreStep::Call(StoreCall::LockFile, StoreOperation::FileLocking { job })
    }

    fn secrets(job: SecretJob) -> (step: StoreStep)
        ensures
            step.deep_view() == StoreStepView::secrets(job.deep_view()),
    {
        StoreStep::Call(StoreCall::LockSecrets, StoreOperation::SecretsLocking { job })
    }

    fn keyring_save_failed(
        tokens: StoredOAuthTokens,
        after: AfterSave,
        error: OAuthError,
    ) -> (step: StoreStep)
        ensures
            step.deep_view() == StoreStepView::keyring_save_failed(
                tokens.deep_view(),
                after,
                error.deep_view(),
            ),
    {
        match after {
            AfterSave::CleanUpOrFallBack => StoreStep::file(
                FileJob::Save { tokens, keyring_failure: Some(error.message) },
            ),
            _ => StoreStep::save_failed(error),
        }
    }

    fn keyring_saved(server_name: String, tokens: StoredOAuthTokens, after: AfterSave) -> (step:
        StoreStep)
        ensures
            step.deep_view() == StoreStepView::keyring_saved(
                server_name@,
                tokens.deep_view(),
                after,
            ),
    {
        match after {
            AfterSave::Finish => StoreStep::Done(StoreOutcome::Saved(Ok(()))),
            _ => StoreStep::file(
                FileJob::Delete {
                    key: compute_store_key(server_name.as_str(), tokens.url.as_str()),
                    report: DeleteReport::CleanUp,
                },
            ),
        }
    }

    fn keyring_load_failed(
        server_name: String,
        url: String,
        after: AfterLoad,
        error: OAuthError,
    ) -> (step: StoreStep)
        ensures
            step.deep_view() == StoreStepView::keyring_load_failed(
                server_name@,
                url@,
                after,
                error.deep_view(),
            ),
    {
        match after {
            AfterLoad::FallBack => StoreStep::file(FileJob::Load { server_name, url }),
            AfterLoad::Finish => StoreStep::Done(StoreOutcome::Loaded(Err(error))),
            AfterLoad::Reread => StoreStep::Done(
                StoreOutcome::Loaded(
                    Err(
                        error.in_context(
                            "failed to reread OAuth tokens from resolved keyring storage".to_owned(),
                        ),
                    ),
                ),
            ),
        }
    }

    fn keyring_delete_failed(
        key: String,
        mode: OAuthCredentialsStoreMode,
        error: OAuthError,
    ) -> (step: StoreStep)
        ensures
            step.deep_view() == StoreStepView::keyring_delete_failed(key@, mode, error.deep_view()),
    {
        match mode {
            OAuthCredentialsStoreMode::File => StoreStep::file(
                FileJob::Delete { key, report: DeleteReport::KeyringRemoved(false) },
            ),
            _ => StoreStep::Done(
                StoreOutcome::Deleted(
                    Err(
                        error.in_context(
                            "failed to delete OAuth tokens from keyring".to_owned(),
                        ),
                    ),
                ),
            ),
        }
    }

    fn write_file(file: FallbackFile, job: FileJob) -> (step: StoreStep)
        ensures
            step.deep_view() == StoreStepView::write_file(file.deep_view(), job.deep_view()),
    {
        let call = if file.is_empty() {
            StoreCall::RemoveFile
        } else {
            StoreCall::WriteFile { file }
        };
        StoreStep::Call(call, StoreOperation::FileWriting { job })
    }
}

/// Writes credentials to the keyring; `after` says what follows.
fn keyring_save(
    backend: AuthKeyringBackendKind,
    server_name: String,
    tokens: StoredOAuthTokens,
    after: AfterSave,
) -> (step: StoreStep)
    ensures
        step.deep_view() == StoreStepView::keyring_save(
            backend,
            server_name@,
            tokens.deep_view(),
            after,
        ),
{
    match backend {
        AuthKeyringBackendKind::Direct => {
            let key = compute_store_key(server_name.as_str(), tokens.url.as_str());
            StoreStep::Call(
                StoreCall::SaveKeyring {
                    service: KEYRING_SERVICE.to_owned(),
                    key,
                    tokens: tokens.duplicate(),
                },
                StoreOperation::KeyringSaving { backend, server_name, tokens, after },
            )
        },
        AuthKeyringBackendKind::Secrets => StoreStep::secrets(
            SecretJob::Save { server_name, tokens, after },
        ),
    }
}

/// Writes credentials to the keyring, and to nothing else.
pub fn save_oauth_tokens_with_keyring(
    backend: AuthKeyringBackendKind,
    server_name: &str,
    tokens: &StoredOAuthTokens,
) -> (step: StoreStep)
    ensures
        step.deep_view() == StoreStepView::keyring_save(
            backend,
            server_name@,
            tokens.deep_view(),
            AfterSave::Finish,
        ),
{
    keyring_save(backend, server_name.to_owned(), tokens.duplicate(), AfterSave::Finish)
}

/// Writes credentials to the keyring, and then removes the file's entry as far as that succeeds.
///
/// A failure to remove it does not change where this client keeps its credentials, but it can
/// leave an entry that a client in `Auto` mode may find once the keyring is gone.
pub fn save_oauth_tokens_with_keyring_and_cleanup_file(
    backend: AuthKeyringBackendKind,
    server_name: &str,
    tokens: &StoredOAuthTokens,
) -> (step: StoreStep)
    ensures
        step.deep_view() == StoreStepView::keyring_save(
            backend,
            server_name@,
            tokens.deep_view(),
            AfterSave::CleanUp,
        ),
{
    keyring_save(backend, server_name.to_owned(), tokens.duplicate(), AfterSave::CleanUp)
}

/// Writes credentials to the keyring and removes the file's entry, or writes the file where the
/// keyring fails.
pub fn save_oauth_tokens_with_keyring_with_fallback_to_file(
    backend: AuthKeyringBackendKind,
    server_name: &str,
    tokens: &StoredOAuthTokens,
) -> (step: StoreStep)
    ensures
        step.deep_view() == StoreStepView::keyring_save(
            backend,
            server_name@,
            tokens.deep_view(),
            AfterSave::CleanUpOrFallBack,
        ),
{
    keyring_save(backend, server_name.to_owned(), tokens.duplicate(), AfterSave::CleanUpOrFallBack)
}

/// Writes credentials to the file.
pub fn save_oauth_tokens_to_file(tokens: &StoredOAuthTokens) -> (step: StoreStep)
    ensures
        step.deep_view() == StoreStepView::file(
            FileJobView::Save { tokens: tokens.deep_view(), keyring_failure: None },
        ),
{
    StoreStep::file(FileJob::Save { tokens: tokens.duplicate(), keyring_failure: None })
}

/// Saves credentials where `store_mode` says.
pub fn save_oauth_tokens(
    server_name: &str,
    tokens: &StoredOAuthTokens,
    store_mode: OAuthCredentialsStoreMode,
    keyring_backend_kind: AuthKeyringBackendKind,
) -> (step: StoreStep)
    ensures
        step.deep_view() == StoreStepView::save(
            server_name@,
            tokens.deep_view(),
            store_mode,
            keyring_backend_kind,
        ),
{
    match store_mode {
        OAuthCredentialsStoreMode::Auto => save_oauth_tokens_with_keyring_with_fallback_to_file(
            keyring_backend_kind,
            server_name,
            tokens,
        ),
        OAuthCredentialsStoreMode::File => save_oauth_tokens_to_file(tokens),
        OAuthCredentialsStoreMode::Keyring => save_oauth_tokens_with_keyring_and_cleanup_file(
            keyring_backend_kind,
            server_name,
            tokens,
        ),
    }
}

/// Saves credentials where `store_mode` says, while no refresh of them is under way: what a login
/// saves either lands before a refresh reads the credentials, or replaces what it wrote.
pub fn save_oauth_tokens_locked(
    server_name: &str,
    tokens: &StoredOAuthTokens,
    store_mode: OAuthCredentialsStoreMode,
    keyring_backend_kind: AuthKeyringBackendKind,
) -> (step: StoreStep)
    ensures
        step.deep_view() == StoreStepView::Call(
            StoreCallView::LockRefresh { server_name: server_name@, url: tokens.url@ },
            StoreOperationView::RefreshLocking {
                next: LockedOperationView::Save {
                    server_name: server_name@,
                    tokens: tokens.deep_view(),
                    mode: store_mode,
                    backend: keyring_backend_kind,
                },
            },
        ),
{
    StoreStep::Call(
        StoreCall::LockRefresh { server_name: server_name.to_owned(), url: tokens.url.clone() },
        StoreOperation::RefreshLocking {
            next: LockedOperation::Save {
                server_name: server_name.to_owned(),
                tokens: tokens.duplicate(),
                mode: store_mode,
                backend: keyring_backend_kind,
            },
        },
    )
}

fn keyring_load(
    backend: AuthKeyringBackendKind,
    server_name: String,
    url: String,
    after: AfterLoad,
) -> (step: StoreStep)
    ensures
        step.deep_view() == StoreStepView::keyring_load(backend, server_name@, url@, after),
{
    match backend {
        AuthKeyringBackendKind::Direct => {
            let key = compute_store_key(server_name.as_str(), url.as_str());
            StoreStep::Call(
                StoreCall::LoadKeyring { service: KEYRING_SERVICE.to_owned(), key },
                StoreOperation::KeyringLoading { backend, server_name, url, after },
            )
        },
        AuthKeyringBackendKind::Secrets => StoreStep::secrets(
            SecretJob::Load { server_name, url, after },
        ),
    }
}

/// Reads credentials from the keyring, and from nothing else.
pub fn load_oauth_tokens_from_keyring(
    backend: AuthKeyringBackendKind,
    server_name: &str,
    url: &str,
) -> (step: StoreStep)
    ensures
        step.deep_view() == StoreStepView::keyring_load(
            backend,
            server_name@,
            url@,
            AfterLoad::Finish,
        ),
{
    keyring_load(backend, server_name.to_owned(), url.to_owned(), AfterLoad::Finish)
}

/// Reads credentials from the file.
pub fn load_oauth_tokens_from_file(server_name: &str, url: &str) -> (step: StoreStep)
    ensures
        step.deep_view() == StoreStepView::file(
            FileJobView::Load { server_name: server_name@, url: url@ },
        ),
{
    StoreStep::file(FileJob::Load { server_name: server_name.to_owned(), url: url.to_owned() })
}

/// Looks for credentials where `store_mode` says, and tells where they were found.
pub fn resolve_oauth_tokens(
    server_name: &str,
    url: &str,
    store_mode: OAuthCredentialsStoreMode,
    keyring_backend_kind: AuthKeyringBackendKind,
) -> (step: StoreStep)
    ensures
        step.deep_view() == StoreStepView::resolve(
            server_name@,
            url@,
            store_mode,
            keyring_backend_kind,
        ),
{
    match store_mode {
        OAuthCredentialsStoreMode::Auto => keyring_load(
            keyring_backend_kind,
            server_name.to_owned(),
            url.to_owned(),
            AfterLoad::FallBack,
        ),
        OAuthCredentialsStoreMode::File => load_oauth_tokens_from_file(server_name, url),
        OAuthCredentialsStoreMode::Keyring => load_oauth_tokens_from_keyring(
            keyring_backend_kind,
            server_name,
            url,
        ),
    }
}

/// Reads credentials again from the store that they were found in, and from no other.
pub fn load_oauth_tokens_from_store(
    server_name: &str,
    url: &str,
    store: ResolvedOAuthCredentialStore,
) -> (step: StoreStep)
    ensures
        step.deep_view() == StoreStepView::reread(server_name@, url@, store),
{
    match store {
        ResolvedOAuthCredentialStore::File => load_oauth_tokens_from_file(server_name, url),
        ResolvedOAuthCredentialStore::Keyring(backend) => keyring_load(
            backend,
            server_name.to_owned(),
            url.to_owned(),
            AfterLoad::Reread,
        ),
    }
}

/// Writes credentials back to the store that they were found in, and to no other.
pub fn persist_oauth_tokens(
    server_name: &str,
    tokens: &StoredOAuthTokens,
    store: ResolvedOAuthCredentialStore,
) -> (step: StoreStep)
    ensures
        step.deep_view() == StoreStepView::persist(server_name@, tokens.deep_view(), store),
{
    match store {
        ResolvedOAuthCredentialStore::File => save_oauth_tokens_to_file(tokens),
        ResolvedOAuthCredentialStore::Keyring(backend) => save_oauth_tokens_with_keyring(
            backend,
            server_name,
            tokens,
        ),
    }
}

/// Deletes credentials from the keyring and from the file.
pub fn delete_oauth_tokens(
    server_name: &str,
    url: &str,
    store_mode: OAuthCredentialsStoreMode,
    keyring_backend_kind: AuthKeyringBackendKind,
) -> (step: StoreStep)
    ensures
        step.deep_view() == StoreStepView::delete(
            server_name@,
            url@,
            store_mode,
            keyring_backend_kind,
        ),
{
    let key = compute_store_key(server_name, url);
    StoreStep::Call(
        StoreCall::DeleteKeyring { service: KEYRING_SERVICE.to_owned(), key: key.clone() },
        StoreOperation::KeyringDeleting {
            backend: keyring_backend_kind,
            server_name: server_name.to_owned(),
            url: url.to_owned(),
            key,
            mode: store_mode,
        },
    )
}

/// Deletes credentials from the keyring and from the file, while no refresh of them is under way:
/// a refresh either finds them gone, or ends before they are deleted.
pub fn delete_oauth_tokens_locked(
    server_name: &str,
    url: &str,
    store_mode: OAuthCredentialsStoreMode,
    keyring_backend_kind: AuthKeyringBackendKind,
) -> (step: StoreStep)
    ensures
        step.deep_view() == StoreStepView::Call(
            StoreCallView::LockRefresh { server_name: server_name@, url: url@ },
            StoreOperationView::RefreshLocking {
                next: LockedOperationView::Delete {
                    server_name: server_name@,
                    url: url@,
                    mode: store_mode,
                    backend: keyring_backend_kind,
                },
            },
        ),
{
    StoreStep::Call(
        StoreCall::LockRefresh { server_name: server_name.to_owned(), url: url.to_owned() },
        StoreOperation::RefreshLocking {
            next: LockedOperation::Delete {
                server_name: server_name.to_owned(),
                url: url.to_owned(),
                mode: store_mode,
                backend: keyring_backend_kind,
            },
        },
    )
}

/// Deletes the file's entry under `key`.
pub fn delete_oauth_tokens_from_file(key: &str) -> (step: StoreStep)
    ensures
        step.deep_view() == StoreStepView::file(
            FileJobView::Delete { key: key@, report: DeleteReport::KeyringRemoved(false) },
        ),
{
    StoreStep::file(
        FileJob::Delete { key: key.to_owned(), report: DeleteReport::KeyringRemoved(false) },
    )
}

impl SecretJob {
    fn failed(self, error: OAuthError) -> (step: StoreStep)
        ensures
            step.deep_view() == self.deep_view().failed(error.deep_view()),
    {
        match self {
            SecretJob::Save { tokens, after, .. } => StoreStep::keyring_save_failed(
                tokens,
                after,
                error,
            ),
            SecretJob::Load { server_name, url, after } => StoreStep::keyring_load_failed(
                server_name,
                url,
                after,
                error,
            ),
            SecretJob::Delete { key, mode, .. } => StoreStep::keyring_delete_failed(
                key,
                mode,
                error,
            ),
        }
    }

    fn locked(self) -> (step: StoreStep)
        ensures
            step.deep_view() == self.deep_view().locked(),
    {
        let backend = AuthKeyringBackendKind::Secrets;
        match self {
            SecretJob::Save { server_name, tokens, after } => {
                let name = compute_secret_name(server_name.as_str(), tokens.url.as_str());
                StoreStep::Call(
                    StoreCall::SaveSecret { name, tokens: tokens.duplicate() },
                    StoreOperation::KeyringSaving { backend, server_name, tokens, after },
                )
            },
            SecretJob::Load { server_name, url, after } => {
                let name = compute_secret_name(server_name.as_str(), url.as_str());
                StoreStep::Call(
                    StoreCall::LoadSecret { name },
                    StoreOperation::KeyringLoading { backend, server_name, url, after },
                )
            },
            SecretJob::Delete { server_name, url, key, mode, direct_removed } => {
                let name = compute_secret_name(server_name.as_str(), url.as_str());
                StoreStep::Call(
                    StoreCall::DeleteSecret { name },
                    StoreOperation::SecretDeleting { key, mode, direct_removed },
                )
            },
        }
    }
}

impl FileJob {
    fn failed(self, error: OAuthError) -> (outcome: StoreOutcome)
        ensures
            outcome.deep_view() == self.deep_view().failed(error.deep_view()),
    {
        match self {
            FileJob::Load { .. } => StoreOutcome::Loaded(Err(error)),
            FileJob::Save { keyring_failure, .. } => match keyring_failure {
                Some(message) => StoreOutcome::Saved(
                    Err(
                        error.in_context(
                            joined("failed to write OAuth tokens to keyring: ", message.as_str()),
                        ),
                    ),
                ),
                None => StoreOutcome::Saved(Err(error)),
            },
            FileJob::Delete { report, .. } => match report {
                DeleteReport::CleanUp => StoreOutcome::Saved(Ok(())),
                DeleteReport::KeyringRemoved(_) => StoreOutcome::Deleted(Err(error)),
            },
        }
    }

    fn locked(self) -> (step: StoreStep)
        ensures
            step.deep_view() == self.deep_view().locked(),
    {
        StoreStep::Call(StoreCall::ReadFile, StoreOperation::FileReading { job: self })
    }

    fn load(server_name: String, url: String, file: Option<FallbackFile>, now: &Duration) -> (
    found: Option<ResolvedOAuthTokens>)
        ensures
            StoreStepView::Done(StoreOutcomeView::Loaded(Ok(found.deep_view())))
                == (FileJobView::Load { server_name: server_name@, url: url@ }).read(
                file.deep_view(),
                now@,
            ),
    {
        let file = match file {
            Some(file) => file,
            None => return None,
        };
        let key = compute_store_key(server_name.as_str(), url.as_str());
        match tokens_in_file_at(&file, key.as_str(), now) {
            Some(tokens) => Some(
                ResolvedOAuthTokens { tokens, store: ResolvedOAuthCredentialStore::File },
            ),
            None => None,
        }
    }

    fn read(self, file: Option<FallbackFile>, now: &Duration) -> (step: StoreStep)
        ensures
            step.deep_view() == self.deep_view().read(file.deep_view(), now@),
    {
        match self {
            FileJob::Load { server_name, url } => StoreStep::Done(
                StoreOutcome::Loaded(Ok(FileJob::load(server_name, url, file, now))),
            ),
            FileJob::Save { tokens, keyring_failure } => {
                let key = compute_store_key(tokens.server_name.as_str(), tokens.url.as_str());
                let updated = file_with_tokens_at(file, key, &tokens, now);
                StoreStep::write_file(updated, FileJob::Save { tokens, keyring_failure })
            },
            FileJob::Delete { key, report } => match file {
                Some(file) => {
                    let (updated, removed) = file.remove(key.as_str());
                    if removed {
                        StoreStep::write_file(updated, FileJob::Delete { key, report })
                    } else {
                        StoreStep::Done(report.finish(false))
                    }
                },
                None => StoreStep::Done(report.finish(false)),
            },
        }
    }

    fn written(self) -> (outcome: StoreOutcome)
        ensures
            outcome.deep_view() == self.deep_view().written(),
    {
        match self {
            FileJob::Load { .. } => StoreOutcome::Loaded(Ok(None)),
            FileJob::Save { .. } => StoreOutcome::Saved(Ok(())),
            FileJob::Delete { report, .. } => report.finish(true),
        }
    }
}

impl StoreOperation {
    /// Tests whether the operation waits for a reply of this kind.
    pub fn accepts(&self, reply: &StoreReply) -> (r: bool)
        ensures
            r == self.deep_view().accepts(reply.deep_view()),
    {
        match self {
            StoreOperation::RefreshLocking { .. } => matches!(reply, StoreReply::Done(_)),
            StoreOperation::SecretsLocking { .. } => matches!(reply, StoreReply::Done(_)),
            StoreOperation::KeyringSaving { .. } => matches!(reply, StoreReply::Done(_)),
            StoreOperation::KeyringLoading { .. } => matches!(reply, StoreReply::Loaded(_)),
            StoreOperation::KeyringDeleting { .. } => matches!(reply, StoreReply::Deleted(_)),
            StoreOperation::SecretDeleting { .. } => matches!(reply, StoreReply::Deleted(_)),
            StoreOperation::FileLocking { .. } => matches!(reply, StoreReply::Done(_)),
            StoreOperation::FileReading { .. } => matches!(reply, StoreReply::FileRead(_)),
            StoreOperation::FileWriting { .. } => matches!(reply, StoreReply::Done(_)),
        }
    }

    fn locked(next: LockedOperation, result: Result<(), StoreFailure>) -> (step: StoreStep)
        ensures
            step.deep_view() == (StoreOperationView::RefreshLocking {
                next: next.deep_view(),
            }).resume(StoreReply::Done(result).deep_view(), 0),
    {
        match (result, next) {
            (Ok(_), LockedOperation::Save { server_name, tokens, mode, backend }) =>
                save_oauth_tokens(server_name.as_str(), &tokens, mode, backend),
            (Ok(_), LockedOperation::Delete { server_name, url, mode, backend }) =>
                delete_oauth_tokens(server_name.as_str(), url.as_str(), mode, backend),
            (Err(failure), LockedOperation::Save { .. }) => StoreStep::save_failed(
                OAuthError::plain(failure.into_message()),
            ),
            (Err(failure), LockedOperation::Delete { .. }) => StoreStep::Done(
                StoreOutcome::Deleted(Err(OAuthError::plain(failure.into_message()))),
            ),
        }
    }

    fn keyring_loaded(
        backend: AuthKeyringBackendKind,
        server_name: String,
        url: String,
        after: AfterLoad,
        result: Result<Option<StoredOAuthTokens>, StoreFailure>,
        now: &Duration,
    ) -> (step: StoreStep)
        ensures
            step.deep_view() == (StoreOperationView::KeyringLoading {
                backend,
                server_name: server_name@,
                url: url@,
                after,
            }).resume(StoreReply::Loaded(result).deep_view(), now@),
    {
        match result {
            Ok(Some(found)) => {
                let mut tokens = found;
                refresh_expires_in_from_timestamp_at(&mut tokens, now);
                StoreStep::Done(
                    StoreOutcome::Loaded(
                        Ok(
                            Some(
                                ResolvedOAuthTokens {
                                    tokens,
                                    store: ResolvedOAuthCredentialStore::Keyring(backend),
                                },
                            ),
                        ),
                    ),
                )
            },
            Ok(None) => match after {
                AfterLoad::FallBack => StoreStep::file(FileJob::Load { server_name, url }),
                _ => StoreStep::Done(StoreOutcome::Loaded(Ok(None))),
            },
            Err(failure) => StoreStep::keyring_load_failed(
                server_name,
                url,
                after,
                failure.into_load_error(backend),
            ),
        }
    }

    fn keyring_deleted(
        backend: AuthKeyringBackendKind,
        server_name: String,
        url: String,
        key: String,
        mode: OAuthCredentialsStoreMode,
        result: Result<bool, StoreFailure>,
    ) -> (step: StoreStep)
        ensures
            step.deep_view() == (StoreOperationView::KeyringDeleting {
                backend,
                server_name: server_name@,
                url: url@,
                key: key@,
                mode,
            }).resume(StoreReply::Deleted(result).deep_view(), 0),
    {
        match result {
            Ok(removed) => match backend {
                AuthKeyringBackendKind::Direct => StoreStep::file(
                    FileJob::Delete { key, report: DeleteReport::KeyringRemoved(removed) },
                ),
                AuthKeyringBackendKind::Secrets => StoreStep::secrets(
                    SecretJob::Delete { server_name, url, key, mode, direct_removed: removed },
                ),
            },
            Err(failure) => StoreStep::keyring_delete_failed(
                key,
                mode,
                OAuthError::plain(failure.into_message()),
            ),
        }
    }

    fn secret_deleted(
        key: String,
        mode: OAuthCredentialsStoreMode,
        direct_removed: bool,
        result: Result<bool, StoreFailure>,
    ) -> (step: StoreStep)
        ensures
            step.deep_view() == (StoreOperationView::SecretDeleting {
                key: key@,
                mode,
                direct_removed,
            }).resume(StoreReply::Deleted(result).deep_view(), 0),
    {
        match result {
            Ok(removed) => StoreStep::file(
                FileJob::Delete {
                    key,
                    report: DeleteReport::KeyringRemoved(direct_removed || removed),
                },
            ),
            Err(failure) => StoreStep::keyring_delete_failed(
                key,
                mode,
                failure.into_secret_delete_error(),
            ),
        }
    }

    /// Goes on with what the call gave back at `now`.
    pub fn resume_at(self, reply: StoreReply, now: &Duration) -> (step: StoreStep)
        requires
            self.deep_view().accepts(reply.deep_view()),
        ensures
            step.deep_view() == self.deep_view().resume(reply.deep_view(), now@),
    {
        match (self, reply) {
            (StoreOperation::RefreshLocking { next }, StoreReply::Done(result)) =>
                StoreOperation::locked(next, result),
            (StoreOperation::SecretsLocking { job }, StoreReply::Done(result)) => match result {
                Ok(_) => job.locked(),
                Err(failure) => job.failed(OAuthError::plain(failure.into_message())),
            },
            (
                StoreOperation::KeyringSaving { backend, server_name, tokens, after },
                StoreReply::Done(result),
            ) => match result {
                Ok(_) => StoreStep::keyring_saved(server_name, tokens, after),
                Err(failure) => StoreStep::keyring_save_failed(
                    tokens,
                    after,
                    failure.into_save_error(backend),
                ),
            },
            (
                StoreOperation::KeyringLoading { backend, server_name, url, after },
                StoreReply::Loaded(result),
            ) => StoreOperation::keyring_loaded(backend, server_name, url, after, result, now),
            (
                StoreOperation::KeyringDeleting { backend, server_name, url, key, mode },
                StoreReply::Deleted(result),
            ) => StoreOperation::keyring_deleted(backend, server_name, url, key, mode, result),
            (
                StoreOperation::SecretDeleting { key, mode, direct_removed },
                StoreReply::Deleted(result),
            ) => StoreOperation::secret_deleted(key, mode, direct_removed, result),
            (StoreOperation::FileLocking { job }, StoreReply::Done(result)) => match result {
                Ok(_) => job.locked(),
                Err(failure) => StoreStep::Done(
                    job.failed(OAuthError::plain(failure.into_message())),
                ),
            },
            (StoreOperation::FileReading { job }, StoreReply::FileRead(result)) => match result {
                Ok(file) => job.read(file, now),
                Err(failure) => StoreStep::Done(job.failed(failure.into_error())),
            },
            (StoreOperation::FileWriting { job }, StoreReply::Done(result)) => match result {
                Ok(_) => StoreStep::Done(job.written()),
                Err(failure) => StoreStep::Done(
                    job.failed(OAuthError::plain(failure.into_message())),
                ),
            },
            _ => {
                assert(false);
                StoreStep::save_failed(OAuthError::plain(String::new()))
            },
        }
    }

    /// Goes on with what the call gave back.
    pub fn resume(self, reply: StoreReply) -> (step: StoreStep)
        requires
            self.deep_view().accepts(reply.deep_view()),
        ensures
            exists|now: nat|
                now < crate::duration::duration_limit() && step.deep_view()
                    == #[trigger] self.deep_view().resume(reply.deep_view(), now),
            !(self is KeyringLoading) && !(self is FileReading) ==> step.deep_view()
                == self.deep_view().resume(reply.deep_view(), 0),
    {
        let now = time_of(unix_time());
        self.resume_at(reply, &now)
    }
}

} // verus!
