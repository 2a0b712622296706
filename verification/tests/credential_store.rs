//! Saving, finding and deleting credentials, with stores that are kept in memory.

use std::collections::BTreeMap;

use agent_turns::duration::Duration;
use agent_turns::oauth::error::OAuthError;
use agent_turns::oauth::fallback_file::FallbackFile;
use agent_turns::oauth::keys::{compute_secret_name, compute_store_key, KEYRING_SERVICE};
use agent_turns::oauth::store::{
    delete_oauth_tokens, delete_oauth_tokens_from_file, delete_oauth_tokens_locked,
    load_oauth_tokens_from_file, load_oauth_tokens_from_keyring, load_oauth_tokens_from_store,
    persist_oauth_tokens, resolve_oauth_tokens, save_oauth_tokens, save_oauth_tokens_locked,
    save_oauth_tokens_to_file, save_oauth_tokens_with_keyring,
    save_oauth_tokens_with_keyring_and_cleanup_file,
    save_oauth_tokens_with_keyring_with_fallback_to_file, AuthKeyringBackendKind, FileFailure,
    OAuthCredentialsStoreMode, ResolvedOAuthCredentialStore, ResolvedOAuthTokens, StoreCall,
    StoreFailure, StoreOutcome, StoreReply, StoreStep,
};
use agent_turns::oauth::tokens::{
    compute_expires_at_millis, OAuthTokenResponse, StoredOAuthTokens, TokenType,
    WrappedOAuthTokenResponse,
};

#[derive(Clone, Copy, Debug, PartialEq)]
enum Trouble {
    Unavailable,
    Failed,
    Malformed,
}

impl Trouble {
    fn failure(self) -> StoreFailure {
        match self {
            Trouble::Unavailable => StoreFailure::Unavailable("unavailable".to_string()),
            Trouble::Failed => StoreFailure::Failed("broken".to_string()),
            Trouble::Malformed => StoreFailure::Malformed("not readable".to_string()),
        }
    }
}

#[derive(Default)]
struct Stores {
    keyring: BTreeMap<(String, String), StoredOAuthTokens>,
    secrets: BTreeMap<String, StoredOAuthTokens>,
    file: Option<FallbackFile>,
    refresh_lock_trouble: Option<Trouble>,
    keyring_trouble: Option<Trouble>,
    secrets_lock_trouble: Option<Trouble>,
    secrets_trouble: Option<Trouble>,
    file_lock_trouble: Option<Trouble>,
    file_read_trouble: Option<Trouble>,
    file_write_trouble: Option<Trouble>,
    calls: Vec<&'static str>,
}

fn guarded<T>(trouble: Option<Trouble>, value: T) -> Result<T, StoreFailure> {
    match trouble {
        Some(trouble) => Err(trouble.failure()),
        None => Ok(value),
    }
}

impl Stores {
    fn answer(&mut self, call: StoreCall) -> StoreReply {
        match call {
            StoreCall::LockRefresh { .. } => {
                self.calls.push("lock refresh");
                StoreReply::Done(guarded(self.refresh_lock_trouble, ()))
            }
            StoreCall::LoadKeyring { service, key } => {
                self.calls.push("load keyring");
                let found = self.keyring.get(&(service, key)).cloned();
                StoreReply::Loaded(guarded(self.keyring_trouble, found))
            }
            StoreCall::SaveKeyring {
                service,
                key,
                tokens,
            } => {
                self.calls.push("save keyring");
                if self.keyring_trouble.is_none() {
                    self.keyring.insert((service, key), tokens);
                }
                StoreReply::Done(guarded(self.keyring_trouble, ()))
            }
            StoreCall::DeleteKeyring { service, key } => {
                self.calls.push("delete keyring");
                let removed = self.keyring_trouble.is_none()
                    && self.keyring.remove(&(service, key)).is_some();
                StoreReply::Deleted(guarded(self.keyring_trouble, removed))
            }
            StoreCall::LockSecrets => {
                self.calls.push("lock secrets");
                StoreReply::Done(guarded(self.secrets_lock_trouble, ()))
            }
            StoreCall::LoadSecret { name } => {
                self.calls.push("load secret");
                let found = self.secrets.get(name.as_str()).cloned();
                StoreReply::Loaded(guarded(self.secrets_trouble, found))
            }
            StoreCall::SaveSecret { name, tokens } => {
                self.calls.push("save secret");
                if self.secrets_trouble.is_none() {
                    self.secrets.insert(name.as_str().to_string(), tokens);
                }
                StoreReply::Done(guarded(self.secrets_trouble, ()))
            }
            StoreCall::DeleteSecret { name } => {
                self.calls.push("delete secret");
                let removed = self.secrets_trouble.is_none()
                    && self.secrets.remove(name.as_str()).is_some();
                StoreReply::Deleted(guarded(self.secrets_trouble, removed))
            }
            StoreCall::LockFile => {
                self.calls.push("lock file");
                StoreReply::Done(guarded(self.file_lock_trouble, ()))
            }
            StoreCall::ReadFile => {
                self.calls.push("read file");
                let path = "/home/.credentials.json".to_string();
                StoreReply::FileRead(match self.file_read_trouble {
                    None => Ok(self.file.clone()),
                    Some(Trouble::Unavailable) => {
                        Err(FileFailure::NotLocated("no home".to_string()))
                    }
                    Some(Trouble::Failed) => Err(FileFailure::Unreadable {
                        path,
                        message: "denied".to_string(),
                    }),
                    Some(Trouble::Malformed) => Err(FileFailure::Malformed {
                        path,
                        message: "no JSON".to_string(),
                    }),
                })
            }
            StoreCall::WriteFile { file } => {
                self.calls.push("write file");
                assert!(!file.is_empty());
                if self.file_write_trouble.is_none() {
                    self.file = Some(file);
                }
                StoreReply::Done(guarded(self.file_write_trouble, ()))
            }
            StoreCall::RemoveFile => {
                self.calls.push("remove file");
                if self.file_write_trouble.is_none() {
                    self.file = None;
                }
                StoreReply::Done(guarded(self.file_write_trouble, ()))
            }
        }
    }

    fn run(&mut self, step: StoreStep) -> StoreOutcome {
        let mut step = step;
        loop {
            match step {
                StoreStep::Call(call, operation) => {
                    let reply = self.answer(call);
                    assert!(operation.accepts(&reply));
                    step = operation.resume(reply);
                }
                StoreStep::Done(outcome) => return outcome,
            }
        }
    }

    fn save(&mut self, step: StoreStep) -> Result<(), OAuthError> {
        match self.run(step) {
            StoreOutcome::Saved(result) => result,
            outcome => panic!("unexpected outcome {outcome:?}"),
        }
    }

    fn load(&mut self, step: StoreStep) -> Result<Option<ResolvedOAuthTokens>, OAuthError> {
        match self.run(step) {
            StoreOutcome::Loaded(result) => result,
            outcome => panic!("unexpected outcome {outcome:?}"),
        }
    }

    fn delete(&mut self, step: StoreStep) -> Result<bool, OAuthError> {
        match self.run(step) {
            StoreOutcome::Deleted(result) => result,
            outcome => panic!("unexpected outcome {outcome:?}"),
        }
    }

    fn put_in_keyring(&mut self, tokens: &StoredOAuthTokens) {
        let key = store_key(tokens);
        self.keyring
            .insert((KEYRING_SERVICE.to_string(), key), tokens.clone());
    }

    fn in_keyring(&self, tokens: &StoredOAuthTokens) -> Option<&StoredOAuthTokens> {
        self.keyring
            .get(&(KEYRING_SERVICE.to_string(), store_key(tokens)))
    }

    fn in_secrets(&self, tokens: &StoredOAuthTokens) -> Option<&StoredOAuthTokens> {
        let name = compute_secret_name(&tokens.server_name, &tokens.url);
        self.secrets.get(name.as_str())
    }
}

fn store_key(tokens: &StoredOAuthTokens) -> String {
    compute_store_key(&tokens.server_name, &tokens.url)
}

fn sample_tokens() -> StoredOAuthTokens {
    let response = OAuthTokenResponse {
        access_token: "access-token".to_string(),
        token_type: TokenType::Bearer,
        expires_in: Some(3600),
        refresh_token: Some("refresh-token".to_string()),
        scopes: Some(vec!["scope-a".to_string(), "scope-b".to_string()]),
        extra_fields: Vec::new(),
    };
    let expires_at = compute_expires_at_millis(&response);
    StoredOAuthTokens {
        server_name: "test-server".to_string(),
        url: "https://example.test".to_string(),
        client_id: "client-id".to_string(),
        token_response: WrappedOAuthTokenResponse(response),
        expires_at,
    }
}

fn second_tokens() -> StoredOAuthTokens {
    let mut second = sample_tokens();
    second.server_name = "second-server".to_string();
    second.url = "https://second.example.test".to_string();
    second
}

fn assert_tokens_match_without_expiry(actual: &StoredOAuthTokens, expected: &StoredOAuthTokens) {
    assert_eq!(actual.server_name, expected.server_name);
    assert_eq!(actual.url, expected.url);
    assert_eq!(actual.client_id, expected.client_id);
    assert_eq!(actual.expires_at, expected.expires_at);
    let actual_response = &actual.token_response.0;
    let expected_response = &expected.token_response.0;
    assert_eq!(actual_response.access_token, expected_response.access_token);
    assert_eq!(actual_response.token_type, expected_response.token_type);
    assert_eq!(actual_response.refresh_token, expected_response.refresh_token);
    assert_eq!(actual_response.scopes, expected_response.scopes);
    assert_eq!(actual_response.extra_fields, expected_response.extra_fields);
    assert_eq!(
        actual_response.expires_in.is_some(),
        expected_response.expires_in.is_some()
    );
}

#[test]
fn load_oauth_tokens_reads_from_keyring_when_available() {
    let mut stores = Stores::default();
    let tokens = sample_tokens();
    stores.put_in_keyring(&tokens);

    let loaded = stores
        .load(load_oauth_tokens_from_keyring(
            AuthKeyringBackendKind::Direct,
            &tokens.server_name,
            &tokens.url,
        ))
        .expect("keyring should answer")
        .expect("tokens should load from keyring");
    assert_tokens_match_without_expiry(&loaded.tokens, &tokens);
}

#[test]
fn load_oauth_tokens_falls_back_when_missing_in_keyring() {
    let mut stores = Stores::default();
    let tokens = sample_tokens();
    stores
        .save(save_oauth_tokens_to_file(&tokens))
        .expect("file should be written");

    let resolved = stores
        .load(resolve_oauth_tokens(
            &tokens.server_name,
            &tokens.url,
            OAuthCredentialsStoreMode::Auto,
            AuthKeyringBackendKind::Direct,
        ))
        .expect("file should be read")
        .expect("tokens should load from fallback");
    assert_eq!(resolved.store, ResolvedOAuthCredentialStore::File);
    assert_tokens_match_without_expiry(&resolved.tokens, &tokens);
}

#[test]
fn load_oauth_tokens_falls_back_when_keyring_errors() {
    let mut stores = Stores {
        keyring_trouble: Some(Trouble::Failed),
        ..Stores::default()
    };
    let tokens = sample_tokens();
    stores
        .save(save_oauth_tokens_to_file(&tokens))
        .expect("file should be written");

    let resolved = stores
        .load(resolve_oauth_tokens(
            &tokens.server_name,
            &tokens.url,
            OAuthCredentialsStoreMode::Auto,
            AuthKeyringBackendKind::Direct,
        ))
        .expect("file should be read")
        .expect("tokens should load from fallback");
    assert_eq!(resolved.store, ResolvedOAuthCredentialStore::File);
    assert_tokens_match_without_expiry(&resolved.tokens, &tokens);
}

#[test]
fn auto_resolution_prioritizes_keyring_and_tracks_its_source() {
    let mut stores = Stores::default();
    let keyring_tokens = sample_tokens();
    let mut file_tokens = sample_tokens();
    file_tokens.token_response.0.access_token = "file-access-token".to_string();
    stores
        .save(save_oauth_tokens_to_file(&file_tokens))
        .expect("file should be written");
    stores
        .save(save_oauth_tokens_with_keyring(
            AuthKeyringBackendKind::Direct,
            &keyring_tokens.server_name,
            &keyring_tokens,
        ))
        .expect("keyring should be written");

    let resolved = stores
        .load(resolve_oauth_tokens(
            &keyring_tokens.server_name,
            &keyring_tokens.url,
            OAuthCredentialsStoreMode::Auto,
            AuthKeyringBackendKind::Direct,
        ))
        .expect("keyring should be read")
        .expect("Auto should load keyring credentials");

    assert_eq!(
        resolved.store,
        ResolvedOAuthCredentialStore::Keyring(AuthKeyringBackendKind::Direct)
    );
    assert_tokens_match_without_expiry(&resolved.tokens, &keyring_tokens);
}

#[test]
fn save_oauth_tokens_prefers_keyring_when_available() {
    let mut stores = Stores::default();
    let tokens = sample_tokens();
    stores
        .save(save_oauth_tokens_to_file(&tokens))
        .expect("file should be written");

    stores
        .save(save_oauth_tokens_with_keyring_with_fallback_to_file(
            AuthKeyringBackendKind::Direct,
            &tokens.server_name,
            &tokens,
        ))
        .expect("keyring should be written");

    assert!(stores.file.is_none(), "fallback file should be removed");
    assert_eq!(stores.in_keyring(&tokens), Some(&tokens));
}

#[test]
fn save_oauth_tokens_writes_fallback_when_keyring_fails() {
    let mut stores = Stores {
        keyring_trouble: Some(Trouble::Failed),
        ..Stores::default()
    };
    let tokens = sample_tokens();

    stores
        .save(save_oauth_tokens_with_keyring_with_fallback_to_file(
            AuthKeyringBackendKind::Direct,
            &tokens.server_name,
            &tokens,
        ))
        .expect("file should be written");

    let saved = stores.file.as_ref().expect("fallback file should be created");
    let key = store_key(&tokens);
    let entry = saved.get(&key).expect("entry for key");
    assert_eq!(entry.server_name, tokens.server_name);
    assert_eq!(entry.server_url, tokens.url);
    assert_eq!(entry.client_id, tokens.client_id);
    assert_eq!(entry.access_token, tokens.token_response.0.access_token);
    assert!(stores.in_keyring(&tokens).is_none());
}

#[test]
fn file_store_lock_preserves_updates_for_different_servers() {
    let mut stores = Stores::default();
    let first = sample_tokens();
    let second = second_tokens();

    // While the first writer holds the lock, the second one has only asked for it.
    let waiting = save_oauth_tokens_to_file(&second);
    assert!(matches!(waiting, StoreStep::Call(StoreCall::LockFile, _)));
    stores
        .save(save_oauth_tokens_to_file(&first))
        .expect("first writer should finish");
    stores.save(waiting).expect("second writer should finish");

    for tokens in [&first, &second] {
        let loaded = stores
            .load(load_oauth_tokens_from_file(&tokens.server_name, &tokens.url))
            .expect("file should be read")
            .expect("tokens should be stored");
        assert_tokens_match_without_expiry(&loaded.tokens, tokens);
    }
}

#[test]
fn save_oauth_tokens_with_secrets_backend_writes_encrypted_storage() {
    let mut stores = Stores::default();
    let tokens = sample_tokens();
    stores.put_in_keyring(&tokens);
    stores
        .save(save_oauth_tokens_to_file(&tokens))
        .expect("file should be written");

    stores
        .save(save_oauth_tokens_with_keyring_with_fallback_to_file(
            AuthKeyringBackendKind::Secrets,
            &tokens.server_name,
            &tokens,
        ))
        .expect("encrypted storage should be written");

    assert_eq!(stores.in_secrets(&tokens), Some(&tokens));
    assert_eq!(stores.in_keyring(&tokens), Some(&tokens));
    assert!(stores.file.is_none());
}

#[test]
fn load_oauth_tokens_with_secrets_backend_reads_encrypted_storage() {
    let mut stores = Stores::default();
    let tokens = sample_tokens();

    stores
        .save(save_oauth_tokens_with_keyring(
            AuthKeyringBackendKind::Secrets,
            &tokens.server_name,
            &tokens,
        ))
        .expect("encrypted storage should be written");

    let loaded = stores
        .load(load_oauth_tokens_from_keyring(
            AuthKeyringBackendKind::Secrets,
            &tokens.server_name,
            &tokens.url,
        ))
        .expect("encrypted storage should be read")
        .expect("tokens should load from encrypted storage");
    assert_tokens_match_without_expiry(&loaded.tokens, &tokens);
}

#[test]
fn secrets_store_lock_preserves_updates_for_different_servers() {
    let mut stores = Stores::default();
    let first = sample_tokens();
    let second = second_tokens();

    // While the first writer holds the lock, the second one has only asked for it.
    let waiting = save_oauth_tokens_with_keyring(
        AuthKeyringBackendKind::Secrets,
        &second.server_name,
        &second,
    );
    assert!(matches!(waiting, StoreStep::Call(StoreCall::LockSecrets, _)));
    stores
        .save(save_oauth_tokens_with_keyring(
            AuthKeyringBackendKind::Secrets,
            &first.server_name,
            &first,
        ))
        .expect("first writer should finish");
    stores.save(waiting).expect("second writer should finish");

    for tokens in [&first, &second] {
        let loaded = stores
            .load(load_oauth_tokens_from_keyring(
                AuthKeyringBackendKind::Secrets,
                &tokens.server_name,
                &tokens.url,
            ))
            .expect("encrypted storage should be read")
            .expect("tokens should be stored");
        assert_tokens_match_without_expiry(&loaded.tokens, tokens);
    }
}

#[test]
fn load_oauth_tokens_with_secrets_backend_ignores_direct_entry() {
    let mut stores = Stores::default();
    let tokens = sample_tokens();
    stores.put_in_keyring(&tokens);

    let loaded = stores
        .load(load_oauth_tokens_from_keyring(
            AuthKeyringBackendKind::Secrets,
            &tokens.server_name,
            &tokens.url,
        ))
        .expect("encrypted storage should be read");

    assert!(loaded.is_none());
}

#[test]
fn save_oauth_tokens_with_secrets_backend_falls_back_to_file_when_keyring_fails() {
    let mut stores = Stores {
        secrets_trouble: Some(Trouble::Failed),
        ..Stores::default()
    };
    let tokens = sample_tokens();

    stores
        .save(save_oauth_tokens_with_keyring_with_fallback_to_file(
            AuthKeyringBackendKind::Secrets,
            &tokens.server_name,
            &tokens,
        ))
        .expect("file should be written");

    let saved = stores.file.as_ref().expect("fallback file should load");
    assert!(saved.get(&store_key(&tokens)).is_some());
}

#[test]
fn delete_oauth_tokens_with_secrets_backend_removes_secrets_and_file() {
    let mut stores = Stores::default();
    let tokens = sample_tokens();
    stores
        .save(save_oauth_tokens_with_keyring(
            AuthKeyringBackendKind::Secrets,
            &tokens.server_name,
            &tokens,
        ))
        .expect("encrypted storage should be written");
    stores.put_in_keyring(&tokens);
    stores
        .save(save_oauth_tokens_to_file(&tokens))
        .expect("file should be written");

    let removed = stores
        .delete(delete_oauth_tokens(
            &tokens.server_name,
            &tokens.url,
            OAuthCredentialsStoreMode::Auto,
            AuthKeyringBackendKind::Secrets,
        ))
        .expect("tokens should be deleted");

    assert!(removed);
    assert!(stores.in_secrets(&tokens).is_none());
    assert!(stores.in_keyring(&tokens).is_none());
    assert!(stores.file.is_none());
}

#[test]
fn delete_oauth_tokens_removes_all_storage() {
    let mut stores = Stores::default();
    let tokens = sample_tokens();
    stores.put_in_keyring(&tokens);
    stores
        .save(save_oauth_tokens_to_file(&tokens))
        .expect("file should be written");

    let removed = stores
        .delete(delete_oauth_tokens(
            &tokens.server_name,
            &tokens.url,
            OAuthCredentialsStoreMode::Auto,
            AuthKeyringBackendKind::Direct,
        ))
        .expect("tokens should be deleted");
    assert!(removed);
    assert!(stores.in_keyring(&tokens).is_none());
    assert!(stores.file.is_none());
}

#[test]
fn delete_oauth_tokens_file_mode_removes_keyring_only_entry() {
    let mut stores = Stores::default();
    let tokens = sample_tokens();
    stores.put_in_keyring(&tokens);
    assert!(stores.in_keyring(&tokens).is_some());

    let removed = stores
        .delete(delete_oauth_tokens(
            &tokens.server_name,
            &tokens.url,
            OAuthCredentialsStoreMode::Auto,
            AuthKeyringBackendKind::Direct,
        ))
        .expect("tokens should be deleted");
    assert!(removed);
    assert!(stores.in_keyring(&tokens).is_none());
    assert!(stores.file.is_none());
}

#[test]
fn delete_oauth_tokens_propagates_keyring_errors() {
    let mut stores = Stores {
        keyring_trouble: Some(Trouble::Failed),
        ..Stores::default()
    };
    let tokens = sample_tokens();
    stores
        .save(save_oauth_tokens_to_file(&tokens))
        .expect("file should be written");

    let result = stores.delete(delete_oauth_tokens(
        &tokens.server_name,
        &tokens.url,
        OAuthCredentialsStoreMode::Auto,
        AuthKeyringBackendKind::Direct,
    ));
    assert!(result.is_err());
    assert!(stores.file.is_some());
}

#[test]
fn a_keyring_failure_in_file_mode_does_not_stop_a_delete() {
    let mut stores = Stores {
        keyring_trouble: Some(Trouble::Failed),
        ..Stores::default()
    };
    let tokens = sample_tokens();
    stores
        .save(save_oauth_tokens_to_file(&tokens))
        .expect("file should be written");

    let removed = stores.delete(delete_oauth_tokens(
        &tokens.server_name,
        &tokens.url,
        OAuthCredentialsStoreMode::File,
        AuthKeyringBackendKind::Direct,
    ));
    assert_eq!(removed, Ok(true));
    assert!(stores.file.is_none());
    let again = stores.delete(delete_oauth_tokens(
        &tokens.server_name,
        &tokens.url,
        OAuthCredentialsStoreMode::File,
        AuthKeyringBackendKind::Direct,
    ));
    assert_eq!(again, Ok(false));
}

#[test]
fn each_mode_saves_where_it_says() {
    let tokens = sample_tokens();

    let mut stores = Stores::default();
    let step = save_oauth_tokens(
        "test-server",
        &tokens,
        OAuthCredentialsStoreMode::File,
        AuthKeyringBackendKind::Direct,
    );
    assert_eq!(stores.save(step), Ok(()));
    assert_eq!(stores.calls, ["lock file", "read file", "write file"]);

    let mut stores = Stores::default();
    let step = save_oauth_tokens(
        "test-server",
        &tokens,
        OAuthCredentialsStoreMode::Keyring,
        AuthKeyringBackendKind::Secrets,
    );
    assert_eq!(stores.save(step), Ok(()));
    assert_eq!(stores.calls, ["lock secrets", "save secret", "lock file", "read file"]);

    let mut stores = Stores::default();
    let step = save_oauth_tokens(
        "test-server",
        &tokens,
        OAuthCredentialsStoreMode::Auto,
        AuthKeyringBackendKind::Direct,
    );
    assert_eq!(stores.save(step), Ok(()));
    assert_eq!(stores.calls, ["save keyring", "lock file", "read file"]);
}

#[test]
fn login_and_logout_take_the_lock_first() {
    let tokens = sample_tokens();
    let mut stores = Stores::default();
    let step = save_oauth_tokens_locked(
        "test-server",
        &tokens,
        OAuthCredentialsStoreMode::File,
        AuthKeyringBackendKind::Direct,
    );
    assert_eq!(
        stores.save(step),
        Ok(())
    );
    assert_eq!(
        stores.calls,
        ["lock refresh", "lock file", "read file", "write file"]
    );
    stores.calls.clear();
    let step = delete_oauth_tokens_locked(
        "test-server",
        "https://example.test",
        OAuthCredentialsStoreMode::File,
        AuthKeyringBackendKind::Direct,
    );
    assert_eq!(stores.delete(step), Ok(true));
    assert_eq!(
        stores.calls,
        [
            "lock refresh",
            "delete keyring",
            "lock file",
            "read file",
            "remove file"
        ]
    );

    stores.refresh_lock_trouble = Some(Trouble::Unavailable);
    let step = save_oauth_tokens_locked(
        "test-server",
        &tokens,
        OAuthCredentialsStoreMode::File,
        AuthKeyringBackendKind::Direct,
    );
    assert_eq!(
        stores.save(step),
        Err(OAuthError::plain("unavailable".to_string()))
    );
    let step = delete_oauth_tokens_locked(
        "test-server",
        "https://example.test",
        OAuthCredentialsStoreMode::File,
        AuthKeyringBackendKind::Direct,
    );
    assert_eq!(
        stores.delete(step),
        Err(OAuthError::plain("unavailable".to_string()))
    );
}

#[test]
fn a_cleanup_that_fails_does_not_fail_the_save() {
    let tokens = sample_tokens();
    let mut stores = Stores::default();
    stores
        .save(save_oauth_tokens_to_file(&tokens))
        .expect("file should be written");
    for trouble in [Trouble::Unavailable, Trouble::Failed, Trouble::Malformed] {
        stores.file_read_trouble = Some(trouble);
        let step = save_oauth_tokens_with_keyring_and_cleanup_file(
            AuthKeyringBackendKind::Direct,
            "test-server",
            &tokens,
        );
        assert_eq!(stores.save(step), Ok(()));
        assert!(stores.file.is_some());
    }
    stores.file_read_trouble = None;
    stores.file_write_trouble = Some(Trouble::Failed);
    let step = save_oauth_tokens_with_keyring_and_cleanup_file(
        AuthKeyringBackendKind::Direct,
        "test-server",
        &tokens,
    );
    assert_eq!(stores.save(step), Ok(()));
    assert!(stores.in_keyring(&tokens).is_some());
}

fn caused(message: &str, cause: &str) -> OAuthError {
    OAuthError::caused(message.to_string(), cause.to_string())
}

#[test]
fn failures_to_save_are_reported() {
    let tokens = sample_tokens();
    let save = |keyring, secrets, backend| {
        let mut stores = Stores {
            keyring_trouble: keyring,
            secrets_trouble: secrets,
            ..Stores::default()
        };
        stores
            .save(save_oauth_tokens_with_keyring(backend, "test-server", &tokens))
            .expect_err("the save should fail")
    };
    let direct = AuthKeyringBackendKind::Direct;
    let secrets = AuthKeyringBackendKind::Secrets;
    assert_eq!(
        save(Some(Trouble::Failed), None, direct),
        caused("failed to write OAuth tokens to keyring: broken", "broken")
    );
    assert_eq!(
        save(Some(Trouble::Malformed), None, direct),
        caused("failed to serialize OAuth tokens", "not readable")
    );
    assert_eq!(
        save(None, Some(Trouble::Failed), secrets),
        caused("failed to write OAuth tokens to encrypted storage", "broken")
    );
    assert_eq!(
        save(None, Some(Trouble::Unavailable), secrets),
        OAuthError::plain("unavailable".to_string())
    );
    assert_eq!(
        save(None, Some(Trouble::Malformed), secrets),
        caused("failed to serialize OAuth tokens", "not readable")
    );
}

#[test]
fn failures_to_load_are_reported() {
    let load = |keyring, secrets, backend| {
        let mut stores = Stores {
            keyring_trouble: keyring,
            secrets_trouble: secrets,
            ..Stores::default()
        };
        stores
            .load(load_oauth_tokens_from_keyring(
                backend,
                "test-server",
                "https://example.test",
            ))
            .expect_err("the load should fail")
    };
    let direct = AuthKeyringBackendKind::Direct;
    let secrets = AuthKeyringBackendKind::Secrets;
    assert_eq!(
        load(Some(Trouble::Failed), None, direct),
        OAuthError::plain("broken".to_string())
    );
    assert_eq!(
        load(Some(Trouble::Malformed), None, direct),
        caused(
            "failed to deserialize OAuth tokens from keyring",
            "not readable"
        )
    );
    assert_eq!(
        load(None, Some(Trouble::Failed), secrets),
        caused(
            "failed to load MCP OAuth tokens from encrypted storage",
            "broken"
        )
    );
    assert_eq!(
        load(None, Some(Trouble::Malformed), secrets),
        caused(
            "failed to deserialize OAuth tokens from encrypted storage",
            "not readable"
        )
    );
    assert_eq!(
        load(None, Some(Trouble::Unavailable), secrets),
        OAuthError::plain("unavailable".to_string())
    );
}

#[test]
fn failures_of_the_file_are_reported() {
    let load = |trouble| {
        let mut stores = Stores {
            file_read_trouble: Some(trouble),
            ..Stores::default()
        };
        stores
            .load(load_oauth_tokens_from_file(
                "test-server",
                "https://example.test",
            ))
            .expect_err("the load should fail")
    };
    assert_eq!(
        load(Trouble::Unavailable),
        OAuthError::plain("no home".to_string())
    );
    assert_eq!(
        load(Trouble::Failed),
        caused(
            "failed to read credentials file at /home/.credentials.json",
            "denied"
        )
    );
    assert_eq!(
        load(Trouble::Malformed),
        caused(
            "failed to parse credentials file at /home/.credentials.json",
            "no JSON"
        )
    );

    let mut stores = Stores {
        file_lock_trouble: Some(Trouble::Unavailable),
        ..Stores::default()
    };
    assert_eq!(
        stores.save(save_oauth_tokens_to_file(&sample_tokens())),
        Err(OAuthError::plain("unavailable".to_string()))
    );
    assert_eq!(
        stores.delete(delete_oauth_tokens_from_file("key")),
        Err(OAuthError::plain("unavailable".to_string()))
    );
}

#[test]
fn a_failed_fallback_names_both_failures() {
    let tokens = sample_tokens();
    let mut stores = Stores {
        keyring_trouble: Some(Trouble::Failed),
        file_read_trouble: Some(Trouble::Malformed),
        ..Stores::default()
    };
    let error = stores
        .save(save_oauth_tokens(
            "test-server",
            &tokens,
            OAuthCredentialsStoreMode::Auto,
            AuthKeyringBackendKind::Direct,
        ))
        .expect_err("both stores fail");
    assert_eq!(
        error,
        OAuthError {
            message: "failed to write OAuth tokens to keyring: \
                      failed to write OAuth tokens to keyring: broken"
                .to_string(),
            causes: vec![
                "failed to parse credentials file at /home/.credentials.json".to_string(),
                "no JSON".to_string(),
            ],
        }
    );
}

#[test]
fn a_delete_that_fails_in_the_keyring_is_reported() {
    let mut stores = Stores {
        secrets_trouble: Some(Trouble::Failed),
        ..Stores::default()
    };
    let error = stores
        .delete(delete_oauth_tokens(
            "test-server",
            "https://example.test",
            OAuthCredentialsStoreMode::Keyring,
            AuthKeyringBackendKind::Secrets,
        ))
        .expect_err("encrypted storage fails");
    assert_eq!(
        error,
        OAuthError {
            message: "failed to delete OAuth tokens from keyring".to_string(),
            causes: vec![
                "failed to delete OAuth tokens from encrypted storage".to_string(),
                "broken".to_string(),
            ],
        }
    );
    assert_eq!(stores.calls, ["delete keyring", "lock secrets", "delete secret"]);
}

#[test]
fn an_encrypted_store_that_cannot_be_locked_is_not_touched() {
    let tokens = sample_tokens();
    let secrets = AuthKeyringBackendKind::Secrets;
    let locked = || Stores {
        secrets_lock_trouble: Some(Trouble::Unavailable),
        ..Stores::default()
    };
    let unavailable = OAuthError::plain("unavailable".to_string());

    let mut stores = locked();
    assert_eq!(
        stores.save(save_oauth_tokens_with_keyring(secrets, "test-server", &tokens)),
        Err(unavailable.clone())
    );
    assert_eq!(stores.calls, ["lock secrets"]);

    let mut stores = locked();
    assert_eq!(
        stores.save(save_oauth_tokens(
            "test-server",
            &tokens,
            OAuthCredentialsStoreMode::Auto,
            secrets,
        )),
        Ok(())
    );
    assert_eq!(
        stores.calls,
        ["lock secrets", "lock file", "read file", "write file"]
    );

    let mut stores = locked();
    assert_eq!(
        stores.load(load_oauth_tokens_from_keyring(
            secrets,
            "test-server",
            "https://example.test",
        )),
        Err(unavailable)
    );
    assert_eq!(stores.calls, ["lock secrets"]);

    let mut stores = locked();
    assert_eq!(
        stores.delete(delete_oauth_tokens(
            "test-server",
            "https://example.test",
            OAuthCredentialsStoreMode::Keyring,
            secrets,
        )),
        Err(caused("failed to delete OAuth tokens from keyring", "unavailable"))
    );
    assert_eq!(stores.calls, ["delete keyring", "lock secrets"]);

    let mut stores = locked();
    assert_eq!(
        stores.delete(delete_oauth_tokens(
            "test-server",
            "https://example.test",
            OAuthCredentialsStoreMode::File,
            secrets,
        )),
        Ok(false)
    );
    assert_eq!(
        stores.calls,
        ["delete keyring", "lock secrets", "lock file", "read file"]
    );
}

#[test]
fn keyring_mode_does_not_look_into_the_file() {
    let tokens = sample_tokens();
    let mut stores = Stores::default();
    stores
        .save(save_oauth_tokens_to_file(&tokens))
        .expect("file should be written");
    stores.calls.clear();
    let found = stores.load(resolve_oauth_tokens(
        "test-server",
        "https://example.test",
        OAuthCredentialsStoreMode::Keyring,
        AuthKeyringBackendKind::Direct,
    ));
    assert_eq!(found, Ok(None));
    assert_eq!(stores.calls, ["load keyring"]);
}

#[test]
fn rereading_and_persisting_stay_on_their_store() {
    let tokens = sample_tokens();
    let keyring = ResolvedOAuthCredentialStore::Keyring(AuthKeyringBackendKind::Direct);

    let mut stores = Stores::default();
    stores
        .save(save_oauth_tokens_to_file(&tokens))
        .expect("file should be written");
    stores.calls.clear();
    let found = stores.load(load_oauth_tokens_from_store(
        "test-server",
        "https://example.test",
        keyring,
    ));
    assert_eq!(found, Ok(None));
    assert_eq!(stores.calls, ["load keyring"]);

    stores.calls.clear();
    assert_eq!(
        stores.save(persist_oauth_tokens("test-server", &tokens, keyring)),
        Ok(())
    );
    assert_eq!(stores.calls, ["save keyring"]);
    assert!(stores.file.is_some());

    stores.calls.clear();
    assert_eq!(
        stores.save(persist_oauth_tokens(
            "test-server",
            &tokens,
            ResolvedOAuthCredentialStore::File
        )),
        Ok(())
    );
    assert_eq!(stores.calls, ["lock file", "read file", "write file"]);

    stores.keyring_trouble = Some(Trouble::Malformed);
    let error = stores
        .load(load_oauth_tokens_from_store(
            "test-server",
            "https://example.test",
            keyring,
        ))
        .expect_err("the keyring fails");
    assert_eq!(
        error,
        OAuthError {
            message: "failed to reread OAuth tokens from resolved keyring storage".to_string(),
            causes: vec![
                "failed to deserialize OAuth tokens from keyring".to_string(),
                "not readable".to_string(),
            ],
        }
    );
}

#[test]
fn loaded_tokens_have_the_lifetime_that_is_left() {
    let mut tokens = sample_tokens();
    tokens.expires_at = Some(10_000);
    tokens.token_response.0.expires_in = Some(3600);
    let load_at = |now_ms: u64| {
        let step = load_oauth_tokens_from_keyring(
            AuthKeyringBackendKind::Direct,
            "test-server",
            "https://example.test",
        );
        let StoreStep::Call(StoreCall::LoadKeyring { service, .. }, operation) = step else {
            panic!("expected a call to the keyring");
        };
        assert_eq!(service, "Codex MCP Credentials");
        let reply = StoreReply::Loaded(Ok(Some(tokens.clone())));
        match operation.resume_at(reply, &Duration::from_millis(now_ms)) {
            StoreStep::Done(StoreOutcome::Loaded(Ok(Some(found)))) => {
                found.tokens.token_response.0.expires_in
            }
            step => panic!("unexpected step {step:?}"),
        }
    };
    assert_eq!(load_at(0), Some(10));
    assert_eq!(load_at(6_500), Some(3));
    assert_eq!(load_at(10_000), Some(0));
}

#[test]
fn what_the_file_keeps_of_tokens() {
    let mut stores = Stores::default();
    let mut tokens = sample_tokens();
    tokens.token_response.0.token_type = TokenType::Mac;
    tokens.token_response.0.scopes = Some(Vec::new());
    tokens.expires_at = None;
    tokens.token_response.0.expires_in = None;
    stores
        .save(save_oauth_tokens_to_file(&tokens))
        .expect("file should be written");
    let found = stores
        .load(load_oauth_tokens_from_file(
            "test-server",
            "https://example.test",
        ))
        .expect("file should be read")
        .expect("tokens should be stored");
    assert_eq!(found.tokens.token_response.0.token_type, TokenType::Bearer);
    assert_eq!(found.tokens.token_response.0.scopes, None);
    assert_eq!(found.tokens.token_response.0.expires_in, None);
    assert_eq!(found.tokens.expires_at, None);
}

#[test]
fn an_operation_knows_which_reply_it_waits_for() {
    let StoreStep::Call(_, operation) = load_oauth_tokens_from_keyring(
        AuthKeyringBackendKind::Direct,
        "test-server",
        "https://example.test",
    ) else {
        panic!("expected a call");
    };
    assert!(operation.accepts(&StoreReply::Loaded(Ok(None))));
    assert!(!operation.accepts(&StoreReply::Done(Ok(()))));
    assert!(!operation.accepts(&StoreReply::Deleted(Ok(true))));
    assert!(!operation.accepts(&StoreReply::FileRead(Ok(None))));
}
