//! Refresh transactions, with stores, an authorization manager and a provider kept in memory.

use std::collections::BTreeMap;
use std::time::{SystemTime, UNIX_EPOCH};

use agent_turns::duration::Duration;
use agent_turns::oauth::error::OAuthError;
use agent_turns::oauth::fallback_file::FallbackFile;
use agent_turns::oauth::persistor::{
    refreshed_tokens_at, request_oauth_token_response, stored_credentials_from_tokens,
    stored_credentials_from_tokens_at, CredentialExposure, CurrentCredentials, InstallFailure,
    OAuthPersistor, ProviderReply, RefreshCall, RefreshOutcome, RefreshReason, RefreshReply,
    RefreshStep, StoredCredentials, REFRESH_REQUEST_TIMEOUT_SECS,
};
use agent_turns::oauth::store::{
    delete_oauth_tokens_locked, load_oauth_tokens_from_keyring, resolve_oauth_tokens,
    save_oauth_tokens, save_oauth_tokens_locked, AuthKeyringBackendKind,
    OAuthCredentialsStoreMode, ResolvedOAuthCredentialStore, StoreCall, StoreFailure, StoreOutcome,
    StoreReply, StoreStep,
};
use agent_turns::oauth::tokens::{
    compute_expires_at_millis, OAuthTokenResponse, StoredOAuthTokens, TokenType,
    WrappedOAuthTokenResponse,
};

#[derive(Default)]
struct Stores {
    keyring: BTreeMap<(String, String), StoredOAuthTokens>,
    file: Option<FallbackFile>,
    keyring_failure: Option<String>,
}

impl Stores {
    fn guarded<T>(&self, value: T) -> Result<T, StoreFailure> {
        match &self.keyring_failure {
            Some(message) => Err(StoreFailure::Failed(message.clone())),
            None => Ok(value),
        }
    }

    fn run(&mut self, step: StoreStep) -> StoreOutcome {
        let mut step = step;
        loop {
            let (call, operation) = match step {
                StoreStep::Call(call, operation) => (call, operation),
                StoreStep::Done(outcome) => return outcome,
            };
            let reply = match call {
                StoreCall::LockRefresh { .. } | StoreCall::LockFile => StoreReply::Done(Ok(())),
                StoreCall::LoadKeyring { service, key } => StoreReply::Loaded(
                    self.guarded(self.keyring.get(&(service, key)).cloned()),
                ),
                StoreCall::SaveKeyring {
                    service,
                    key,
                    tokens,
                } => {
                    let result = self.guarded(());
                    if result.is_ok() {
                        self.keyring.insert((service, key), tokens);
                    }
                    StoreReply::Done(result)
                }
                StoreCall::DeleteKeyring { service, key } => {
                    let removed = self.keyring.remove(&(service, key)).is_some();
                    StoreReply::Deleted(self.guarded(removed))
                }
                StoreCall::ReadFile => StoreReply::FileRead(Ok(self.file.clone())),
                StoreCall::WriteFile { file } => {
                    self.file = Some(file);
                    StoreReply::Done(Ok(()))
                }
                StoreCall::RemoveFile => {
                    self.file = None;
                    StoreReply::Done(Ok(()))
                }
                StoreCall::LockSecrets
                | StoreCall::LoadSecret { .. }
                | StoreCall::SaveSecret { .. }
                | StoreCall::DeleteSecret { .. } => panic!("no encrypted store here"),
            };
            step = operation.resume(reply);
        }
    }

    fn save(&mut self, tokens: &StoredOAuthTokens) {
        let step = save_oauth_tokens(
            &tokens.server_name,
            tokens,
            OAuthCredentialsStoreMode::Keyring,
            AuthKeyringBackendKind::Direct,
        );
        assert_eq!(self.run(step), StoreOutcome::Saved(Ok(())));
    }

    fn resolved(&mut self, url: &str) -> Option<StoredOAuthTokens> {
        let step = resolve_oauth_tokens(
            "test-server",
            url,
            OAuthCredentialsStoreMode::Keyring,
            AuthKeyringBackendKind::Direct,
        );
        match self.run(step) {
            StoreOutcome::Loaded(Ok(found)) => found.map(|found| found.tokens),
            outcome => panic!("unexpected outcome {outcome:?}"),
        }
    }
}

/// The authorization manager: the credentials it holds, and every set that it was given.
#[derive(Default)]
struct Manager {
    held: Option<StoredCredentials>,
    exposures: Vec<CredentialExposure>,
    refuse: Vec<usize>,
    installs: usize,
}

/// What the provider answers to one refresh token.
struct Provider {
    expected_refresh_token: String,
    replies: Vec<ProviderReply>,
    requests: usize,
}

fn provider(request_refresh_token: &str, access_token: &str, refresh_token: &str) -> Provider {
    Provider {
        expected_refresh_token: request_refresh_token.to_string(),
        replies: vec![token_reply(access_token, refresh_token)],
        requests: 0,
    }
}

fn token_reply(access_token: &str, refresh_token: &str) -> ProviderReply {
    ProviderReply::Token(OAuthTokenResponse {
        access_token: access_token.to_string(),
        token_type: TokenType::Bearer,
        expires_in: Some(3600),
        refresh_token: Some(refresh_token.to_string()),
        scopes: Some(vec!["scope-a".to_string(), "scope-b".to_string()]),
        extra_fields: Vec::new(),
    })
}

fn no_provider() -> Provider {
    Provider {
        expected_refresh_token: String::new(),
        replies: Vec::new(),
        requests: 0,
    }
}

fn run_with(
    persistor: &mut OAuthPersistor,
    step: RefreshStep,
    stores: &mut Stores,
    manager: &mut Manager,
    provider: &mut Provider,
    mut on_request: impl FnMut(&mut Stores),
) -> Result<(), OAuthError> {
    let mut step = step;
    let RefreshOutcome { result, current } = loop {
        let (call, transaction) = match step {
            RefreshStep::Call(call, transaction) => (call, transaction),
            RefreshStep::Done(outcome) => break outcome,
        };
        let reply = match call {
            RefreshCall::LockRefresh { .. } => RefreshReply::Locked(Ok(())),
            RefreshCall::Store(operation) => RefreshReply::Stored(stores.run(operation)),
            RefreshCall::ClearManager => {
                manager.held = None;
                RefreshReply::Cleared
            }
            RefreshCall::Install {
                credentials,
                exposure,
            } => {
                manager.installs += 1;
                if manager.refuse.contains(&manager.installs) {
                    RefreshReply::Installed(Err(InstallFailure::NotAdopted(format!(
                        "install {} refused",
                        manager.installs
                    ))))
                } else {
                    manager.held = Some(credentials);
                    manager.exposures.push(exposure);
                    RefreshReply::Installed(Ok(()))
                }
            }
            RefreshCall::RequestRefresh { .. } => {
                provider.requests += 1;
                on_request(stores);
                let held = manager.held.as_ref().expect("credentials were staged");
                assert_eq!(
                    held.token_response.refresh_token.as_deref(),
                    Some(provider.expected_refresh_token.as_str())
                );
                RefreshReply::Refreshed(provider.replies.remove(0))
            }
        };
        assert!(transaction.accepts(&reply));
        step = transaction.resume(reply);
    };
    persistor.apply(current);
    result
}

fn run(
    persistor: &mut OAuthPersistor,
    step: RefreshStep,
    stores: &mut Stores,
    manager: &mut Manager,
    provider: &mut Provider,
) -> Result<(), OAuthError> {
    run_with(persistor, step, stores, manager, provider, |_| {})
}

const URL: &str = "https://server.test/mcp";

fn sample_tokens() -> StoredOAuthTokens {
    let response = OAuthTokenResponse {
        access_token: "access-token".to_string(),
        token_type: TokenType::Bearer,
        expires_in: Some(3600),
        refresh_token: Some("refresh-token".to_string()),
        scopes: Some(vec!["scope-a".to_string(), "scope-b".to_string()]),
        extra_fields: Vec::new(),
    };
    let expires_at = compute_expires_at_millis(&response);
    StoredOAuthTokens {
        server_name: "test-server".to_string(),
        url: URL.to_string(),
        client_id: "client-id".to_string(),
        token_response: WrappedOAuthTokenResponse(response),
        expires_at,
    }
}

fn expired_sample_tokens() -> StoredOAuthTokens {
    let mut tokens = sample_tokens();
    tokens.expires_at = Some(0);
    tokens.token_response.0.expires_in = Some(0);
    tokens
}

fn persistor_for(tokens: &StoredOAuthTokens) -> OAuthPersistor {
    OAuthPersistor::new(
        tokens.server_name.clone(),
        tokens.url.clone(),
        ResolvedOAuthCredentialStore::Keyring(AuthKeyringBackendKind::Direct),
        Some(tokens.clone()),
    )
}

fn manager_for(tokens: &StoredOAuthTokens) -> Manager {
    Manager {
        held: Some(stored_credentials_from_tokens(
            tokens,
            CredentialExposure::Request,
        )),
        ..Manager::default()
    }
}

fn now_millis() -> u64 {
    SystemTime::now()
        .duration_since(UNIX_EPOCH)
        .map(|span| span.as_millis() as u64)
        .unwrap_or(0)
}

fn access_token(tokens: &StoredOAuthTokens) -> &str {
    &tokens.token_response.0.access_token
}

fn refresh_token(tokens: &StoredOAuthTokens) -> Option<&str> {
    tokens.token_response.0.refresh_token.as_deref()
}

#[test]
fn refresh_transaction_preserves_credentials_when_resolved_keyring_reread_fails() {
    let initial_tokens = expired_sample_tokens();
    let mut stores = Stores {
        keyring_failure: Some("load".to_string()),
        ..Stores::default()
    };
    let mut manager = manager_for(&initial_tokens);
    let mut persistor = persistor_for(&initial_tokens);
    let mut provider = no_provider();

    let step = persistor.refresh_if_needed();
    let error = run(&mut persistor, step, &mut stores, &mut manager, &mut provider)
        .expect_err("keyring reread failure should abort refresh");

    assert!(error
        .message
        .contains("failed to reread OAuth tokens from resolved keyring storage"));
    assert_eq!(
        WrappedOAuthTokenResponse(manager.held.expect("credentials").token_response),
        WrappedOAuthTokenResponse(request_oauth_token_response(&initial_tokens))
    );
    assert_eq!(persistor.current_credentials, Some(initial_tokens));
}

#[test]
fn resolved_keyring_write_failure_errors_and_restores_previous_credentials() {
    let mut stores = Stores::default();
    let initial_tokens = expired_sample_tokens();
    stores.save(&initial_tokens);
    let mut manager = manager_for(&initial_tokens);
    let mut persistor = persistor_for(&initial_tokens);
    let mut provider = provider(
        "refresh-token",
        "updated-access-token",
        "updated-refresh-token",
    );

    let step = persistor.refresh_if_needed();
    let error = run_with(
        &mut persistor,
        step,
        &mut stores,
        &mut manager,
        &mut provider,
        |stores| stores.keyring_failure = Some("save".to_string()),
    )
    .expect_err("resolved keyring write should fail instead of falling back");

    assert!(error.message.contains("failed to write OAuth tokens to keyring"));
    assert!(stores.file.is_none());
    assert_eq!(
        WrappedOAuthTokenResponse(manager.held.expect("credentials").token_response),
        WrappedOAuthTokenResponse(request_oauth_token_response(&initial_tokens))
    );
    assert_eq!(provider.requests, 1);
    assert_eq!(persistor.current_credentials, Some(initial_tokens));
}

#[test]
fn unauthorized_transaction_refreshes_once_for_delayed_same_and_cross_client_401s() {
    let mut stores = Stores::default();
    let mut initial_tokens = sample_tokens();
    initial_tokens.expires_at = None;
    initial_tokens.token_response.0.expires_in = None;
    stores.save(&initial_tokens);
    let mut provider = provider(
        "refresh-token",
        "refreshed-access-token",
        "rotated-refresh-token",
    );

    let mut first_manager = manager_for(&initial_tokens);
    let mut second_manager = manager_for(&initial_tokens);
    let mut first = persistor_for(&initial_tokens);
    let mut second = persistor_for(&initial_tokens);
    let rejected = access_token(&initial_tokens).to_string();

    let step = first.refresh_after_unauthorized(&rejected);
    run(&mut first, step, &mut stores, &mut first_manager, &mut provider)
        .expect("first refresh");
    let step = first.refresh_after_unauthorized(&rejected);
    run(&mut first, step, &mut stores, &mut first_manager, &mut provider)
        .expect("delayed rejection");
    let step = second.refresh_after_unauthorized(&rejected);
    run(&mut second, step, &mut stores, &mut second_manager, &mut provider)
        .expect("rejection of another client");

    assert_eq!(provider.requests, 1);
    let step = load_oauth_tokens_from_keyring(AuthKeyringBackendKind::Direct, "test-server", URL);
    let stored = match stores.run(step) {
        StoreOutcome::Loaded(Ok(Some(found))) => found.tokens,
        outcome => panic!("unexpected outcome {outcome:?}"),
    };
    assert_eq!(access_token(&stored), "refreshed-access-token");
    assert_eq!(refresh_token(&stored), Some("rotated-refresh-token"));
    assert_eq!(
        WrappedOAuthTokenResponse(second_manager.held.expect("credentials").token_response),
        WrappedOAuthTokenResponse(request_oauth_token_response(&stored))
    );
}

#[test]
fn refresh_transaction_adopts_valid_reread_without_provider_refresh() {
    let mut stores = Stores::default();
    let mut initial_tokens = expired_sample_tokens();
    initial_tokens.token_response.0.refresh_token = Some("stale-refresh-token".to_string());
    let mut latest_tokens = sample_tokens();
    latest_tokens.token_response.0.access_token = "already-refreshed-access-token".to_string();
    latest_tokens.token_response.0.refresh_token =
        Some("already-rotated-refresh-token".to_string());
    stores.save(&latest_tokens);

    let mut manager = manager_for(&initial_tokens);
    let mut persistor = persistor_for(&initial_tokens);
    let mut provider = no_provider();
    let step = persistor.refresh_if_needed();
    run(&mut persistor, step, &mut stores, &mut manager, &mut provider).expect("adoption");

    assert_eq!(provider.requests, 0);
    assert_eq!(manager.exposures, [CredentialExposure::Request]);
    assert_eq!(
        WrappedOAuthTokenResponse(manager.held.expect("credentials").token_response),
        WrappedOAuthTokenResponse(request_oauth_token_response(&latest_tokens))
    );
}

#[test]
fn refresh_transaction_refreshes_in_guard_band_despite_expires_in_drift() {
    let mut stores = Stores::default();
    let mut initial_tokens = sample_tokens();
    initial_tokens.expires_at = Some(now_millis().saturating_add(45_000));
    initial_tokens.token_response.0.expires_in = Some(3600);
    stores.save(&initial_tokens);

    let mut manager = manager_for(&initial_tokens);
    let mut persistor = persistor_for(&initial_tokens);
    let mut provider = provider(
        "refresh-token",
        "refreshed-after-expiry-drift",
        "rotated-after-expiry-drift",
    );
    let step = persistor.refresh_if_needed();
    run(&mut persistor, step, &mut stores, &mut manager, &mut provider).expect("refresh");

    assert_eq!(provider.requests, 1);
    let stored = stores
        .resolved(URL)
        .expect("refreshed tokens should be persisted");
    assert_eq!(access_token(&stored), "refreshed-after-expiry-drift");
    assert_eq!(refresh_token(&stored), Some("rotated-after-expiry-drift"));
}

#[test]
fn refresh_transaction_uses_latest_refresh_token_when_reread_is_expired() {
    let mut stores = Stores::default();
    let mut initial_tokens = expired_sample_tokens();
    initial_tokens.token_response.0.refresh_token = Some("stale-refresh-token".to_string());
    let mut latest_tokens = initial_tokens.clone();
    latest_tokens.token_response.0.access_token = "latest-expired-access-token".to_string();
    latest_tokens.token_response.0.refresh_token = Some("latest-refresh-token".to_string());
    stores.save(&latest_tokens);

    let mut manager = manager_for(&initial_tokens);
    let mut persistor = persistor_for(&initial_tokens);
    let mut provider = provider(
        "latest-refresh-token",
        "refreshed-from-latest-token",
        "rotated-from-latest-token",
    );
    let step = persistor.refresh_if_needed();
    run(&mut persistor, step, &mut stores, &mut manager, &mut provider).expect("refresh");

    assert_eq!(provider.requests, 1);
    let stored = stores
        .resolved(URL)
        .expect("refreshed tokens should be persisted");
    assert_eq!(access_token(&stored), "refreshed-from-latest-token");
    assert_eq!(refresh_token(&stored), Some("rotated-from-latest-token"));
}

#[test]
fn provider_refresh_timeout_releases_lock_without_persisting_and_permits_retry() {
    let mut stores = Stores::default();
    let initial_tokens = expired_sample_tokens();
    stores.save(&initial_tokens);
    let mut manager = manager_for(&initial_tokens);
    let mut persistor = persistor_for(&initial_tokens);
    let mut provider = Provider {
        expected_refresh_token: "refresh-token".to_string(),
        replies: vec![
            ProviderReply::TimedOut,
            token_reply("retried-access-token", "retried-refresh-token"),
        ],
        requests: 0,
    };
    let now = Duration::from_millis(now_millis());

    let step = persistor.refresh_if_needed_with_timeout_at(Duration::from_millis(100), &now);
    let first_error = run(&mut persistor, step, &mut stores, &mut manager, &mut provider)
        .expect_err("the first provider request should reach its explicit timeout");
    assert!(first_error.message.contains("timed out after 100ms"));
    assert_eq!(
        first_error.message,
        "timed out after 100ms refreshing OAuth tokens for server test-server"
    );

    let stored = stores
        .resolved(URL)
        .expect("a timed-out provider request must not update durable credentials");
    assert_eq!(access_token(&stored), "access-token");
    assert_eq!(refresh_token(&stored), Some("refresh-token"));

    let step = persistor.refresh_if_needed_with_timeout_at(Duration::from_secs(1), &now);
    run(&mut persistor, step, &mut stores, &mut manager, &mut provider).expect("retry");
    let stored = stores
        .resolved(URL)
        .expect("the later retry should persist the rotated credentials");
    assert_eq!(access_token(&stored), "retried-access-token");
    assert_eq!(refresh_token(&stored), Some("retried-refresh-token"));
    assert_eq!(provider.requests, 2);
}

#[test]
fn locked_login_save_after_refresh_still_wins() {
    let mut stores = Stores::default();
    let initial_tokens = expired_sample_tokens();
    stores.save(&initial_tokens);
    let mut manager = manager_for(&initial_tokens);
    let mut persistor = persistor_for(&initial_tokens);
    let mut provider = provider(
        "refresh-token",
        "refreshed-before-login",
        "rotated-before-login",
    );

    let mut login_tokens = sample_tokens();
    login_tokens.token_response.0.access_token = "login-after-refresh-access".to_string();
    login_tokens.token_response.0.refresh_token = Some("login-after-refresh-token".to_string());
    // The login waits for the lock that the refresh holds.
    let login = save_oauth_tokens_locked(
        &login_tokens.server_name,
        &login_tokens,
        OAuthCredentialsStoreMode::Keyring,
        AuthKeyringBackendKind::Direct,
    );
    assert!(matches!(
        login,
        StoreStep::Call(StoreCall::LockRefresh { .. }, _)
    ));
    let step = persistor.refresh_if_needed();
    run(&mut persistor, step, &mut stores, &mut manager, &mut provider).expect("refresh");
    assert_eq!(stores.run(login), StoreOutcome::Saved(Ok(())));

    let stored = stores
        .resolved(URL)
        .expect("login tokens should remain persisted");
    assert_eq!(access_token(&stored), "login-after-refresh-access");
    assert_eq!(refresh_token(&stored), Some("login-after-refresh-token"));
}

#[test]
fn locked_logout_after_refresh_still_deletes() {
    let mut stores = Stores::default();
    let initial_tokens = expired_sample_tokens();
    stores.save(&initial_tokens);
    let mut manager = manager_for(&initial_tokens);
    let mut persistor = persistor_for(&initial_tokens);
    let mut provider = provider(
        "refresh-token",
        "refreshed-before-logout",
        "rotated-before-logout",
    );

    let logout = delete_oauth_tokens_locked(
        "test-server",
        URL,
        OAuthCredentialsStoreMode::Keyring,
        AuthKeyringBackendKind::Direct,
    );
    assert!(matches!(
        logout,
        StoreStep::Call(StoreCall::LockRefresh { .. }, _)
    ));
    let step = persistor.refresh_if_needed();
    run(&mut persistor, step, &mut stores, &mut manager, &mut provider).expect("refresh");
    assert_eq!(stores.run(logout), StoreOutcome::Deleted(Ok(true)));
    assert_eq!(provider.requests, 1);
    assert_eq!(stores.resolved(URL), None);
}

#[test]
fn removed_tokens_are_cleared_and_not_brought_back() {
    let mut stores = Stores::default();
    let initial_tokens = expired_sample_tokens();
    let mut manager = manager_for(&initial_tokens);
    let mut persistor = persistor_for(&initial_tokens);
    let mut provider = no_provider();

    let step = persistor.refresh_if_needed();
    let error = run(&mut persistor, step, &mut stores, &mut manager, &mut provider)
        .expect_err("there is nothing to refresh");
    assert_eq!(
        error.message,
        "OAuth tokens for server test-server were removed before refresh; authorization required"
    );
    assert_eq!(manager.held, None);
    assert_eq!(persistor.current_credentials, None);
    assert!(matches!(
        persistor.refresh_if_needed(),
        RefreshStep::Done(RefreshOutcome {
            result: Ok(()),
            current: CurrentCredentials::Keep
        })
    ));
}

#[test]
fn tokens_that_need_no_refresh_are_left_alone() {
    let persistor = persistor_for(&sample_tokens());
    assert!(matches!(
        persistor.refresh_if_needed(),
        RefreshStep::Done(RefreshOutcome {
            result: Ok(()),
            current: CurrentCredentials::Keep
        })
    ));
}

#[test]
fn the_refresh_token_is_only_given_while_it_is_needed() {
    let mut stores = Stores::default();
    let initial_tokens = expired_sample_tokens();
    stores.save(&initial_tokens);
    let mut manager = manager_for(&initial_tokens);
    let mut persistor = persistor_for(&initial_tokens);
    let mut provider = Provider {
        expected_refresh_token: "refresh-token".to_string(),
        replies: vec![ProviderReply::Failed("invalid_grant".to_string())],
        requests: 0,
    };
    let step = persistor.refresh_if_needed();
    let error = run(&mut persistor, step, &mut stores, &mut manager, &mut provider)
        .expect_err("the provider refuses");
    assert_eq!(
        error,
        OAuthError::caused(
            "failed to refresh OAuth tokens for server test-server".to_string(),
            "invalid_grant".to_string()
        )
    );
    assert_eq!(
        manager.exposures,
        [CredentialExposure::Refresh, CredentialExposure::Request]
    );
    let held = manager.held.expect("credentials");
    assert_eq!(held.token_response.refresh_token, None);
    assert_eq!(held.token_response.expires_in, None);
    assert_eq!(held.token_received_at, None);
}

#[test]
fn refused_installs_are_reported() {
    let attempt = |refuse: Vec<usize>| {
        let mut stores = Stores::default();
        let initial_tokens = expired_sample_tokens();
        stores.save(&initial_tokens);
        let mut manager = manager_for(&initial_tokens);
        manager.refuse = refuse;
        let mut persistor = persistor_for(&initial_tokens);
        let mut provider = provider("refresh-token", "new-access", "new-refresh");
        let step = persistor.refresh_if_needed();
        let result = run_with(
            &mut persistor,
            step,
            &mut stores,
            &mut manager,
            &mut provider,
            |stores| stores.keyring_failure = Some("save".to_string()),
        );
        result.expect_err("an install is refused")
    };
    let refused = |context: &str, install: usize| OAuthError {
        message: context.to_string(),
        causes: vec![
            "failed to adopt refreshed OAuth tokens".to_string(),
            format!("install {install} refused"),
        ],
    };
    assert_eq!(
        attempt(vec![1]),
        refused("failed to stage OAuth credentials for refresh", 1)
    );
    assert_eq!(
        attempt(vec![1, 2]),
        refused("failed to restore request-only OAuth credentials", 2)
    );
    assert_eq!(
        attempt(vec![2]),
        refused("failed to restore request-only OAuth credentials", 2)
    );
    assert_eq!(
        attempt(vec![3]),
        refused(
            "failed to restore request-only OAuth credentials after refresh persistence failed",
            3
        )
    );
}

#[test]
fn a_refused_adoption_is_reported() {
    let mut stores = Stores::default();
    stores.save(&sample_tokens());
    let initial_tokens = expired_sample_tokens();
    let mut manager = manager_for(&initial_tokens);
    manager.refuse = vec![1];
    let mut persistor = persistor_for(&initial_tokens);
    let step = persistor.refresh_if_needed();
    let error = run(
        &mut persistor,
        step,
        &mut stores,
        &mut manager,
        &mut no_provider(),
    )
    .expect_err("the adoption is refused");
    assert_eq!(
        error,
        OAuthError::caused(
            "failed to adopt refreshed OAuth tokens".to_string(),
            "install 1 refused".to_string()
        )
    );
    assert_eq!(persistor.current_credentials, Some(initial_tokens));
}

#[test]
fn credentials_that_could_not_be_staged_say_so() {
    let mut stores = Stores::default();
    stores.save(&sample_tokens());
    let persistor = persistor_for(&expired_sample_tokens());
    let mut step = persistor.refresh_if_needed();
    let outcome = loop {
        match step {
            RefreshStep::Call(call, transaction) => {
                let reply = match call {
                    RefreshCall::LockRefresh { .. } => RefreshReply::Locked(Ok(())),
                    RefreshCall::Store(operation) => RefreshReply::Stored(stores.run(operation)),
                    _ => RefreshReply::Installed(Err(InstallFailure::NotStaged(
                        "no room".to_string(),
                    ))),
                };
                step = transaction.resume(reply);
            }
            RefreshStep::Done(outcome) => break outcome,
        }
    };
    assert_eq!(
        outcome.result,
        Err(OAuthError::caused(
            "failed to stage OAuth tokens for authorization manager".to_string(),
            "no room".to_string()
        ))
    );
}

#[test]
fn a_lock_that_is_not_had_ends_the_transaction() {
    let persistor = persistor_for(&expired_sample_tokens());
    let RefreshStep::Call(call, transaction) = persistor.refresh_if_needed() else {
        panic!("expected a call");
    };
    assert_eq!(
        call,
        RefreshCall::LockRefresh {
            server_name: "test-server".to_string(),
            url: URL.to_string()
        }
    );
    assert!(!transaction.accepts(&RefreshReply::Cleared));
    let step = transaction.resume(RefreshReply::Locked(Err("held elsewhere".to_string())));
    assert_eq!(
        step,
        RefreshStep::Done(RefreshOutcome {
            result: Err(OAuthError::plain("held elsewhere".to_string())),
            current: CurrentCredentials::Keep,
        })
    );
}

#[test]
fn the_provider_has_forty_five_seconds() {
    assert_eq!(REFRESH_REQUEST_TIMEOUT_SECS, 45);
    let persistor = persistor_for(&expired_sample_tokens());
    let RefreshStep::Call(_, transaction) = persistor.refresh_after_unauthorized("rejected")
    else {
        panic!("expected a call");
    };
    assert_eq!(transaction.timeout, Duration::from_secs(45));
    assert_eq!(transaction.reason.as_str(), "unauthorized");
    assert_eq!(RefreshReason::Expiry.as_str(), "expiry");
}

#[test]
fn credentials_for_requests_and_for_a_refresh() {
    let tokens = sample_tokens();
    let reading = Some(Duration::from_millis(12_345_678));

    let request =
        stored_credentials_from_tokens_at(&tokens, CredentialExposure::Request, reading);
    assert_eq!(request.client_id, "client-id");
    assert_eq!(request.granted_scopes, ["scope-a", "scope-b"]);
    assert_eq!(request.token_received_at, None);
    assert_eq!(request.token_response, request_oauth_token_response(&tokens));
    assert_eq!(request.token_response.refresh_token, None);
    assert_eq!(request.token_response.expires_in, None);
    assert_eq!(request.token_response.access_token, "access-token");

    let refresh =
        stored_credentials_from_tokens_at(&tokens, CredentialExposure::Refresh, reading);
    assert_eq!(refresh.token_received_at, Some(12_345));
    assert_eq!(refresh.token_response, tokens.token_response.0);

    let unset = stored_credentials_from_tokens_at(&tokens, CredentialExposure::Refresh, None);
    assert_eq!(unset.token_received_at, None);
}

#[test]
fn a_response_keeps_what_it_does_not_replace() {
    let previous = sample_tokens();
    let now = Duration::from_millis(1_000_000);
    let response = OAuthTokenResponse {
        access_token: "new-access".to_string(),
        token_type: TokenType::Bearer,
        expires_in: Some(60),
        refresh_token: None,
        scopes: None,
        extra_fields: Vec::new(),
    };
    let tokens = refreshed_tokens_at(response, &previous, "test-server", URL, &now);
    assert_eq!(access_token(&tokens), "new-access");
    assert_eq!(refresh_token(&tokens), Some("refresh-token"));
    assert_eq!(
        tokens.token_response.0.scopes,
        previous.token_response.0.scopes
    );
    assert_eq!(tokens.expires_at, Some(1_060_000));
    assert_eq!(tokens.client_id, "client-id");

    let response = OAuthTokenResponse {
        access_token: "new-access".to_string(),
        token_type: TokenType::Bearer,
        expires_in: None,
        refresh_token: Some("new-refresh".to_string()),
        scopes: Some(Vec::new()),
        extra_fields: Vec::new(),
    };
    let tokens = refreshed_tokens_at(response, &previous, "other", "https://other.test", &now);
    assert_eq!(tokens.server_name, "other");
    assert_eq!(tokens.url, "https://other.test");
    assert_eq!(refresh_token(&tokens), Some("new-refresh"));
    assert_eq!(tokens.token_response.0.scopes, Some(Vec::new()));
    assert_eq!(tokens.expires_at, None);
}

#[test]
fn clients_that_share_a_file_refresh_once() {
    let mut stores = Stores::default();
    let initial_tokens = expired_sample_tokens();
    let step = save_oauth_tokens(
        "test-server",
        &initial_tokens,
        OAuthCredentialsStoreMode::File,
        AuthKeyringBackendKind::Direct,
    );
    assert_eq!(stores.run(step), StoreOutcome::Saved(Ok(())));
    let mut provider = provider("refresh-token", "refreshed-access-token", "rotated");

    // Both clients see that their tokens are expired before either of them holds the lock.
    let mut clients: Vec<(OAuthPersistor, Manager)> = (0..2)
        .map(|_| {
            let persistor = OAuthPersistor::new(
                "test-server".to_string(),
                URL.to_string(),
                ResolvedOAuthCredentialStore::File,
                Some(initial_tokens.clone()),
            );
            (persistor, manager_for(&initial_tokens))
        })
        .collect();
    let steps: Vec<RefreshStep> = clients
        .iter()
        .map(|(persistor, _)| persistor.refresh_if_needed())
        .collect();
    for ((persistor, manager), step) in clients.iter_mut().zip(steps) {
        run(persistor, step, &mut stores, manager, &mut provider).expect("refresh");
    }

    assert_eq!(provider.requests, 1);
    for (persistor, manager) in &clients {
        let current = persistor.current_credentials.as_ref().expect("credentials");
        assert_eq!(access_token(current), "refreshed-access-token");
        let held = manager.held.as_ref().expect("credentials");
        assert_eq!(held.token_response.access_token, "refreshed-access-token");
        assert_eq!(held.token_response.refresh_token, None);
    }
}
