//! The lifetime of tokens, and whether they can be used.

use std::time::{SystemTime, UNIX_EPOCH};

use agent_turns::clock::{time_of, unix_time};
use agent_turns::duration::Duration;
use agent_turns::json::{write_decimal, JsonValue};
use agent_turns::oauth::tokens::{
    compute_expires_at_millis, compute_expires_at_millis_at, expires_in_from_timestamp,
    expires_in_from_timestamp_at, oauth_token_status, oauth_token_status_at,
    oauth_tokens_are_usable, oauth_tokens_are_usable_at, refresh_expires_in_from_timestamp,
    refresh_expires_in_from_timestamp_at, token_needs_refresh, token_needs_refresh_at,
    ExtraTokenField, OAuthTokenResponse, StoredOAuthTokenStatus, StoredOAuthTokens, TokenType,
    WrappedOAuthTokenResponse, REFRESH_SKEW_MILLIS,
};

fn now_millis() -> u64 {
    SystemTime::now()
        .duration_since(UNIX_EPOCH)
        .map(|span| span.as_millis() as u64)
        .unwrap_or(0)
}

fn sample_tokens() -> StoredOAuthTokens {
    let response = OAuthTokenResponse {
        access_token: "access-token".to_string(),
        token_type: TokenType::Bearer,
        expires_in: Some(3600),
        refresh_token: Some("refresh-token".to_string()),
        scopes: Some(vec!["scope-a".to_string(), "scope-b".to_string()]),
        extra_fields: Vec::new(),
    };
    let expires_at = compute_expires_at_millis(&response);
    StoredOAuthTokens {
        server_name: "test-server".to_string(),
        url: "https://example.test".to_string(),
        client_id: "client-id".to_string(),
        token_response: WrappedOAuthTokenResponse(response),
        expires_at,
    }
}

#[test]
fn refresh_expires_in_from_timestamp_restores_future_durations() {
    let mut tokens = sample_tokens();
    let expires_at = tokens.expires_at.expect("expires_at should be set");

    tokens.token_response.0.expires_in = None;
    refresh_expires_in_from_timestamp(&mut tokens);

    let actual = tokens
        .token_response
        .0
        .expires_in
        .expect("expires_in should be restored");
    let expected =
        expires_in_from_timestamp(expires_at).expect("expires_at should still be in the future");
    let diff = actual.abs_diff(expected);
    assert!(diff <= 1, "expires_in drift too large: diff={diff}");
}

#[test]
fn refresh_expires_in_from_timestamp_marks_expired_tokens() {
    let mut tokens = sample_tokens();
    tokens.expires_at = Some(now_millis().saturating_sub(1000));
    tokens.token_response.0.expires_in = Some(600);

    refresh_expires_in_from_timestamp(&mut tokens);

    assert_eq!(tokens.token_response.0.expires_in, Some(0));
}

#[test]
fn oauth_tokens_are_usable_when_expiry_is_unknown() {
    let mut tokens = sample_tokens();
    tokens.expires_at = None;
    tokens.token_response.0.refresh_token = None;

    assert!(oauth_tokens_are_usable(&tokens));
}

#[test]
fn oauth_tokens_are_usable_when_unexpired_without_refresh_token() {
    let mut tokens = sample_tokens();
    tokens.token_response.0.refresh_token = None;

    assert!(oauth_tokens_are_usable(&tokens));
}

#[test]
fn oauth_tokens_are_usable_when_expired_but_refreshable() {
    let mut tokens = sample_tokens();
    tokens.expires_at = Some(0);

    assert!(oauth_tokens_are_usable(&tokens));
}

#[test]
fn oauth_tokens_are_not_usable_when_expired_and_unrefreshable() {
    let mut tokens = sample_tokens();
    tokens.expires_at = Some(0);
    tokens.token_response.0.refresh_token = None;

    assert!(!oauth_tokens_are_usable(&tokens));
}

#[test]
fn oauth_tokens_are_not_usable_when_near_expiry_and_unrefreshable() {
    let mut tokens = sample_tokens();
    tokens.expires_at = Some(now_millis().saturating_add(REFRESH_SKEW_MILLIS - 1));
    tokens.token_response.0.refresh_token = None;

    assert!(!oauth_tokens_are_usable(&tokens));
}

#[test]
fn oauth_tokens_are_not_usable_when_client_id_is_blank() {
    let mut tokens = sample_tokens();
    tokens.client_id = " ".to_string();

    assert!(!oauth_tokens_are_usable(&tokens));
}

#[test]
fn oauth_tokens_are_not_usable_when_access_token_is_blank() {
    let mut tokens = sample_tokens();
    tokens.token_response.0.access_token = " ".to_string();

    assert!(!oauth_tokens_are_usable(&tokens));
}

#[test]
fn oauth_tokens_are_not_usable_when_required_refresh_token_is_blank() {
    let mut tokens = sample_tokens();
    tokens.expires_at = Some(0);
    tokens.token_response.0.refresh_token = Some(" ".to_string());

    assert!(!oauth_tokens_are_usable(&tokens));
}

#[test]
fn the_expiry_is_computed_in_milliseconds() {
    let mut response = sample_tokens().token_response.0;
    let now = Duration::from_millis(1_234_567);
    assert_eq!(
        compute_expires_at_millis_at(&response, &now),
        Some(1_234_567 + 3_600_000)
    );
    response.expires_in = Some(0);
    assert_eq!(compute_expires_at_millis_at(&response, &now), Some(1_234_567));
    response.expires_in = None;
    assert_eq!(compute_expires_at_millis_at(&response, &now), None);
    assert_eq!(compute_expires_at_millis(&response), None);
    response.expires_in = Some(0);
    let before = now_millis();
    let expiry = compute_expires_at_millis(&response).expect("a lifetime has an end");
    assert!(before <= expiry && expiry <= now_millis());
}

#[test]
fn an_expiry_beyond_all_timestamps_is_capped_or_unknown() {
    let mut response = sample_tokens().token_response.0;
    let now = Duration::from_millis(1_000);
    response.expires_in = Some(u64::MAX / 1000);
    assert_eq!(compute_expires_at_millis_at(&response, &now), Some(u64::MAX));
    response.expires_in = Some(u64::MAX - 1);
    assert_eq!(compute_expires_at_millis_at(&response, &now), Some(u64::MAX));
    response.expires_in = Some(u64::MAX);
    assert_eq!(compute_expires_at_millis_at(&response, &now), None);
}

#[test]
fn the_computed_expiry_follows_the_clock() {
    let response = sample_tokens().token_response.0;
    let before = now_millis();
    let expires_at = compute_expires_at_millis(&response).expect("expiry");
    let after = now_millis();
    assert!(expires_at >= before + 3_600_000);
    assert!(expires_at <= after + 3_600_000);
}

#[test]
fn the_time_left_is_counted_in_whole_seconds() {
    let now = Duration::from_millis(5_000);
    assert_eq!(expires_in_from_timestamp_at(5_000, &now), None);
    assert_eq!(expires_in_from_timestamp_at(4_999, &now), None);
    assert_eq!(expires_in_from_timestamp_at(5_001, &now), Some(0));
    assert_eq!(expires_in_from_timestamp_at(7_999, &now), Some(2));
    assert_eq!(expires_in_from_timestamp_at(8_000, &now), Some(3));
    assert_eq!(expires_in_from_timestamp(0), None);
}

#[test]
fn a_token_needs_a_refresh_a_minute_before_it_expires() {
    let now = Duration::from_millis(1_000_000);
    assert!(token_needs_refresh_at(Some(1_060_000), &now));
    assert!(!token_needs_refresh_at(Some(1_060_001), &now));
    assert!(token_needs_refresh_at(Some(0), &now));
    assert!(!token_needs_refresh_at(None, &now));
    assert!(!token_needs_refresh(None));
    assert!(token_needs_refresh(Some(0)));
    assert!(!token_needs_refresh(Some(u64::MAX)));
}

#[test]
fn the_need_for_a_refresh_does_not_go_away() {
    let at = Some(1_000_000);
    let mut needed = false;
    for now_ms in (900_000..1_100_000).step_by(5_000) {
        let needs = token_needs_refresh_at(at, &Duration::from_millis(now_ms));
        assert!(needs || !needed);
        needed = needs;
    }
    assert!(needed);
}

#[test]
fn a_lifetime_comes_back_from_its_expiry() {
    let mut tokens = sample_tokens();
    let now = Duration::from_millis(1_700_000_000_123);
    tokens.expires_at = compute_expires_at_millis_at(&tokens.token_response.0, &now);
    tokens.token_response.0.expires_in = None;
    refresh_expires_in_from_timestamp_at(&mut tokens, &now);
    assert_eq!(tokens.token_response.0.expires_in, Some(3600));
}

#[test]
fn an_unknown_expiry_leaves_the_lifetime_alone() {
    let mut tokens = sample_tokens();
    tokens.expires_at = None;
    let before = tokens.clone();
    refresh_expires_in_from_timestamp(&mut tokens);
    assert_eq!(tokens, before);
}

#[test]
fn blank_means_unicode_white_space() {
    let mut tokens = sample_tokens();
    let now = Duration::from_millis(0);
    tokens.expires_at = None;
    tokens.client_id = "\u{2003}\u{85}\t".to_string();
    assert!(!oauth_tokens_are_usable_at(&tokens, &now));
    tokens.client_id = "\u{200b}".to_string();
    assert!(oauth_tokens_are_usable_at(&tokens, &now));
}

#[test]
fn the_status_of_stored_tokens() {
    let mut tokens = sample_tokens();
    assert_eq!(oauth_token_status(None), StoredOAuthTokenStatus::Missing);
    assert_eq!(
        oauth_token_status(Some(&tokens)),
        StoredOAuthTokenStatus::Usable
    );
    tokens.expires_at = Some(0);
    tokens.token_response.0.refresh_token = None;
    assert_eq!(
        oauth_token_status(Some(&tokens)),
        StoredOAuthTokenStatus::AuthorizationRequired
    );
    let early = Duration::from_millis(0);
    tokens.expires_at = Some(REFRESH_SKEW_MILLIS + 1);
    assert_eq!(
        oauth_token_status_at(Some(&tokens), &early),
        StoredOAuthTokenStatus::Usable
    );
}

#[test]
fn responses_are_compared_by_their_written_form() {
    let tokens = sample_tokens();
    let base = tokens.token_response.clone();
    assert_eq!(base, tokens.token_response);

    let mut named = base.clone();
    named.0.token_type = TokenType::Extension("bearer".to_string());
    assert_eq!(named, base);
    named.0.token_type = TokenType::Extension("Bearer".to_string());
    assert_ne!(named, base);

    let mut scoped = base.clone();
    scoped.0.scopes = Some(vec!["scope-a scope-b".to_string()]);
    assert_eq!(scoped, base);
    scoped.0.scopes = Some(vec!["scope-b".to_string(), "scope-a".to_string()]);
    assert_ne!(scoped, base);

    let mut extra = base.clone();
    extra.0.extra_fields = vec![ExtraTokenField {
        name: "team".to_string(),
        value: JsonValue::Document("\"a\"".to_string()),
    }];
    assert_ne!(extra, base);

    let mut longer = base.clone();
    longer.0.expires_in = Some(3601);
    assert_ne!(longer, base);

    let mut without = base.clone();
    without.0.refresh_token = None;
    assert_ne!(without, base);
}

#[test]
fn a_member_counts_by_its_name_and_text() {
    let extra = |name: &str, text: &str| ExtraTokenField {
        name: name.to_string(),
        value: JsonValue::Document(text.to_string()),
    };
    let response = || {
        let mut response = sample_tokens().token_response;
        response.0.expires_in = None;
        response.0.refresh_token = None;
        response.0.scopes = None;
        response
    };

    let mut standard = response();
    standard.0.expires_in = Some(5);
    let mut other = response();
    other.0.extra_fields = vec![extra("expires_in", "5")];
    assert_eq!(standard, other);
    other.0.extra_fields = vec![extra("expires_in", "\"5\"")];
    assert_ne!(standard, other);

    let odd = "a\"\\\u{8}\t\n\u{c}\r\0\u{1f}\u{7f}é/\u{2028}";
    let mut standard = response();
    standard.0.refresh_token = Some(odd.to_string());
    let mut other = response();
    other.0.extra_fields = vec![extra(
        "refresh_token",
        &serde_json::to_string(odd).expect("a text can be written"),
    )];
    assert_eq!(standard, other);

    let mut standard = response();
    standard.0.scopes = Some(Vec::new());
    let mut other = response();
    other.0.extra_fields = vec![extra("scope", "\"\"")];
    assert_eq!(standard, other);
    assert_ne!(standard, response());

    let mut first = response();
    first.0.expires_in = Some(5);
    first.0.extra_fields = vec![extra("team", "1")];
    let mut second = response();
    second.0.extra_fields = vec![extra("team", "1"), extra("expires_in", "5")];
    assert_ne!(first, second);

    let mut null = response();
    null.0.extra_fields = vec![ExtraTokenField {
        name: "team".to_string(),
        value: JsonValue::Null,
    }];
    let mut written = response();
    written.0.extra_fields = vec![extra("team", "null")];
    assert_eq!(null, written);
}

#[test]
fn the_members_of_a_response() {
    let mut response = sample_tokens().token_response.0;
    response.access_token = "a\"b".to_string();
    response.token_type = TokenType::Mac;
    response.expires_in = Some(u64::MAX);
    response.refresh_token = Some("r".to_string());
    response.scopes = Some(vec!["x".to_string(), "y".to_string()]);
    response.extra_fields = vec![ExtraTokenField {
        name: "team".to_string(),
        value: JsonValue::Document("[1]".to_string()),
    }];
    let members = response.written_members();
    let expected = [
        ("access_token", "\"a\\\"b\""),
        ("token_type", "\"mac\""),
        ("expires_in", "18446744073709551615"),
        ("refresh_token", "\"r\""),
        ("scope", "\"x y\""),
        ("team", "[1]"),
    ];
    assert_eq!(members.len(), expected.len());
    for (member, (name, value)) in members.iter().zip(expected) {
        assert_eq!((member.0.as_str(), member.1.as_str()), (name, value));
    }
    for number in [0, 9, 10, 99, 100, 1_234_567_890, u64::MAX] {
        assert_eq!(write_decimal(number), number.to_string());
    }
}

#[test]
fn the_clock_reads_the_present() {
    let before = now_millis();
    let reading = unix_time().expect("the clock is set after 1970");
    let after = now_millis();
    let millis = time_of(Some(reading)).as_millis() as u64;
    assert!(before <= millis && millis <= after);
    assert!(time_of(None).is_zero());
}
