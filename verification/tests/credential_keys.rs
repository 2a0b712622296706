//! Store keys, names in the encrypted store, and the file of credentials.

use agent_turns::oauth::fallback_file::{FallbackFile, FallbackTokenEntry, FALLBACK_FILENAME};
use agent_turns::oauth::keys::{
    compute_secret_name, compute_store_key, MCP_OAUTH_SECRET_PREFIX,
};
use sha2::{Digest, Sha256};

fn hex(bytes: &[u8]) -> String {
    bytes.iter().map(|byte| format!("{byte:02x}")).collect()
}

fn payload(url: &str) -> String {
    let mut object = serde_json::Map::new();
    object.insert("type".to_string(), serde_json::Value::from("http"));
    object.insert("url".to_string(), serde_json::Value::from(url));
    object.insert(
        "headers".to_string(),
        serde_json::Value::Object(serde_json::Map::new()),
    );
    serde_json::to_string(&serde_json::Value::Object(object)).expect("JSON")
}

#[test]
fn the_store_key_is_the_name_and_a_digest() {
    for (name, url) in [
        ("test-server", "https://example.test"),
        ("", ""),
        ("name|with|pipes", "https://example.test/\"quoted\"\n"),
        ("Grüße", "https://example.test/世界"),
    ] {
        let digest = hex(&Sha256::digest(payload(url).as_bytes()));
        assert_eq!(
            compute_store_key(name, url),
            format!("{name}|{}", &digest[..16])
        );
    }
}

#[test]
fn the_secret_name_is_a_digest_of_the_store_key() {
    let key = compute_store_key("test-server", "https://example.test");
    let digest = hex(&Sha256::digest(key.as_bytes())).to_uppercase();
    let name = compute_secret_name("test-server", "https://example.test");
    assert_eq!(
        name.as_str(),
        format!("{MCP_OAUTH_SECRET_PREFIX}_{}", &digest[..32])
    );
    assert_eq!(name.as_str().len(), 42);
}

#[test]
fn keys_tell_servers_apart() {
    let key = |name, url| compute_store_key(name, url);
    assert_eq!(
        key("server", "https://one.test"),
        key("server", "https://one.test")
    );
    assert_ne!(
        key("server", "https://one.test"),
        key("other", "https://one.test")
    );
    assert_ne!(
        key("server", "https://one.test"),
        key("server", "https://two.test")
    );
}

#[test]
fn secret_names_are_restricted() {
    for (name, url) in [("test-server", "https://example.test"), ("a|b c", ""), ("Ä", "ö")] {
        let secret = compute_secret_name(name, url);
        assert!(secret
            .as_str()
            .chars()
            .all(|c| c.is_ascii_uppercase() || c.is_ascii_digit() || c == '_'));
    }
}

fn entry(name: &str) -> FallbackTokenEntry {
    FallbackTokenEntry {
        server_name: name.to_string(),
        server_url: "https://example.test".to_string(),
        client_id: "client-id".to_string(),
        access_token: "access-token".to_string(),
        expires_at: None,
        refresh_token: None,
        scopes: Vec::new(),
    }
}

#[test]
fn the_file_keeps_its_keys_in_order() {
    let file = FallbackFile::new();
    assert!(file.is_empty());
    let file = file
        .insert("b".to_string(), entry("second"))
        .insert("a".to_string(), entry("first"))
        .insert("c".to_string(), entry("third"))
        .insert("b".to_string(), entry("replaced"));
    let keys: Vec<&str> = file.entries().iter().map(|kept| kept.key.as_str()).collect();
    assert_eq!(keys, ["a", "b", "c"]);
    assert_eq!(
        file.get("b").map(|kept| kept.server_name.as_str()),
        Some("replaced")
    );
    assert!(file.get("d").is_none());

    let (file, removed) = file.remove("b");
    assert!(removed);
    let (file, removed) = file.remove("b");
    assert!(!removed);
    assert_eq!(file.entries().len(), 2);
}

#[test]
fn keys_are_ordered_by_their_characters() {
    let file = FallbackFile::new()
        .insert("ab".to_string(), entry("1"))
        .insert("a".to_string(), entry("2"))
        .insert("ä".to_string(), entry("3"))
        .insert("Z".to_string(), entry("4"))
        .insert("".to_string(), entry("5"));
    let keys: Vec<&str> = file.entries().iter().map(|kept| kept.key.as_str()).collect();
    assert_eq!(keys, ["", "Z", "a", "ab", "ä"]);
}

#[test]
fn the_file_has_its_name() {
    assert_eq!(FALLBACK_FILENAME, ".credentials.json");
}
