//! The keys under which credentials are stored.

use vstd::prelude::*;
use vstd::string::{StrSliceExecFns, StringExecFns};

use crate::duplicate::Duplicate;
use crate::text::joined;

verus! {

/// The service under which the keyring holds credentials.
pub const KEYRING_SERVICE: &'static str = "Codex MCP Credentials";

/// What every name in the encrypted store starts with.
pub const MCP_OAUTH_SECRET_PREFIX: &'static str = "MCP_OAUTH";

/// The server type that a store key is computed for.
pub const MCP_SERVER_TYPE: &'static str = "http";

/// `serde_json::Error`, carried unread.
#[verifier::external_type_specification]
#[verifier::external_body]
pub struct ExJsonError(serde_json::Error);

/// A member of a JSON object, given the JSON text of its value.
pub open spec fn json_member(key: Seq<char>, value: Seq<char>) -> Seq<char> {
    crate::json::json_string(key) + ":"@ + value
}

/// A JSON object of three members.
pub open spec fn json_object_of(a: Seq<char>, b: Seq<char>, c: Seq<char>) -> Seq<char> {
    "{"@ + a + ","@ + b + ","@ + c + "}"@
}

/// Both texts have a first character, and that of `a` is less than that of `b`.
pub open spec fn begins_before(a: Seq<char>, b: Seq<char>) -> bool {
    a.len() > 0 && b.len() > 0 && a[0] < b[0]
}

/// The JSON text of an object with two text members and an empty object as its third member, as
/// `serde_json` writes it: whether the members keep the order in which they were added rests on how
/// `serde_json` is built.
pub uninterp spec fn json_object_text(
    first_key: Seq<char>,
    first_value: Seq<char>,
    second_key: Seq<char>,
    second_value: Seq<char>,
    empty_key: Seq<char>,
) -> Seq<char>;

/// Calls `serde_json::to_string` on an object with two text members and an empty object as its
/// third member. It does not fail: the keys are texts, and the text is written to memory. The text
/// is named; of it this is said: it holds the members in the order in which they were added, or in
/// the order of their keys, with nothing between them but commas.
#[verifier::external_body]
fn json_object(
    first_key: &str,
    first_value: &str,
    second_key: &str,
    second_value: &str,
    empty_key: &str,
) -> (text: Result<String, serde_json::Error>)
    requires
        begins_before(empty_key@, first_key@),
        begins_before(first_key@, second_key@),
    ensures
        match text {
            Ok(t) => {
                let first = json_member(first_key@, crate::json::json_string(first_value@));
                let second = json_member(second_key@, crate::json::json_string(second_value@));
                let empty = json_member(empty_key@, "{}"@);
                &&& t@ == json_object_text(
                    first_key@,
                    first_value@,
                    second_key@,
                    second_value@,
                    empty_key@,
                )
                &&& t@ == json_object_of(first, second, empty) || t@ == json_object_of(
                    empty,
                    first,
                    second,
                )
            },
            Err(_) => false,
        },
{
    let mut object = serde_json::Map::new();
    object.insert(first_key.to_string(), serde_json::Value::String(first_value.to_string()));
    object.insert(second_key.to_string(), serde_json::Value::String(second_value.to_string()));
    object.insert(empty_key.to_string(), serde_json::Value::Object(serde_json::Map::new()));
    serde_json::to_string(&serde_json::Value::Object(object))
}

/// The SHA-256 digest of `bytes`.
pub uninterp spec fn sha256_digest(bytes: Seq<u8>) -> Seq<u8>;

/// Calls `Sha256` of the crate `sha2`. The digest is named; of it this is said: it has 32 bytes.
#[verifier::external_body]
fn sha256(bytes: &[u8]) -> (digest: Vec<u8>)
    ensures
        digest@ == sha256_digest(bytes@),
        digest@.len() == 32,
{
    let mut hasher = <sha2::Sha256 as sha2::Digest>::new();
    sha2::Digest::update(&mut hasher, bytes);
    sha2::Digest::finalize(hasher).to_vec()
}

/// The digits of `bytes`, two for each byte, the higher half first.
pub open spec fn hex_text(bytes: Seq<u8>, digits: Seq<char>) -> Seq<char> {
    Seq::new(
        2 * bytes.len(),
        |i: int|
            if i % 2 == 0 {
                digits[(bytes[i / 2] / 16) as int]
            } else {
                digits[(bytes[i / 2] % 16) as int]
            },
    )
}

/// The first `count` digits of `bytes`.
pub open spec fn hex_prefix(bytes: Seq<u8>, digits: Seq<char>, count: nat) -> Seq<char> {
    Seq::new(count, |i: int| hex_text(bytes, digits)[i])
}

/// `c` is one of `digits`.
pub open spec fn is_one_of(c: char, digits: Seq<char>) -> bool {
    exists|n: int| 0 <= n < digits.len() && #[trigger] digits[n] == c
}

/// Writes `bytes` with the sixteen `digits`.
fn hex_string(bytes: &[u8], digits: &str) -> (text: String)
    requires
        digits@.len() == 16,
    ensures
        text@ == hex_text(bytes@, digits@),
{
    let mut text: String = String::new();
    let mut index: usize = 0;
    while index < bytes.len()
        invariant
            index <= bytes@.len(),
            digits@.len() == 16,
            text@ == hex_text(bytes@.take(index as int), digits@),
        decreases bytes@.len() - index,
    {
        let byte: u8 = bytes[index];
        let high: usize = (byte / 16) as usize;
        let low: usize = (byte % 16) as usize;
        text.append(digits.substring_char(high, high + 1));
        text.append(digits.substring_char(low, low + 1));
        assert(text@ =~= hex_text(bytes@.take(index + 1), digits@));
        index += 1;
    }
    assert(bytes@.take(bytes@.len() as int) =~= bytes@);
    text
}

/// The JSON payload of a server's store key: its type, its address, and no headers.
pub open spec fn key_payload(server_url: Seq<char>) -> Seq<char> {
    json_object_text("type"@, MCP_SERVER_TYPE@, "url"@, server_url, "headers"@)
}

/// `text` is such a payload, its members in the one or the other order.
pub open spec fn is_key_payload(text: Seq<char>, server_url: Seq<char>) -> bool {
    let server_type = json_member("type"@, crate::json::json_string(MCP_SERVER_TYPE@));
    let address = json_member("url"@, crate::json::json_string(server_url));
    let headers = json_member("headers"@, "{}"@);
    text == json_object_of(server_type, address, headers) || text == json_object_of(
        headers,
        server_type,
        address,
    )
}

/// The store key of a server: its name, `|`, and the first 16 lower-case digits of the SHA-256
/// digest of its JSON payload.
pub open spec fn store_key(server_name: Seq<char>, server_url: Seq<char>) -> Seq<char> {
    server_name + "|"@ + hex_prefix(
        sha256_digest(vstd::utf8::encode_utf8(key_payload(server_url))),
        "0123456789abcdef"@,
        16,
    )
}

/// The first `count` digits of the digest of `message`.
fn digest_prefix(message: &str, digits: &str, count: usize) -> (prefix: String)
    requires
        digits@.len() == 16,
        count <= 64,
    ensures
        prefix@ == hex_prefix(
            sha256_digest(vstd::utf8::encode_utf8(message@)),
            digits@,
            count as nat,
        ),
        forall|i: int| 0 <= i < count ==> is_one_of(#[trigger] prefix@[i], digits@),
{
    let digest = sha256(message.as_bytes());
    let hex = hex_string(digest.as_slice(), digits);
    let head = hex.as_str().substring_char(0, count);
    assert(head@ =~= hex_prefix(digest@, digits@, count as nat));
    assert forall|i: int| 0 <= i < count implies is_one_of(#[trigger] head@[i], digits@) by {
        let byte: u8 = digest@[i / 2];
        if i % 2 == 0 {
            assert(head@[i] == digits@[(byte / 16) as int]);
        } else {
            assert(head@[i] == digits@[(byte % 16) as int]);
        }
    }
    head.to_owned()
}

/// Computes the first 16 lower-case digits of the SHA-256 digest of `payload`.
fn sha_256_prefix(payload: &str) -> (prefix: String)
    ensures
        prefix@ == hex_prefix(
            sha256_digest(vstd::utf8::encode_utf8(payload@)),
            "0123456789abcdef"@,
            16,
        ),
        forall|i: int| 0 <= i < 16 ==> is_one_of(#[trigger] prefix@[i], "0123456789abcdef"@),
{
    proof {
        reveal_strlit("0123456789abcdef");
    }
    digest_prefix(payload, "0123456789abcdef", 16)
}

/// Computes the key under which the credentials of a server are stored.
pub fn compute_store_key(server_name: &str, server_url: &str) -> (key: String)
    ensures
        key@ == store_key(server_name@, server_url@),
        is_key_payload(key_payload(server_url@), server_url@),
        forall|i: int|
            server_name@.len() < i < key@.len() ==> is_one_of(
                #[trigger] key@[i],
                "0123456789abcdef"@,
            ),
{
    proof {
        reveal_strlit("type");
        reveal_strlit("url");
        reveal_strlit("headers");
    }
    let payload = match json_object("type", MCP_SERVER_TYPE, "url", server_url, "headers") {
        Ok(payload) => payload,
        Err(_) => {
            assert(false);
            String::new()
        },
    };
    let mut key: String = joined(server_name, "|");
    let prefix = sha_256_prefix(payload.as_str());
    key.append(prefix.as_str());
    proof {
        reveal_strlit("|");
        assert forall|i: int| server_name@.len() < i < key@.len() implies is_one_of(
            #[trigger] key@[i],
            "0123456789abcdef"@,
        ) by {
            assert(key@[i] == prefix@[i - server_name@.len() - 1]);
        }
    }
    key
}

/// The characters that a name in the encrypted store may hold.
pub open spec fn is_secret_name_char(c: char) -> bool {
    ('A' <= c && c <= 'Z') || ('0' <= c && c <= '9') || c == '_'
}

/// A name in the encrypted store: not empty, and made of `A-Z`, `0-9` and `_`.
#[derive(Debug, PartialEq, Eq)]
pub struct SecretName {
    name: String,
}

impl View for SecretName {
    type V = Seq<char>;

    closed spec fn view(&self) -> Seq<char> {
        self.name@
    }
}

impl DeepView for SecretName {
    type V = Seq<char>;

    open spec fn deep_view(&self) -> Seq<char> {
        self@
    }
}

impl Duplicate for SecretName {
    fn duplicate(&self) -> (copy: Self) {
        proof {
            use_type_invariant(self);
        }
        SecretName { name: self.name.clone() }
    }
}

impl Clone for SecretName {
    fn clone(&self) -> (copy: Self)
        ensures
            copy@ == self@,
    {
        self.duplicate()
    }
}

impl SecretName {
    #[verifier::type_invariant]
    spec fn well_formed(self) -> bool {
        self.name@.len() > 0 && forall|i: int|
            0 <= i < self.name@.len() ==> is_secret_name_char(#[trigger] self.name@[i])
    }

    /// The text of the name.
    pub fn as_str(&self) -> (text: &str)
        ensures
            text@ == self@,
            text@.len() > 0,
            forall|i: int| 0 <= i < text@.len() ==> is_secret_name_char(#[trigger] text@[i]),
    {
        proof {
            use_type_invariant(self);
        }
        self.name.as_str()
    }
}

/// The name of a server's credentials in the encrypted store: the prefix, `_`, and the first 32
/// upper-case digits of the SHA-256 digest of the store key.
pub open spec fn secret_name(server_name: Seq<char>, server_url: Seq<char>) -> Seq<char> {
    MCP_OAUTH_SECRET_PREFIX@ + "_"@ + hex_prefix(
        sha256_digest(vstd::utf8::encode_utf8(store_key(server_name, server_url))),
        "0123456789ABCDEF"@,
        32,
    )
}

/// Computes the name of a server's credentials in the encrypted store.
///
/// The store key holds the server's own name and a `|`, which a name there may not. Hashing the
/// key gives a name that is allowed and always the same for one server: the prefix, `_`, and 32
/// upper-case digits.
pub fn compute_secret_name(server_name: &str, server_url: &str) -> (name: SecretName)
    ensures
        name@ == secret_name(server_name@, server_url@),
        name@.len() == 42,
        forall|i: int| 0 <= i < name@.len() ==> is_secret_name_char(#[trigger] name@[i]),
        forall|i: int| 10 <= i < 42 ==> is_one_of(#[trigger] name@[i], "0123456789ABCDEF"@),
{
    let key = compute_store_key(server_name, server_url);
    proof {
        reveal_strlit("0123456789ABCDEF");
        reveal_strlit("MCP_OAUTH");
        reveal_strlit("_");
    }
    let prefix = digest_prefix(key.as_str(), "0123456789ABCDEF", 32);
    let mut text: String = joined(MCP_OAUTH_SECRET_PREFIX, "_");
    text.append(prefix.as_str());
    assert forall|i: int| 0 <= i < text@.len() implies is_secret_name_char(#[trigger] text@[i]) by {
        if i >= 10 {
            assert(text@[i] == prefix@[i - 10]);
        }
    }
    SecretName { name: text }
}

/// Servers with different names have different store keys, whatever their addresses are.
pub proof fn law_names_have_their_own_keys(
    server_name: Seq<char>,
    server_url: Seq<char>,
    other_name: Seq<char>,
    other_url: Seq<char>,
)
    requires
        server_name != other_name,
    ensures
        store_key(server_name, server_url) != store_key(other_name, other_url),
{
    reveal_strlit("|");
    let key = store_key(server_name, server_url);
    let other = store_key(other_name, other_url);
    if key == other {
        assert(key.len() == server_name.len() + 17);
        assert(other.len() == other_name.len() + 17);
        assert(key.take(server_name.len() as int) =~= server_name);
        assert(other.take(other_name.len() as int) =~= other_name);
    }
}

/// Each byte is written as two digits, the one for its sixteens first.
pub proof fn law_bytes_are_written_in_pairs(bytes: Seq<u8>, digits: Seq<char>, i: int)
    requires
        0 <= i < bytes.len(),
    ensures
        hex_text(bytes, digits).len() == 2 * bytes.len(),
        hex_text(bytes, digits)[2 * i] == digits[(bytes[i] / 16) as int],
        hex_text(bytes, digits)[2 * i + 1] == digits[(bytes[i] % 16) as int],
{
    assert((2 * i) / 2 == i);
    assert((2 * i + 1) / 2 == i);
}

/// The key of a server is its name, a bar, and the first eight bytes of the digest of what is
/// known of the server, in lower-case digits.
pub proof fn law_shape_of_a_store_key(server_name: Seq<char>, server_url: Seq<char>, i: int)
    requires
        0 <= i < 8,
    ensures
        ({
            let key = store_key(server_name, server_url);
            let digest = sha256_digest(
                vstd::utf8::encode_utf8(
                    json_object_text("type"@, "http"@, "url"@, server_url, "headers"@),
                ),
            );
            let start = server_name.len() as int;
            &&& key.len() == start + 17
            &&& key.take(start) == server_name
            &&& key[start] == '|'
            &&& digest.len() >= 8 ==> {
                &&& key[start + 1 + 2 * i] == "0123456789abcdef"@[(digest[i] / 16) as int]
                &&& key[start + 2 + 2 * i] == "0123456789abcdef"@[(digest[i] % 16) as int]
            }
        }),
{
    reveal_strlit("|");
    let key = store_key(server_name, server_url);
    let digest = sha256_digest(vstd::utf8::encode_utf8(key_payload(server_url)));
    let start = server_name.len() as int;
    let digits = "0123456789abcdef"@;
    assert(key.take(start) =~= server_name);
    if digest.len() >= 8 {
        law_bytes_are_written_in_pairs(digest, digits, i);
        assert(key[start + 1 + 2 * i] == hex_prefix(digest, digits, 16)[2 * i]);
        assert(key[start + 2 + 2 * i] == hex_prefix(digest, digits, 16)[2 * i + 1]);
    }
}

/// The name of a server's secret is `MCP_OAUTH`, an underscore, and the first sixteen bytes of the
/// digest of the server's key, in upper-case digits.
pub proof fn law_shape_of_a_secret_name(server_name: Seq<char>, server_url: Seq<char>, i: int)
    requires
        0 <= i < 16,
    ensures
        ({
            let name = secret_name(server_name, server_url);
            let digest = sha256_digest(
                vstd::utf8::encode_utf8(store_key(server_name, server_url)),
            );
            &&& name.len() == 42
            &&& name.take(10) == "MCP_OAUTH_"@
            &&& digest.len() >= 16 ==> {
                &&& name[10 + 2 * i] == "0123456789ABCDEF"@[(digest[i] / 16) as int]
                &&& name[11 + 2 * i] == "0123456789ABCDEF"@[(digest[i] % 16) as int]
            }
        }),
{
    reveal_strlit("MCP_OAUTH");
    reveal_strlit("_");
    reveal_strlit("MCP_OAUTH_");
    let name = secret_name(server_name, server_url);
    let digest = sha256_digest(vstd::utf8::encode_utf8(store_key(server_name, server_url)));
    let digits = "0123456789ABCDEF"@;
    assert(name.take(10) =~= "MCP_OAUTH_"@);
    if digest.len() >= 16 {
        law_bytes_are_written_in_pairs(digest, digits, i);
        assert(name[10 + 2 * i] == hex_prefix(digest, digits, 32)[2 * i]);
        assert(name[11 + 2 * i] == hex_prefix(digest, digits, 32)[2 * i + 1]);
    }
}

} // verus!
