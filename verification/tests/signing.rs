//! The token signer against a reference verifier built directly on the
//! sha2, hmac, and base64 crates: byte-exact layout for a fixed nonce,
//! a valid signature on every token, the query hash bound to exactly
//! the canonical string, and distinct tokens from repeated signings.

use base64::Engine;
use hmac::Mac;
use sha2::Digest;
use upbit_client::credentials::{CredentialStore, Credentials};
use upbit_client::errors::ErrorKind;
use upbit_client::query::canonical_query_bytes;
use upbit_client::token::{authorization_value, sign_for, sign_token, sign_with_nonce};

fn creds(access: &str, secret: &str) -> Credentials {
    Credentials { access_key: access.to_string(), secret_key: secret.to_string() }
}

fn b64(data: &[u8]) -> String {
    base64::engine::general_purpose::URL_SAFE_NO_PAD.encode(data)
}

fn hmac_sha512_ref(key: &[u8], msg: &[u8]) -> Vec<u8> {
    let mut mac = <hmac::Hmac<sha2::Sha512> as hmac::KeyInit>::new_from_slice(key).unwrap();
    mac.update(msg);
    mac.finalize().into_bytes().to_vec()
}

/// A reference verifier: checks the three-segment layout and recomputes
/// the HMAC-SHA-512 tag over the signing input under the secret key.
fn verify_token(token: &str, secret: &str) -> bool {
    let segments: Vec<&str> = token.split('.').collect();
    if segments.len() != 3 {
        return false;
    }
    let signing_input = format!("{}.{}", segments[0], segments[1]);
    let expected = b64(&hmac_sha512_ref(secret.as_bytes(), signing_input.as_bytes()));
    segments[2] == expected
}

#[test]
fn token_layout_matches_reference_for_fixed_nonce() {
    let c = creds("open-key", "secret-key");
    let nonce = "e9c14b91-d7a9-4c3e-9f52-1c1b6c8f0a77";
    let token = sign_with_nonce(&c, nonce, None);

    let header = b64(b"{\"alg\":\"HS512\",\"typ\":\"JWT\"}");
    let payload = b64(
        format!("{{\"access_key\":\"open-key\",\"nonce\":\"{nonce}\"}}").as_bytes(),
    );
    let signing_input = format!("{header}.{payload}");
    let tag = b64(&hmac_sha512_ref(b"secret-key", signing_input.as_bytes()));
    let expected = format!("{signing_input}.{tag}");
    assert_eq!(String::from_utf8(token).unwrap(), expected);
}

#[test]
fn token_with_query_carries_hash_of_exact_canonical_string() {
    let c = creds("ak", "sk");
    let nonce = "00000000-0000-4000-8000-000000000000";
    let params = vec![
        ("market".to_string(), "KRW-ETH".to_string()),
        ("count".to_string(), "10".to_string()),
    ];
    let canonical = canonical_query_bytes(&params).unwrap();
    assert_eq!(canonical, b"market=KRW-ETH&count=10".to_vec());
    let token = sign_with_nonce(&c, nonce, Some(&canonical));

    let digest = sha2::Sha512::digest(b"market=KRW-ETH&count=10");
    let hex: String = digest.iter().map(|b| format!("{b:02x}")).collect();
    let payload_json = format!(
        "{{\"access_key\":\"ak\",\"nonce\":\"{nonce}\",\"query_hash\":\"{hex}\",\"query_hash_alg\":\"SHA512\"}}"
    );
    let header = b64(b"{\"alg\":\"HS512\",\"typ\":\"JWT\"}");
    let payload = b64(payload_json.as_bytes());
    let signing_input = format!("{header}.{payload}");
    let tag = b64(&hmac_sha512_ref(b"sk", signing_input.as_bytes()));
    let expected = format!("{signing_input}.{tag}");
    assert_eq!(String::from_utf8(token).unwrap(), expected);
}

#[test]
fn signing_twice_gives_two_distinct_valid_tokens() {
    let c = creds("ak", "sk");
    let first = sign_token(&c, None);
    let second = sign_token(&c, None);
    assert_ne!(first.value, second.value);
    assert!(verify_token(&first.value, "sk"));
    assert!(verify_token(&second.value, "sk"));
}

#[test]
fn signing_twice_with_query_gives_two_distinct_valid_tokens() {
    let c = creds("ak", "sk");
    let params = vec![("currency".to_string(), "ETH".to_string())];
    let canonical = canonical_query_bytes(&params).unwrap();
    let first = sign_token(&c, Some(&canonical));
    let second = sign_token(&c, Some(&canonical));
    assert_ne!(first.value, second.value);
    assert!(verify_token(&first.value, "sk"));
    assert!(verify_token(&second.value, "sk"));
}

#[test]
fn json_escaping_keeps_the_claims_parseable() {
    let c = creds("a\"b\\c", "sk");
    let nonce = "11111111-2222-4333-8444-555555555555";
    let token = String::from_utf8(sign_with_nonce(&c, nonce, None)).unwrap();
    let payload_b64 = token.split('.').nth(1).unwrap();
    let payload = base64::engine::general_purpose::URL_SAFE_NO_PAD
        .decode(payload_b64)
        .unwrap();
    let parsed: serde_json::Value = serde_json::from_slice(&payload).unwrap();
    assert_eq!(parsed["access_key"], "a\"b\\c");
    assert_eq!(parsed["nonce"], nonce);
}

#[test]
fn authorization_value_is_bearer_token() {
    let c = creds("ak", "sk");
    let token = sign_token(&c, None);
    let auth = authorization_value(&token);
    assert_eq!(auth, format!("Bearer {}", token.value));
}

#[test]
fn store_hands_out_whole_pairs_only() {
    let mut store = CredentialStore::new();
    assert!(store.credentials().is_err());
    store.set_access_key("ak");
    let half = store.credentials();
    match half {
        Ok(_) => panic!("a half-configured store must not hand out credentials"),
        Err(err) => assert_eq!(err.name, "internal_missing_credentials"),
    }
    store.set_secret_key("sk");
    let whole = store.credentials().unwrap();
    assert_eq!(whole.access_key, "ak");
    assert_eq!(whole.secret_key, "sk");
    store.set_credentials("ak2", "sk2");
    let replaced = store.credentials().unwrap();
    assert_eq!(replaced.access_key, "ak2");
    assert_eq!(replaced.secret_key, "sk2");
}

#[test]
fn signing_through_the_store_needs_a_whole_pair() {
    let mut store = CredentialStore::new();
    match sign_for(&store, None) {
        Ok(_) => panic!("an unconfigured store must not sign"),
        Err(e) => assert_eq!(e.kind, ErrorKind::LocalMissingCredentials),
    }
    store.set_credentials("ak", "sk");
    let token = sign_for(&store, None).unwrap_or_else(|_| panic!("configured store must sign"));
    assert!(verify_token(&token.value, "sk"));
}
