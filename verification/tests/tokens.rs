//! The token codec and the reset-code derivation against the real
//! primitives.

use sha2::Digest;

use verifit_auth::reset_code::generate_reset_code;
use verifit_auth::token::create_jwt;
use verifit_auth::token::is_valid;
use verifit_auth::token::TokenValidity;

const SECRET: &[u8] = b"test-signing-secret";

fn expired_token(secret: &[u8]) -> String {
    let now = chrono::Utc::now().timestamp() as u64;
    let mut payload = serde_json::Map::new();
    payload.insert("iat".to_string(), serde_json::Value::from(now - 7200));
    payload.insert("exp".to_string(), serde_json::Value::from(now - 3600));
    let key = jsonwebtoken::EncodingKey::from_secret(secret);
    let header = jsonwebtoken::Header::default();
    jsonwebtoken::encode(&header, &serde_json::Value::Object(payload), &key).unwrap()
}

#[test]
fn issued_token_is_valid() {
    let token = create_jwt(SECRET, 3600).unwrap();
    assert_eq!(is_valid(SECRET, token.as_str()), TokenValidity::Valid);
}

#[test]
fn garbage_token_is_invalid() {
    assert_eq!(is_valid(SECRET, "definitely.not.a-token"), TokenValidity::Invalid);
    assert_eq!(is_valid(SECRET, ""), TokenValidity::Invalid);
}

#[test]
fn token_under_another_secret_is_invalid() {
    let token = create_jwt(b"some-other-secret", 3600).unwrap();
    assert_eq!(is_valid(SECRET, token.as_str()), TokenValidity::Invalid);
}

#[test]
fn tampered_token_is_invalid() {
    let token = create_jwt(SECRET, 3600).unwrap();
    let mut tampered = token.clone();
    let last = if tampered.ends_with('A') { "B" } else { "A" };
    tampered.truncate(tampered.len() - 1);
    tampered.push_str(last);
    assert_eq!(is_valid(SECRET, tampered.as_str()), TokenValidity::Invalid);
}

#[test]
fn expired_token_is_reported_expired() {
    let token = expired_token(SECRET);
    assert_eq!(is_valid(SECRET, token.as_str()), TokenValidity::Expired);
}

/// A well-signed token carrying an extra `aud` claim beside `iat`/`exp`.
fn token_with_aud(secret: &[u8], iat: u64, exp: u64) -> String {
    let mut payload = serde_json::Map::new();
    payload.insert("iat".to_string(), serde_json::Value::from(iat));
    payload.insert("exp".to_string(), serde_json::Value::from(exp));
    payload.insert("aud".to_string(), serde_json::Value::from("somewhere"));
    let key = jsonwebtoken::EncodingKey::from_secret(secret);
    let header = jsonwebtoken::Header::default();
    jsonwebtoken::encode(&header, &serde_json::Value::Object(payload), &key).unwrap()
}

#[test]
fn extra_audience_claim_does_not_make_a_signed_token_invalid() {
    // The structurally-invalid verdict must not depend on the clock: a
    // well-signed token with an audience claim is valid until its expiry
    // and expired after it, never invalid.
    let now = chrono::Utc::now().timestamp() as u64;
    let fresh = token_with_aud(SECRET, now, now + 3600);
    assert_eq!(is_valid(SECRET, fresh.as_str()), TokenValidity::Valid);
    let stale = token_with_aud(SECRET, now - 7200, now - 3600);
    assert_eq!(is_valid(SECRET, stale.as_str()), TokenValidity::Expired);
}

#[test]
fn issued_token_carries_iat_and_exp_a_ttl_apart() {
    let token = create_jwt(SECRET, 1234).unwrap();
    let key = jsonwebtoken::DecodingKey::from_secret(SECRET);
    let validation = jsonwebtoken::Validation::new(jsonwebtoken::Algorithm::HS256);
    let data =
        jsonwebtoken::decode::<serde_json::Value>(token.as_str(), &key, &validation).unwrap();
    let iat = data.claims.get("iat").unwrap().as_u64().unwrap();
    let exp = data.claims.get("exp").unwrap().as_u64().unwrap();
    assert_eq!(exp - iat, 1234);
}

#[test]
fn two_ttls_give_two_tokens() {
    let a = create_jwt(SECRET, 3600).unwrap();
    let b = create_jwt(SECRET, 7200).unwrap();
    assert_ne!(a, b);
}

#[test]
fn reset_code_is_the_padded_digest_prefix() {
    let code = generate_reset_code("some-reset-token");
    let digest = sha2::Sha256::digest(b"some-reset-token");
    let expected = format!("{:03}{:03}{:03}", digest[0], digest[1], digest[2]);
    assert_eq!(code, expected);
}

#[test]
fn reset_code_has_nine_digits_for_every_token() {
    for token in ["", "a", "some-reset-token", "another token with spaces"] {
        let code = generate_reset_code(token);
        assert_eq!(code.len(), 9);
        assert!(code.chars().all(|c| c.is_ascii_digit()));
    }
}

#[test]
fn reset_codes_differ_for_different_tokens() {
    let a = generate_reset_code("token-one");
    let b = generate_reset_code("token-two");
    assert_ne!(a, b);
}
