//! Password-reset scenarios: the request, the derived code, the change,
//! and the distinct failure modes.

use sha2::Digest;

use verifit_auth::errors::AuthError;
use verifit_auth::guard::guard;
use verifit_auth::reset_code::generate_reset_code;
use verifit_auth::store::AccountStore;
use verifit_auth::users::change_password;
use verifit_auth::users::create_user;
use verifit_auth::users::login;
use verifit_auth::users::request_password_reset;
use verifit_auth::users::verify_email;
use verifit_auth::users::AuthConfig;
use verifit_auth::users::NotificationKind;
use verifit_auth::users::PasswordResetUser;
use verifit_auth::users::QueryParams;
use verifit_auth::users::RequestPasswordResetUser;
use verifit_auth::users::RequestUser;

fn test_config() -> AuthConfig {
    AuthConfig {
        secret: b"test-signing-secret".to_vec(),
        session_ttl_seconds: 3600,
        reset_ttl_seconds: 3600,
        verification_ttl_seconds: 3600,
    }
}

fn request(username: &str, password: &str) -> RequestUser {
    RequestUser { username: username.to_string(), password: password.to_string() }
}

/// A verified account with an active session; returns its session token.
fn verified_account(store: &mut AccountStore, config: &AuthConfig) -> String {
    let (_, note) = create_user(store, config, &request("a@b.com", "abcd1234")).unwrap();
    verify_email(
        store,
        config,
        &QueryParams { username: "a@b.com".to_string(), token: note.content },
    )
    .unwrap();
    let response = login(store, config, &request("a@b.com", "abcd1234")).unwrap();
    response.token.unwrap()
}

/// A well-signed token whose expiry lies one hour in the past, beyond the
/// codec's leeway.
fn expired_token(secret: &[u8]) -> String {
    let now = chrono::Utc::now().timestamp() as u64;
    let mut payload = serde_json::Map::new();
    payload.insert("iat".to_string(), serde_json::Value::from(now - 7200));
    payload.insert("exp".to_string(), serde_json::Value::from(now - 3600));
    let key = jsonwebtoken::EncodingKey::from_secret(secret);
    let header = jsonwebtoken::Header::default();
    jsonwebtoken::encode(&header, &serde_json::Value::Object(payload), &key).unwrap()
}

#[test]
fn reset_round_trip_invalidates_the_old_password() {
    let config = test_config();
    let mut store = AccountStore::new();
    let session = verified_account(&mut store, &config);

    let note = request_password_reset(
        &mut store,
        &config,
        &RequestPasswordResetUser { username: "a@b.com".to_string() },
    )
    .expect("reset request should succeed");
    assert!(matches!(note.kind, NotificationKind::PasswordResetCode));
    assert_eq!(note.recipient, "a@b.com");
    assert_eq!(note.content.len(), 9);

    // A pending reset invalidates the current session.
    assert_eq!(guard(&store, &config, Some(session.as_str())), Err(AuthError::Unauthorized));

    change_password(
        &mut store,
        &config,
        &PasswordResetUser {
            username: "a@b.com".to_string(),
            new_password: "fresh5678".to_string(),
            reset_code: note.content.clone(),
        },
    )
    .expect("password change should succeed");

    let old = login(&mut store, &config, &request("a@b.com", "abcd1234"));
    assert_eq!(old.err(), Some(AuthError::Unauthorized));
    let fresh = login(&mut store, &config, &request("a@b.com", "fresh5678"));
    assert!(fresh.is_ok());
}

#[test]
fn reset_code_matches_the_digest_of_the_stored_token() {
    let config = test_config();
    let mut store = AccountStore::new();
    verified_account(&mut store, &config);
    let note = request_password_reset(
        &mut store,
        &config,
        &RequestPasswordResetUser { username: "a@b.com".to_string() },
    )
    .unwrap();
    let i = store.find_index_by_username("a@b.com").unwrap();
    let stored = store.account_at(i).reset_token.clone().expect("reset pending");
    let digest = sha2::Sha256::digest(stored.as_bytes());
    let expected = format!("{:03}{:03}{:03}", digest[0], digest[1], digest[2]);
    assert_eq!(note.content, expected);
    assert_eq!(generate_reset_code(stored.as_str()), expected);
}

#[test]
fn reset_request_reports_bad_format_and_missing_account_alike() {
    let config = test_config();
    let mut store = AccountStore::new();
    let bad_format = request_password_reset(
        &mut store,
        &config,
        &RequestPasswordResetUser { username: "no-at-sign".to_string() },
    );
    let missing = request_password_reset(
        &mut store,
        &config,
        &RequestPasswordResetUser { username: "ghost@b.com".to_string() },
    );
    assert_eq!(bad_format.err(), Some(AuthError::NotFound));
    assert_eq!(missing.err(), Some(AuthError::NotFound));
}

#[test]
fn change_password_with_wrong_code_fails_as_invalid_code() {
    let config = test_config();
    let mut store = AccountStore::new();
    verified_account(&mut store, &config);
    let note = request_password_reset(
        &mut store,
        &config,
        &RequestPasswordResetUser { username: "a@b.com".to_string() },
    )
    .unwrap();
    let mut wrong = note.content.clone();
    // Change one digit to miss the code.
    let flipped = if wrong.ends_with('0') { "1" } else { "0" };
    wrong.truncate(8);
    wrong.push_str(flipped);
    let r = change_password(
        &mut store,
        &config,
        &PasswordResetUser {
            username: "a@b.com".to_string(),
            new_password: "fresh5678".to_string(),
            reset_code: wrong,
        },
    );
    assert_eq!(r.err(), Some(AuthError::InvalidCode));
}

#[test]
fn change_password_with_expired_token_fails_distinctly_from_wrong_code() {
    let config = test_config();
    let mut store = AccountStore::new();
    verified_account(&mut store, &config);
    request_password_reset(
        &mut store,
        &config,
        &RequestPasswordResetUser { username: "a@b.com".to_string() },
    )
    .unwrap();

    // Age the pending reset artificially: store a well-signed token whose
    // expiry has passed, and present its correctly derived code.
    let stale = expired_token(config.secret.as_slice());
    let code = generate_reset_code(stale.as_str());
    let i = store.find_index_by_username("a@b.com").unwrap();
    store.update_reset_token(i, Some(stale));

    let r = change_password(
        &mut store,
        &config,
        &PasswordResetUser {
            username: "a@b.com".to_string(),
            new_password: "fresh5678".to_string(),
            reset_code: code,
        },
    );
    assert_eq!(r.err(), Some(AuthError::ResetExpired));
    assert_ne!(AuthError::ResetExpired, AuthError::InvalidCode);
}

#[test]
fn change_password_with_weak_new_password_fails_as_invalid_input() {
    let config = test_config();
    let mut store = AccountStore::new();
    verified_account(&mut store, &config);
    let note = request_password_reset(
        &mut store,
        &config,
        &RequestPasswordResetUser { username: "a@b.com".to_string() },
    )
    .unwrap();
    let r = change_password(
        &mut store,
        &config,
        &PasswordResetUser {
            username: "a@b.com".to_string(),
            new_password: "weak".to_string(),
            reset_code: note.content,
        },
    );
    assert_eq!(r.err(), Some(AuthError::InvalidInput));
}

#[test]
fn change_password_without_pending_reset_is_not_found() {
    let config = test_config();
    let mut store = AccountStore::new();
    verified_account(&mut store, &config);
    let r = change_password(
        &mut store,
        &config,
        &PasswordResetUser {
            username: "a@b.com".to_string(),
            new_password: "fresh5678".to_string(),
            reset_code: "000000000".to_string(),
        },
    );
    assert_eq!(r.err(), Some(AuthError::NotFound));
}

#[test]
fn change_password_keeps_the_session_token_in_place() {
    let config = test_config();
    let mut config2 = test_config();
    config2.session_ttl_seconds = 7200;
    let mut store = AccountStore::new();
    verified_account(&mut store, &config);
    let note = request_password_reset(
        &mut store,
        &config,
        &RequestPasswordResetUser { username: "a@b.com".to_string() },
    )
    .unwrap();
    // Log in again after the reset request, then change the password: the
    // session set in between must survive the change.
    let relogin = login(&mut store, &config2, &request("a@b.com", "abcd1234")).unwrap();
    let session = relogin.token.unwrap();
    change_password(
        &mut store,
        &config,
        &PasswordResetUser {
            username: "a@b.com".to_string(),
            new_password: "fresh5678".to_string(),
            reset_code: note.content,
        },
    )
    .unwrap();
    assert!(guard(&store, &config, Some(session.as_str())).is_ok());
}
