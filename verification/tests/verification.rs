//! Email verification: the token match, replay protection, and
//! re-requesting a fresh verification message.

use verifit_auth::errors::AuthError;
use verifit_auth::store::AccountStore;
use verifit_auth::users::create_user;
use verifit_auth::users::request_email_verification;
use verifit_auth::users::verify_email;
use verifit_auth::users::AuthConfig;
use verifit_auth::users::NotificationKind;
use verifit_auth::users::QueryParams;
use verifit_auth::users::RequestEmailVerificationUser;
use verifit_auth::users::RequestUser;

fn test_config() -> AuthConfig {
    AuthConfig {
        secret: b"test-signing-secret".to_vec(),
        session_ttl_seconds: 3600,
        reset_ttl_seconds: 3600,
        verification_ttl_seconds: 3600,
    }
}

fn config_with_ttl(ttl: u64) -> AuthConfig {
    AuthConfig {
        secret: b"test-signing-secret".to_vec(),
        session_ttl_seconds: 3600,
        reset_ttl_seconds: 3600,
        verification_ttl_seconds: ttl,
    }
}

fn params(username: &str, token: &str) -> QueryParams {
    QueryParams { username: username.to_string(), token: token.to_string() }
}

#[test]
fn verification_of_unknown_user_is_not_found() {
    let config = test_config();
    let mut store = AccountStore::new();
    let r = verify_email(&mut store, &config, &params("ghost@b.com", "whatever"));
    assert_eq!(r.err(), Some(AuthError::NotFound));
}

#[test]
fn second_verification_reports_already_verified() {
    let config = test_config();
    let mut store = AccountStore::new();
    let req = RequestUser { username: "a@b.com".to_string(), password: "abcd1234".to_string() };
    let (_, note) = create_user(&mut store, &config, &req).unwrap();
    verify_email(&mut store, &config, &params("a@b.com", note.content.as_str())).unwrap();
    let r = verify_email(&mut store, &config, &params("a@b.com", note.content.as_str()));
    assert_eq!(r.err(), Some(AuthError::AlreadyVerified));
}

#[test]
fn well_signed_but_unissued_token_does_not_verify() {
    let config = test_config();
    let mut store = AccountStore::new();
    let req = RequestUser { username: "a@b.com".to_string(), password: "abcd1234".to_string() };
    create_user(&mut store, &config, &req).unwrap();
    // Signed with the right secret, but never issued for this account.
    let stray = verifit_auth::token::create_jwt(config.secret.as_slice(), 60).unwrap();
    let r = verify_email(&mut store, &config, &params("a@b.com", stray.as_str()));
    assert_eq!(r.err(), Some(AuthError::Unauthorized));
    let i = store.find_index_by_username("a@b.com").unwrap();
    assert!(!store.account_at(i).email_verified);
}

#[test]
fn garbage_token_is_an_internal_error_and_does_not_verify() {
    let config = test_config();
    let mut store = AccountStore::new();
    let req = RequestUser { username: "a@b.com".to_string(), password: "abcd1234".to_string() };
    create_user(&mut store, &config, &req).unwrap();
    let r = verify_email(&mut store, &config, &params("a@b.com", "garbage"));
    assert_eq!(r.err(), Some(AuthError::InternalError));
    let i = store.find_index_by_username("a@b.com").unwrap();
    assert!(!store.account_at(i).email_verified);
}

#[test]
fn reissued_token_supersedes_and_old_one_cannot_replay() {
    let config = test_config();
    // A different TTL for the re-request guarantees a distinct token even
    // within the same second.
    let config2 = config_with_ttl(7200);
    let mut store = AccountStore::new();
    let req = RequestUser { username: "a@b.com".to_string(), password: "abcd1234".to_string() };
    let (_, first) = create_user(&mut store, &config, &req).unwrap();
    let second = request_email_verification(
        &mut store,
        &config2,
        &RequestEmailVerificationUser { username: "a@b.com".to_string() },
    )
    .expect("re-request should succeed");
    assert!(matches!(second.kind, NotificationKind::EmailVerification));
    assert_ne!(first.content, second.content);

    // The first token is still well signed and unexpired, but no longer the
    // one last issued: it must not verify the address.
    let replay = verify_email(&mut store, &config, &params("a@b.com", first.content.as_str()));
    assert_eq!(replay.err(), Some(AuthError::Unauthorized));

    verify_email(&mut store, &config, &params("a@b.com", second.content.as_str()))
        .expect("the fresh token should verify");
    let i = store.find_index_by_username("a@b.com").unwrap();
    assert!(store.account_at(i).email_verified);
}

#[test]
fn reverification_request_for_unknown_user_is_not_found() {
    let config = test_config();
    let mut store = AccountStore::new();
    let r = request_email_verification(
        &mut store,
        &config,
        &RequestEmailVerificationUser { username: "ghost@b.com".to_string() },
    );
    assert_eq!(r.err(), Some(AuthError::NotFound));
}
