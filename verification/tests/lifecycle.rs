//! End-to-end lifecycle scenarios: registration, verification, login,
//! guarding and logout.

use verifit_auth::errors::AuthError;
use verifit_auth::errors::Signal;
use verifit_auth::guard::guard;
use verifit_auth::store::AccountStore;
use verifit_auth::users::create_user;
use verifit_auth::users::delivery_result;
use verifit_auth::users::login;
use verifit_auth::users::logout;
use verifit_auth::users::verify_email;
use verifit_auth::users::AuthConfig;
use verifit_auth::users::NotificationKind;
use verifit_auth::users::QueryParams;
use verifit_auth::users::RequestUser;

fn test_config() -> AuthConfig {
    AuthConfig {
        secret: b"test-signing-secret".to_vec(),
        session_ttl_seconds: 3600,
        reset_ttl_seconds: 3600,
        verification_ttl_seconds: 3600,
    }
}

fn request(username: &str, password: &str) -> RequestUser {
    RequestUser { username: username.to_string(), password: password.to_string() }
}

#[test]
fn register_verify_login_guard_logout_round_trip() {
    let config = test_config();
    let mut store = AccountStore::new();

    let (signup, note) = create_user(&mut store, &config, &request("a@b.com", "abcd1234"))
        .expect("registration should succeed");
    assert_eq!(signup.username, "a@b.com");
    assert!(matches!(note.kind, NotificationKind::EmailVerification));
    assert_eq!(note.recipient, "a@b.com");

    let i = store.find_index_by_username("a@b.com").expect("account exists");
    assert!(!store.account_at(i).email_verified);
    assert_eq!(store.account_at(i).verification_token.as_deref(), Some(note.content.as_str()));

    verify_email(
        &mut store,
        &config,
        &QueryParams { username: "a@b.com".to_string(), token: note.content.clone() },
    )
    .expect("verification should succeed");
    assert!(store.account_at(i).email_verified);
    assert!(store.account_at(i).verification_token.is_none());

    let response = login(&mut store, &config, &request("a@b.com", "abcd1234"))
        .expect("login should succeed");
    let token = response.token.clone().expect("login returns a token");
    assert_eq!(response.username, "a@b.com");
    assert_eq!(response.id, signup.id);

    let g = guard(&store, &config, Some(token.as_str())).expect("guard should authenticate");
    assert_eq!(store.account_at(g).id, signup.id);

    logout(&mut store, signup.id).expect("logout should succeed");
    assert_eq!(guard(&store, &config, Some(token.as_str())), Err(AuthError::Unauthorized));
}

#[test]
fn register_with_short_password_creates_no_account() {
    let config = test_config();
    let mut store = AccountStore::new();
    let r = create_user(&mut store, &config, &request("a@b.com", "short"));
    assert_eq!(r.err(), Some(AuthError::InvalidInput));
    assert_eq!(store.len(), 0);
}

#[test]
fn register_rejects_bad_email_and_weak_passwords() {
    let config = test_config();
    let mut store = AccountStore::new();
    for (u, p) in [
        ("not-an-email", "abcd1234"),
        ("a@b", "abcd1234"),
        ("a@b.com", "abcdefgh"),
        ("a@b.com", "12345678"),
        ("a@b.com", "ab12"),
    ] {
        let r = create_user(&mut store, &config, &request(u, p));
        assert_eq!(r.err(), Some(AuthError::InvalidInput));
    }
    assert_eq!(store.len(), 0);
}

#[test]
fn duplicate_username_is_an_internal_error() {
    let config = test_config();
    let mut store = AccountStore::new();
    create_user(&mut store, &config, &request("a@b.com", "abcd1234")).unwrap();
    let r = create_user(&mut store, &config, &request("a@b.com", "other1234"));
    assert_eq!(r.err(), Some(AuthError::InternalError));
    assert_eq!(store.len(), 1);
}

#[test]
fn login_before_verification_is_not_acceptable() {
    let config = test_config();
    let mut store = AccountStore::new();
    create_user(&mut store, &config, &request("a@b.com", "abcd1234")).unwrap();
    let r = login(&mut store, &config, &request("a@b.com", "abcd1234"));
    assert_eq!(r.err(), Some(AuthError::NotVerified));
    assert_eq!(AuthError::NotVerified.signal_of(), Signal::NotAcceptable);
}

#[test]
fn login_with_wrong_password_is_unauthorized() {
    let config = test_config();
    let mut store = AccountStore::new();
    let (_, note) = create_user(&mut store, &config, &request("a@b.com", "abcd1234")).unwrap();
    verify_email(
        &mut store,
        &config,
        &QueryParams { username: "a@b.com".to_string(), token: note.content },
    )
    .unwrap();
    let r = login(&mut store, &config, &request("a@b.com", "wrong9999"));
    assert_eq!(r.err(), Some(AuthError::Unauthorized));
}

#[test]
fn login_of_unknown_user_is_not_found() {
    let config = test_config();
    let mut store = AccountStore::new();
    let r = login(&mut store, &config, &request("a@b.com", "abcd1234"));
    assert_eq!(r.err(), Some(AuthError::NotFound));
}

#[test]
fn later_login_supersedes_the_earlier_session_token() {
    let config = test_config();
    // A second configuration with another TTL guarantees the two tokens
    // differ even when both logins land in the same second.
    let mut config2 = test_config();
    config2.session_ttl_seconds = 7200;
    let mut store = AccountStore::new();
    let (_, note) = create_user(&mut store, &config, &request("a@b.com", "abcd1234")).unwrap();
    verify_email(
        &mut store,
        &config,
        &QueryParams { username: "a@b.com".to_string(), token: note.content },
    )
    .unwrap();

    let first = login(&mut store, &config, &request("a@b.com", "abcd1234")).unwrap();
    let t1 = first.token.unwrap();
    let second = login(&mut store, &config2, &request("a@b.com", "abcd1234")).unwrap();
    let t2 = second.token.unwrap();
    assert_ne!(t1, t2);

    assert!(guard(&store, &config, Some(t2.as_str())).is_ok());
    assert_eq!(guard(&store, &config, Some(t1.as_str())), Err(AuthError::Unauthorized));
}

#[test]
fn logout_is_idempotent() {
    let config = test_config();
    let mut store = AccountStore::new();
    let (signup, note) = create_user(&mut store, &config, &request("a@b.com", "abcd1234")).unwrap();
    verify_email(
        &mut store,
        &config,
        &QueryParams { username: "a@b.com".to_string(), token: note.content },
    )
    .unwrap();
    login(&mut store, &config, &request("a@b.com", "abcd1234")).unwrap();
    assert_eq!(logout(&mut store, signup.id), Ok(()));
    assert_eq!(logout(&mut store, signup.id), Ok(()));
    let i = store.find_index_by_username("a@b.com").unwrap();
    assert!(store.account_at(i).session_token.is_none());
}

#[test]
fn logout_of_unknown_account_is_not_found() {
    let mut store = AccountStore::new();
    assert_eq!(logout(&mut store, 42), Err(AuthError::NotFound));
}

#[test]
fn delivery_outcome_maps_to_delivery_failed() {
    assert_eq!(delivery_result(true), Ok(()));
    assert_eq!(delivery_result(false), Err(AuthError::DeliveryFailed));
    assert_eq!(AuthError::DeliveryFailed.signal_of(), Signal::InternalError);
}
