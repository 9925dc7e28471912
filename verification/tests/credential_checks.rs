//! The credential hasher against the real bcrypt primitive.

use verifit_auth::credential::hash_password;
use verifit_auth::credential::verify_password;
use verifit_auth::errors::AuthError;

#[test]
fn hash_is_a_sixty_character_bcrypt_digest() {
    let h = hash_password("abcd1234").expect("hashing should succeed");
    assert_eq!(h.len(), 60);
    assert!(h.starts_with("$2b$"));
    assert_ne!(h, "abcd1234");
}

#[test]
fn fresh_hash_verifies_and_mismatch_is_not_an_error() {
    let h = hash_password("abcd1234").unwrap();
    assert_eq!(verify_password("abcd1234", h.as_str()), Ok(true));
    assert_eq!(verify_password("wrong9999", h.as_str()), Ok(false));
}

#[test]
fn two_hashes_of_one_password_differ_but_both_verify() {
    let a = hash_password("abcd1234").unwrap();
    let b = hash_password("abcd1234").unwrap();
    assert_ne!(a, b);
    assert_eq!(verify_password("abcd1234", a.as_str()), Ok(true));
    assert_eq!(verify_password("abcd1234", b.as_str()), Ok(true));
}

#[test]
fn unusable_hash_is_an_internal_error() {
    assert_eq!(verify_password("abcd1234", "not-a-digest"), Err(AuthError::InternalError));
    assert_eq!(verify_password("abcd1234", ""), Err(AuthError::InternalError));
}
