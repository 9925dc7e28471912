//! The credential hasher: one-way hashing and verification of passwords,
//! through the bcrypt primitive.

use vstd::prelude::*;

use crate::errors::AuthError;

verus! {

/// What `bcrypt::verify` answers for a password and a stored hash: `None`
/// when the hash cannot be used as a bcrypt digest, otherwise `Some` of
/// whether the password matches. The answer depends on the two strings
/// alone.
pub uninterp spec fn bcrypt_verdict(password: Seq<char>, hash: Seq<char>) -> Option<bool>;

/// Whether `bcrypt::verify` accepts this string as a bcrypt digest — the
/// right shape, prefix and cost — a property of the hash string alone.
/// Verification errs exactly on the strings that are not accepted.
pub uninterp spec fn bcrypt_parses(hash: Seq<char>) -> bool;

/// Relies on bcrypt::hash (work factor 10): a freshly salted digest in the
/// fixed 60-character `$2b$` format — never the plaintext — which
/// bcrypt::verify parses and matches against the same password. It fails
/// only if the operating system's randomness source does.
#[verifier::external_body]
pub fn hash_password(password: &str) -> (r: Result<String, AuthError>)
    ensures
        r matches Ok(h) ==> ({
            &&& bcrypt_verdict(password@, h@) == Some(true)
            &&& bcrypt_parses(h@)
            &&& h@.len() == 60
            &&& h@[0] == '$'
            &&& h@[1] == '2'
            &&& h@[2] == 'b'
            &&& h@[3] == '$'
        }),
        r matches Err(e) ==> e == AuthError::InternalError,
{
    bcrypt::hash(password, 10).map_err(|_| AuthError::InternalError)
}

/// Relies on bcrypt::verify: deterministic in the password and the hash; it
/// errs exactly when the hash cannot be used as a bcrypt digest (malformed,
/// or its cost out of range), and otherwise answers whether the password
/// matches, comparing in constant time. A mismatch is an `Ok(false)`
/// answer, never an error.
#[verifier::external_body]
pub fn verify_password(password: &str, hash: &str) -> (r: Result<bool, AuthError>)
    ensures
        r is Ok <==> bcrypt_parses(hash@),
        r matches Ok(b) ==> bcrypt_verdict(password@, hash@) == Some(b),
        r matches Err(e) ==> e == AuthError::InternalError && bcrypt_verdict(password@, hash@)
            is None,
{
    bcrypt::verify(password, hash).map_err(|_| AuthError::InternalError)
}

} // verus!
