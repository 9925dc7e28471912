//! The token codec: signed, time-bounded tokens issued from a single
//! process-wide symmetric secret, serving sessions, password resets and
//! email verification alike.
//!
//! A token is stateless: its validity is fully determined by its signature
//! and embedded timestamps. Revocation happens only by the store no longer
//! carrying it as an account's current token.

use vstd::prelude::*;

use crate::errors::AuthError;

verus! {

/// The payload of every issued token: when it was issued and when it
/// expires, in seconds since the epoch.
#[derive(Clone, Copy, Debug, PartialEq, Eq, Structural)]
pub struct Claims {
    pub exp: u64,
    pub iat: u64,
}

/// The verdict of the codec on a presented token.
#[derive(Clone, Copy, Debug, PartialEq, Eq, Structural)]
pub enum TokenValidity {
    /// Well signed and not yet expired.
    Valid,
    /// Well signed, but its expiry lies in the past.
    Expired,
    /// Bad signature, malformed payload or unsupported algorithm.
    Invalid,
}

/// What jsonwebtoken::encode produces under HS256 for a payload of exactly
/// these `iat` and `exp` claims and this secret; the token depends on the
/// three alone.
pub uninterp spec fn jwt_of(secret: Seq<u8>, iat: u64, exp: u64) -> Seq<char>;

/// Whether jsonwebtoken::decode under HS256 accepts this token's structure
/// and signature for this secret — everything the codec checks except the
/// expiry instant, which depends on the clock. A token that is not well
/// signed is reported `Invalid`; one that is, `Valid` or `Expired`.
pub uninterp spec fn jwt_wellsigned(secret: Seq<u8>, token: Seq<char>) -> bool;

/// The token was issued under this secret with this lifetime: for some
/// issue instant, it is the codec's token for claims that expire
/// `ttl_seconds` later.
pub open spec fn issued_with_ttl(secret: Seq<u8>, ttl_seconds: u64, token: Seq<char>) -> bool {
    exists|iat: u64|
        iat + ttl_seconds <= u64::MAX && token == #[trigger] jwt_of(
            secret,
            iat,
            (iat + ttl_seconds) as u64,
        )
}

/// Relies on chrono::Utc::now: the wall clock, in seconds since the epoch.
/// chrono itself panics if the host clock reads before the epoch; that is
/// an environment fault, not reachable from any input.
#[verifier::external_body]
fn now_timestamp() -> (t: i64) {
    chrono::Utc::now().timestamp()
}

/// Relies on jsonwebtoken::encode with HS256: a compact signed token
/// carrying exactly these claims under this secret, deterministic in the
/// secret and the claims, and in turn accepted by jsonwebtoken::decode
/// under the same secret (as valid or, once its expiry passes, expired —
/// never as structurally invalid).
#[verifier::external_body]
fn encode_claims(secret: &[u8], claims: &Claims) -> (r: Result<String, AuthError>)
    ensures
        r matches Ok(s) ==> s@ == jwt_of(secret@, claims.iat, claims.exp) && jwt_wellsigned(
            secret@,
            s@,
        ),
        r matches Err(e) ==> e == AuthError::InternalError,
{
    let mut payload = serde_json::Map::new();
    payload.insert("iat".to_string(), serde_json::Value::from(claims.iat));
    payload.insert("exp".to_string(), serde_json::Value::from(claims.exp));
    let key = jsonwebtoken::EncodingKey::from_secret(secret);
    let header = jsonwebtoken::Header::default();
    jsonwebtoken::encode(&header, &serde_json::Value::Object(payload), &key).map_err(
        |_| AuthError::InternalError,
    )
}

/// Relies on jsonwebtoken::decode with HS256, a 60-second leeway, a
/// required `exp` claim and no audience check: a well-signed, unexpired
/// token is reported valid; a well-signed token past its expiry is reported
/// expired; anything else — bad signature, malformed payload, other
/// algorithm — is reported invalid. Which of valid and expired comes back
/// depends on the wall clock, so only the clock-free part is stated: the
/// invalid verdict falls exactly on the tokens that are not well signed
/// under this secret. The audience check is switched off because, with no
/// expected audience configured, it would reject a token carrying an `aud`
/// claim — but only until the token expires, which would make the invalid
/// verdict depend on the clock.
#[verifier::external_body]
pub fn is_valid(secret: &[u8], token: &str) -> (v: TokenValidity)
    ensures
        v == TokenValidity::Invalid <==> !jwt_wellsigned(secret@, token@),
{
    let key = jsonwebtoken::DecodingKey::from_secret(secret);
    let mut validation = jsonwebtoken::Validation::new(jsonwebtoken::Algorithm::HS256);
    validation.validate_aud = false;
    match jsonwebtoken::decode::<serde_json::Value>(token, &key, &validation) {
        Ok(_) => TokenValidity::Valid,
        Err(e) => match e.kind() {
            jsonwebtoken::errors::ErrorKind::ExpiredSignature => TokenValidity::Expired,
            _ => TokenValidity::Invalid,
        },
    }
}

/// Issue a token whose claims run from now until `ttl_seconds` from now,
/// signed with the process-wide secret: the codec's token for some issue
/// instant and exactly this lifetime, well signed under the secret. Fails
/// only on a clock or signing fault, reported as an internal error.
pub fn create_jwt(secret: &[u8], ttl_seconds: u64) -> (r: Result<String, AuthError>)
    ensures
        r matches Ok(t) ==> issued_with_ttl(secret@, ttl_seconds, t@) && jwt_wellsigned(
            secret@,
            t@,
        ),
        r matches Err(e) ==> e == AuthError::InternalError,
{
    let now = now_timestamp();
    if now < 0 {
        return Err(AuthError::InternalError);
    }
    let iat = now as u64;
    let exp = match iat.checked_add(ttl_seconds) {
        Some(exp) => exp,
        None => {
            return Err(AuthError::InternalError);
        },
    };
    let claims = Claims { exp, iat };
    match encode_claims(secret, &claims) {
        Err(e) => Err(e),
        Ok(t) => {
            proof {
                assert(t@ == jwt_of(secret@, iat, (iat + ttl_seconds) as u64));
                assert(issued_with_ttl(secret@, ttl_seconds, t@));
            }
            Ok(t)
        },
    }
}

} // verus!
