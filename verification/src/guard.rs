//! The request guard, which turns a presented bearer token into an
//! authenticated account before a protected handler runs, or rejects the
//! request.
//!
//! The store lookup runs before the cryptographic validation of the token,
//! and the validation runs whether or not the lookup hit, so the latency of
//! an invalid-token request does not reveal whether a matching account
//! exists.
//!
//! The guard resolves a token to the first record holding it. The codec is
//! deterministic in the secret and the two timestamps, so two logins in the
//! same second can issue textually equal tokens — even to two accounts —
//! and the store cannot enforce that a session token is held by one record
//! alone. The laws that speak of a token authenticating exactly one account
//! therefore carry that freshness as an explicit hypothesis.

use vstd::prelude::*;

use crate::errors::AuthError;
use crate::store::has_session;
use crate::store::is_first_session_idx;
use crate::store::lemma_session_idx;
use crate::store::session_idx;
use crate::store::AccountStore;
use crate::store::StoreModel;
use crate::token::is_valid;
use crate::token::jwt_wellsigned;
use crate::token::TokenValidity;
use crate::users::AuthConfig;

verus! {

/// The guard's decision: no token is a bad request; a token bound to no
/// account is unauthorized, whatever the codec says; a bound but expired
/// token is unauthorized; a bound but structurally invalid one is an
/// integrity fault; a bound valid token resolves to the first account
/// holding it.
pub open spec fn guard_tr(m: StoreModel, bearer: Option<Seq<char>>, v: TokenValidity) -> Result<
    int,
    AuthError,
> {
    match bearer {
        None => Err(AuthError::BadRequest),
        Some(t) => {
            if !has_session(m.accounts, t) {
                Err(AuthError::Unauthorized)
            } else if v == TokenValidity::Valid {
                Ok(session_idx(m.accounts, t))
            } else if v == TokenValidity::Expired {
                Err(AuthError::Unauthorized)
            } else {
                Err(AuthError::InternalError)
            }
        },
    }
}

/// The image of the guard's result.
pub open spec fn guard_result_view(r: Result<usize, AuthError>) -> Result<int, AuthError> {
    match r {
        Ok(i) => Ok(i as int),
        Err(e) => Err(e),
    }
}

/// Decide the guard's outcome once the lookup and the codec's verdict are
/// both in hand.
pub fn guard_decide(found: Option<usize>, v: TokenValidity) -> (r: Result<usize, AuthError>)
    ensures
        found is None ==> r == Err::<usize, AuthError>(AuthError::Unauthorized),
        found matches Some(i) ==> match v {
            TokenValidity::Valid => r == Ok::<usize, AuthError>(i),
            TokenValidity::Expired => r == Err::<usize, AuthError>(AuthError::Unauthorized),
            TokenValidity::Invalid => r == Err::<usize, AuthError>(AuthError::InternalError),
        },
{
    let i = match found {
        None => {
            return Err(AuthError::Unauthorized);
        },
        Some(i) => i,
    };
    match v {
        TokenValidity::Valid => Ok(i),
        TokenValidity::Expired => Err(AuthError::Unauthorized),
        TokenValidity::Invalid => Err(AuthError::InternalError),
    }
}

/// Resolve a bearer token to the authenticated account's index in the
/// store, or reject the request.
pub fn guard(store: &AccountStore, config: &AuthConfig, bearer: Option<&str>) -> (r: Result<
    usize,
    AuthError,
>)
    ensures
        exists|v: TokenValidity|
            #![trigger guard_tr(store@, bearer.deep_view(), v)]
            {
                &&& guard_result_view(r) == guard_tr(store@, bearer.deep_view(), v)
                &&& (bearer matches Some(t) ==> (v == TokenValidity::Invalid <==> !jwt_wellsigned(
                    config.secret@,
                    t@,
                )))
            },
        bearer is None <==> r == Err::<usize, AuthError>(AuthError::BadRequest),
        bearer matches Some(t) && !has_session(store@.accounts, t@) ==> r == Err::<
            usize,
            AuthError,
        >(AuthError::Unauthorized),
        r matches Ok(i) ==> bearer matches Some(t) && is_first_session_idx(
            store@.accounts,
            t@,
            i as int,
        ),
{
    let token = match bearer {
        None => {
            proof {
                assert(guard_tr(store@, bearer.deep_view(), TokenValidity::Valid) == Err::<
                    int,
                    AuthError,
                >(AuthError::BadRequest));
            }
            return Err(AuthError::BadRequest);
        },
        Some(t) => t,
    };
    // Resolve against the store before validating the token, so a miss and
    // a hit cost about the same.
    let found = store.find_index_by_session_token(token);
    let v = is_valid(config.secret.as_slice(), token);
    let r = guard_decide(found, v);
    proof {
        if found is Some {
            let i = found.unwrap() as int;
            lemma_session_idx(store@.accounts, token@, i);
        }
        assert(guard_result_view(r) == guard_tr(store@, bearer.deep_view(), v));
    }
    r
}

} // verus!
