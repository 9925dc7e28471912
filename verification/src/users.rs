//! The account lifecycle service: registration, email verification, login,
//! logout, password-reset request and password change.
//!
//! Every operation is a function from the store and plain request values to
//! the new store and a result. The two primitives whose outcomes the
//! process cannot predict — the salted password hash and the signed token —
//! enter each operation's contract as explicit oracle values, tied to the
//! primitives' own contracts; everything else is exact.

use vstd::prelude::*;

use crate::account::AccountModel;
use crate::credential::bcrypt_parses;
use crate::credential::bcrypt_verdict;
use crate::credential::hash_password;
use crate::credential::verify_password;
use crate::errors::AuthError;
use crate::policy::email_ok;
use crate::policy::is_email_valid;
use crate::policy::is_valid_password;
use crate::policy::password_ok;
use crate::reset_code::generate_reset_code;
use crate::reset_code::spec_reset_code;
use crate::store::has_user;
use crate::store::lemma_user_idx;
use crate::store::lemma_id_idx;
use crate::store::user_idx;
use crate::store::has_account_id;
use crate::store::id_idx;
use crate::store::AccountStore;
use crate::store::StoreModel;
use crate::token::create_jwt;
use crate::token::is_valid;
use crate::token::issued_with_ttl;
use crate::token::jwt_wellsigned;
use crate::token::TokenValidity;
use crate::strutil::str_eq;

verus! {

/// The configuration the subsystem consumes: the signing secret and the
/// three token lifetimes, loaded once at startup and threaded explicitly.
pub struct AuthConfig {
    pub secret: Vec<u8>,
    pub session_ttl_seconds: u64,
    pub reset_ttl_seconds: u64,
    pub verification_ttl_seconds: u64,
}

/// A registration or login request: the address used as login identifier,
/// and the plaintext password.
pub struct RequestUser {
    pub username: String,
    pub password: String,
}

/// A password-change request: the account, the new password, and the short
/// code delivered by the reset message.
pub struct PasswordResetUser {
    pub username: String,
    pub new_password: String,
    pub reset_code: String,
}

/// What a successful login returns: the account's identity and the fresh
/// session token.
pub struct ResponseLoginUser {
    pub username: String,
    pub id: i32,
    pub token: Option<String>,
}

/// What a successful registration returns.
pub struct ResponseSignupUser {
    pub username: String,
    pub id: i32,
}

/// A password-reset request.
pub struct RequestPasswordResetUser {
    pub username: String,
}

/// A request to re-send the email-verification message.
pub struct RequestEmailVerificationUser {
    pub username: String,
}

/// The query parameters of the verification link: the account and the
/// presented verification token.
pub struct QueryParams {
    pub username: String,
    pub token: String,
}

/// Which message a notification carries.
#[derive(Clone, Copy, Debug, PartialEq, Eq, Structural)]
pub enum NotificationKind {
    EmailVerification,
    PasswordResetCode,
}

/// A message for the notification port to deliver: the verification token,
/// or the short reset code, addressed to the account's email address.
pub struct Notification {
    pub kind: NotificationKind,
    pub recipient: String,
    pub content: String,
}

/// The mathematical image of a signup response.
pub struct SignupM {
    pub username: Seq<char>,
    pub id: int,
}

/// The mathematical image of a login response.
pub struct LoginM {
    pub username: Seq<char>,
    pub id: int,
    pub token: Option<Seq<char>>,
}

/// The mathematical image of a notification.
pub struct NotificationM {
    pub kind: NotificationKind,
    pub recipient: Seq<char>,
    pub content: Seq<char>,
}

impl View for ResponseSignupUser {
    type V = SignupM;

    open spec fn view(&self) -> SignupM {
        SignupM { username: self.username@, id: self.id as int }
    }
}

impl View for ResponseLoginUser {
    type V = LoginM;

    open spec fn view(&self) -> LoginM {
        LoginM { username: self.username@, id: self.id as int, token: self.token.deep_view() }
    }
}

impl View for Notification {
    type V = NotificationM;

    open spec fn view(&self) -> NotificationM {
        NotificationM { kind: self.kind, recipient: self.recipient@, content: self.content@ }
    }
}

/// The code delivered for a reset token, over the token's characters.
pub open spec fn code_for_token(token: Seq<char>) -> Seq<char> {
    spec_reset_code(vstd::utf8::encode_utf8(token))
}

/// The image of a fallible string, such as a hash or token oracle value.
pub open spec fn str_result_view(r: Result<String, AuthError>) -> Result<Seq<char>, AuthError> {
    match r {
        Ok(s) => Ok(s@),
        Err(e) => Err(e),
    }
}

/// The image of a registration result.
pub open spec fn signup_result_view(r: Result<(ResponseSignupUser, Notification), AuthError>) -> Result<
    (SignupM, NotificationM),
    AuthError,
> {
    match r {
        Ok((s, n)) => Ok((s@, n@)),
        Err(e) => Err(e),
    }
}

/// The image of a login result.
pub open spec fn login_result_view(r: Result<ResponseLoginUser, AuthError>) -> Result<
    LoginM,
    AuthError,
> {
    match r {
        Ok(l) => Ok(l@),
        Err(e) => Err(e),
    }
}

/// The image of a notification result.
pub open spec fn note_result_view(r: Result<Notification, AuthError>) -> Result<
    NotificationM,
    AuthError,
> {
    match r {
        Ok(n) => Ok(n@),
        Err(e) => Err(e),
    }
}

/// Registration. Policy first; then, given the hash and token oracles, the
/// new unverified record and its verification message.
pub open spec fn register_tr(
    m: StoreModel,
    u: Seq<char>,
    p: Seq<char>,
    hash_res: Result<Seq<char>, AuthError>,
    token_res: Result<Seq<char>, AuthError>,
) -> (StoreModel, Result<(SignupM, NotificationM), AuthError>) {
    if !(email_ok(u) && password_ok(p)) {
        (m, Err(AuthError::InvalidInput))
    } else {
        match hash_res {
            Err(e) => (m, Err(e)),
            Ok(h) => match token_res {
                Err(e) => (m, Err(e)),
                Ok(t) => {
                    if has_user(m.accounts, u) || m.next_id >= i32::MAX {
                        (m, Err(AuthError::InternalError))
                    } else {
                        let record = AccountModel {
                            id: m.next_id,
                            username: u,
                            password_hash: h,
                            session_token: None,
                            reset_token: None,
                            verification_token: Some(t),
                            email_verified: false,
                        };
                        let m2 = StoreModel {
                            accounts: m.accounts.push(record),
                            next_id: m.next_id + 1,
                        };
                        let note = NotificationM {
                            kind: NotificationKind::EmailVerification,
                            recipient: u,
                            content: t,
                        };
                        (m2, Ok((SignupM { username: u, id: m.next_id }, note)))
                    }
                },
            },
        }
    }
}

/// Login. Lookup, the verified-email gate, then the password and token
/// oracles; success overwrites any previous session token.
pub open spec fn login_tr(
    m: StoreModel,
    u: Seq<char>,
    pw_res: Result<bool, AuthError>,
    token_res: Result<Seq<char>, AuthError>,
) -> (StoreModel, Result<LoginM, AuthError>) {
    if !has_user(m.accounts, u) {
        (m, Err(AuthError::NotFound))
    } else {
        let i = user_idx(m.accounts, u);
        let a = m.accounts[i];
        if !a.email_verified {
            (m, Err(AuthError::NotVerified))
        } else {
            match pw_res {
                Err(e) => (m, Err(e)),
                Ok(false) => (m, Err(AuthError::Unauthorized)),
                Ok(true) => match token_res {
                    Err(e) => (m, Err(e)),
                    Ok(t) => {
                        let m2 = StoreModel {
                            accounts: m.accounts.update(
                                i,
                                AccountModel { session_token: Some(t), ..a },
                            ),
                            ..m
                        };
                        (m2, Ok(LoginM { username: a.username, id: a.id, token: Some(t) }))
                    },
                },
            }
        }
    }
}

/// Logout: clear the session token of an authenticated account. Idempotent.
pub open spec fn logout_tr(m: StoreModel, id: int) -> (StoreModel, Result<(), AuthError>) {
    if !has_account_id(m.accounts, id) {
        (m, Err(AuthError::NotFound))
    } else {
        let i = id_idx(m.accounts, id);
        let a = m.accounts[i];
        let m2 = StoreModel {
            accounts: m.accounts.update(i, AccountModel { session_token: None, ..a }),
            ..m
        };
        (m2, Ok(()))
    }
}

/// Email verification. The presented token must be valid under the codec
/// and equal to the token last issued for the account; success sets the
/// monotonic verified flag and clears the pending token.
pub open spec fn verify_email_tr(
    m: StoreModel,
    u: Seq<char>,
    token: Seq<char>,
    v: TokenValidity,
) -> (StoreModel, Result<(), AuthError>) {
    if !has_user(m.accounts, u) {
        (m, Err(AuthError::NotFound))
    } else {
        let i = user_idx(m.accounts, u);
        let a = m.accounts[i];
        if a.email_verified {
            (m, Err(AuthError::AlreadyVerified))
        } else if v == TokenValidity::Expired {
            (m, Err(AuthError::Unauthorized))
        } else if v == TokenValidity::Invalid {
            (m, Err(AuthError::InternalError))
        } else if a.verification_token != Some(token) {
            (m, Err(AuthError::Unauthorized))
        } else {
            let m2 = StoreModel {
                accounts: m.accounts.update(
                    i,
                    AccountModel { email_verified: true, verification_token: None, ..a },
                ),
                ..m
            };
            (m2, Ok(()))
        }
    }
}

/// Re-issue of the verification message: a fresh token supersedes any
/// earlier one. Idempotent, safe to call repeatedly.
pub open spec fn verification_request_tr(
    m: StoreModel,
    u: Seq<char>,
    token_res: Result<Seq<char>, AuthError>,
) -> (StoreModel, Result<NotificationM, AuthError>) {
    if !has_user(m.accounts, u) {
        (m, Err(AuthError::NotFound))
    } else {
        let i = user_idx(m.accounts, u);
        let a = m.accounts[i];
        match token_res {
            Err(e) => (m, Err(e)),
            Ok(t) => {
                let m2 = StoreModel {
                    accounts: m.accounts.update(
                        i,
                        AccountModel { verification_token: Some(t), ..a },
                    ),
                    ..m
                };
                let note = NotificationM {
                    kind: NotificationKind::EmailVerification,
                    recipient: u,
                    content: t,
                };
                (m2, Ok(note))
            },
        }
    }
}

/// Password-reset request. A malformed address and a missing account are
/// reported identically, to keep accounts from being enumerated. Success
/// clears the current session, stores the fresh reset token and delivers
/// the derived short code.
pub open spec fn reset_request_tr(
    m: StoreModel,
    u: Seq<char>,
    token_res: Result<Seq<char>, AuthError>,
) -> (StoreModel, Result<NotificationM, AuthError>) {
    if !email_ok(u) || !has_user(m.accounts, u) {
        (m, Err(AuthError::NotFound))
    } else {
        let i = user_idx(m.accounts, u);
        let a = m.accounts[i];
        match token_res {
            Err(e) => (m, Err(e)),
            Ok(t) => {
                let m2 = StoreModel {
                    accounts: m.accounts.update(
                        i,
                        AccountModel { session_token: None, reset_token: Some(t), ..a },
                    ),
                    ..m
                };
                let note = NotificationM {
                    kind: NotificationKind::PasswordResetCode,
                    recipient: u,
                    content: code_for_token(t),
                };
                (m2, Ok(note))
            },
        }
    }
}

/// Password change. The presented code must match the code derived from
/// the stored reset token; an expired token fails distinctly from a wrong
/// code; the new password passes the same policy as registration. Success
/// replaces the hash and clears the reset token, and deliberately does not
/// clear the session token.
pub open spec fn change_password_tr(
    m: StoreModel,
    u: Seq<char>,
    presented: Seq<char>,
    new_p: Seq<char>,
    v: TokenValidity,
    hash_res: Result<Seq<char>, AuthError>,
) -> (StoreModel, Result<(), AuthError>) {
    if !has_user(m.accounts, u) {
        (m, Err(AuthError::NotFound))
    } else {
        let i = user_idx(m.accounts, u);
        let a = m.accounts[i];
        match a.reset_token {
            None => (m, Err(AuthError::NotFound)),
            Some(rt) => {
                if presented != code_for_token(rt) {
                    (m, Err(AuthError::InvalidCode))
                } else if v == TokenValidity::Expired {
                    (m, Err(AuthError::ResetExpired))
                } else if v == TokenValidity::Invalid {
                    (m, Err(AuthError::InternalError))
                } else if !password_ok(new_p) {
                    (m, Err(AuthError::InvalidInput))
                } else {
                    match hash_res {
                        Err(e) => (m, Err(e)),
                        Ok(h) => {
                            let m2 = StoreModel {
                                accounts: m.accounts.update(
                                    i,
                                    AccountModel { password_hash: h, reset_token: None, ..a },
                                ),
                                ..m
                            };
                            (m2, Ok(()))
                        },
                    }
                }
            },
        }
    }
}

} // verus!

verus! {

/// Map the notification port's outcome at the service boundary: a failed
/// delivery surfaces as `DeliveryFailed` while the already-persisted state
/// change stands.
pub fn delivery_result(delivered: bool) -> (r: Result<(), AuthError>)
    ensures
        r is Ok <==> delivered,
        !delivered ==> r == Err::<(), AuthError>(AuthError::DeliveryFailed),
{
    if delivered {
        Ok(())
    } else {
        Err(AuthError::DeliveryFailed)
    }
}

/// Persist a fresh unverified account once the password hash and the
/// verification token are in hand: the deterministic tail of registration.
pub fn register_commit(
    store: &mut AccountStore,
    username: &str,
    password_hash: String,
    verification_token: String,
) -> (r: Result<(ResponseSignupUser, Notification), AuthError>)
    requires
        old(store).wf(),
    ensures
        final(store).wf(),
        has_user(old(store)@.accounts, username@) || old(store)@.next_id >= i32::MAX ==> r
            == Err::<(ResponseSignupUser, Notification), AuthError>(AuthError::InternalError)
            && final(store)@ == old(store)@,
        !(has_user(old(store)@.accounts, username@) || old(store)@.next_id >= i32::MAX) ==> ({
            let record = AccountModel {
                id: old(store)@.next_id,
                username: username@,
                password_hash: password_hash@,
                session_token: None,
                reset_token: None,
                verification_token: Some(verification_token@),
                email_verified: false,
            };
            &&& final(store)@.accounts == old(store)@.accounts.push(record)
            &&& final(store)@.next_id == old(store)@.next_id + 1
            &&& signup_result_view(r) == Ok::<(SignupM, NotificationM), AuthError>(
                (
                    SignupM { username: username@, id: old(store)@.next_id },
                    NotificationM {
                        kind: NotificationKind::EmailVerification,
                        recipient: username@,
                        content: verification_token@,
                    },
                ),
            )
        }),
    {
    let response_name = username.to_owned();
    let recipient = username.to_owned();
    let content = verification_token.clone();
    match store.create(username, password_hash, verification_token) {
        Err(e) => Err(e),
        Ok(id) => Ok(
            (
                ResponseSignupUser { username: response_name, id },
                Notification { kind: NotificationKind::EmailVerification, recipient, content },
            ),
        ),
    }
}

/// Register a new account: validate the address and the password policy,
/// hash the password, issue a verification token, persist the unverified
/// record, and hand back the verification message to deliver.
pub fn create_user(
    store: &mut AccountStore,
    config: &AuthConfig,
    request: &RequestUser,
) -> (r: Result<(ResponseSignupUser, Notification), AuthError>)
    requires
        old(store).wf(),
    ensures
        final(store).wf(),
        exists|hash_res: Result<Seq<char>, AuthError>, token_res: Result<Seq<char>, AuthError>|
            #![trigger register_tr(old(store)@, request.username@, request.password@, hash_res, token_res)]
            {
                let pair = register_tr(
                    old(store)@,
                    request.username@,
                    request.password@,
                    hash_res,
                    token_res,
                );
                &&& final(store)@ == pair.0
                &&& signup_result_view(r) == pair.1
                &&& (hash_res matches Ok(h) ==> bcrypt_verdict(request.password@, h) == Some(
                    true,
                ) && bcrypt_parses(h))
                &&& (hash_res matches Err(e) ==> e == AuthError::InternalError)
                &&& (token_res matches Ok(t) ==> issued_with_ttl(
                    config.secret@,
                    config.verification_ttl_seconds,
                    t,
                ) && jwt_wellsigned(config.secret@, t))
                &&& (token_res matches Err(e) ==> e == AuthError::InternalError)
            },
        r == Err::<(ResponseSignupUser, Notification), AuthError>(AuthError::InvalidInput)
            <==> !(email_ok(request.username@) && password_ok(request.password@)),
        r is Err ==> final(store)@ == old(store)@,
        r matches Ok((resp, note)) ==> ({
            let h = final(store)@.accounts.last().password_hash;
            &&& !has_user(old(store)@.accounts, request.username@)
            &&& resp@.id == old(store)@.next_id
            &&& resp@.username == request.username@
            &&& note@.kind == NotificationKind::EmailVerification
            &&& note@.recipient == request.username@
            &&& final(store)@.next_id == old(store)@.next_id + 1
            &&& final(store)@.accounts == old(store)@.accounts.push(
                AccountModel {
                    id: old(store)@.next_id,
                    username: request.username@,
                    password_hash: h,
                    session_token: None,
                    reset_token: None,
                    verification_token: Some(note@.content),
                    email_verified: false,
                },
            )
            &&& bcrypt_verdict(request.password@, h) == Some(true)
            &&& bcrypt_parses(h) && h.len() == 60
            &&& issued_with_ttl(config.secret@, config.verification_ttl_seconds, note@.content)
            &&& jwt_wellsigned(config.secret@, note@.content)
        }),
{
    let ghost m0 = old(store)@;
    let ghost u = request.username@;
    let ghost p = request.password@;
    if !is_email_valid(request.username.as_str()) || !is_valid_password(
        request.password.as_str(),
    ) {
        proof {
            let hr = Err::<Seq<char>, AuthError>(AuthError::InternalError);
            let tr = Err::<Seq<char>, AuthError>(AuthError::InternalError);
            assert(register_tr(m0, u, p, hr, tr).0 == m0);
        }
        return Err(AuthError::InvalidInput);
    }
    let hash_res = hash_password(request.password.as_str());
    let ghost hrm = str_result_view(hash_res);
    let password_hash = match hash_res {
        Err(e) => {
            proof {
                let tr = Err::<Seq<char>, AuthError>(AuthError::InternalError);
                assert(register_tr(m0, u, p, hrm, tr).0 == m0);
            }
            return Err(e);
        },
        Ok(h) => h,
    };
    let token_res = create_jwt(config.secret.as_slice(), config.verification_ttl_seconds);
    let ghost trm = str_result_view(token_res);
    let verification_token = match token_res {
        Err(e) => {
            proof {
                assert(register_tr(m0, u, p, hrm, trm).0 == m0);
            }
            return Err(e);
        },
        Ok(t) => t,
    };
    let r = register_commit(store, request.username.as_str(), password_hash, verification_token);
    proof {
        assert(register_tr(m0, u, p, hrm, trm).0 == store@);
    }
    r
}

/// Overwrite the account's session token once login has been decided: the
/// deterministic tail of login.
pub fn login_commit(
    store: &mut AccountStore,
    i: usize,
    token_res: Result<String, AuthError>,
) -> (r: Result<ResponseLoginUser, AuthError>)
    requires
        old(store).wf(),
        i < old(store)@.accounts.len(),
    ensures
        final(store).wf(),
        token_res matches Err(e) ==> r == Err::<ResponseLoginUser, AuthError>(e) && final(store)@
            == old(store)@,
        token_res matches Ok(t) ==> ({
            let a = old(store)@.accounts[i as int];
            &&& final(store)@.accounts == old(store)@.accounts.update(
                i as int,
                AccountModel { session_token: Some(t@), ..a },
            )
            &&& final(store)@.next_id == old(store)@.next_id
            &&& login_result_view(r) == Ok::<LoginM, AuthError>(
                LoginM { username: a.username, id: a.id, token: Some(t@) },
            )
        }),
{
    let t = match token_res {
        Err(e) => {
            return Err(e);
        },
        Ok(t) => t,
    };
    let username = store.account_at(i).username.clone();
    let id = store.account_at(i).id;
    store.update_session_token(i, Some(t.clone()));
    Ok(ResponseLoginUser { username, id, token: Some(t) })
}

/// Log an account in: the account must exist and be verified — checked in
/// that order, so an unverified account never learns whether the password
/// was right — then the password must match the stored hash; success issues
/// a fresh session token that overwrites any previous one.
pub fn login(
    store: &mut AccountStore,
    config: &AuthConfig,
    request: &RequestUser,
) -> (r: Result<ResponseLoginUser, AuthError>)
    requires
        old(store).wf(),
    ensures
        final(store).wf(),
        exists|pw_res: Result<bool, AuthError>, token_res: Result<Seq<char>, AuthError>|
            #![trigger login_tr(old(store)@, request.username@, pw_res, token_res)]
            {
                let pair = login_tr(old(store)@, request.username@, pw_res, token_res);
                &&& final(store)@ == pair.0
                &&& login_result_view(r) == pair.1
                &&& (has_user(old(store)@.accounts, request.username@) && old(store)@.accounts[
                    user_idx(old(store)@.accounts, request.username@)
                ].email_verified ==> ({
                    let h = old(store)@.accounts[user_idx(
                        old(store)@.accounts,
                        request.username@,
                    )].password_hash;
                    &&& (pw_res matches Ok(b) ==> bcrypt_verdict(request.password@, h) == Some(
                        b,
                    ))
                    &&& (pw_res matches Err(e) ==> e == AuthError::InternalError
                        && bcrypt_verdict(request.password@, h) is None && !bcrypt_parses(h))
                }))
                &&& (token_res matches Ok(t) ==> issued_with_ttl(
                    config.secret@,
                    config.session_ttl_seconds,
                    t,
                ) && jwt_wellsigned(config.secret@, t))
                &&& (token_res matches Err(e) ==> e == AuthError::InternalError)
            },
        r == Err::<ResponseLoginUser, AuthError>(AuthError::NotFound) <==> !has_user(
            old(store)@.accounts,
            request.username@,
        ),
        r is Err ==> final(store)@ == old(store)@,
        r matches Ok(resp) ==> ({
            let i = user_idx(old(store)@.accounts, request.username@);
            let a = old(store)@.accounts[i];
            &&& has_user(old(store)@.accounts, request.username@)
            &&& a.email_verified
            &&& bcrypt_verdict(request.password@, a.password_hash) == Some(true)
            &&& resp@.id == a.id
            &&& resp@.username == a.username
            &&& resp@.token matches Some(t) && issued_with_ttl(
                config.secret@,
                config.session_ttl_seconds,
                t,
            ) && jwt_wellsigned(config.secret@, t)
            &&& final(store)@.accounts == old(store)@.accounts.update(
                i,
                AccountModel { session_token: resp@.token, ..a },
            )
        }),
{
    let ghost m0 = old(store)@;
    let ghost u = request.username@;
    let i = match store.find_index_by_username(request.username.as_str()) {
        None => {
            proof {
                let pr = Err::<bool, AuthError>(AuthError::InternalError);
                let tr = Err::<Seq<char>, AuthError>(AuthError::InternalError);
                assert(login_tr(m0, u, pr, tr).0 == m0);
            }
            return Err(AuthError::NotFound);
        },
        Some(i) => i,
    };
    proof {
        lemma_user_idx(m0.accounts, u, i as int);
    }
    if !store.account_at(i).email_verified {
        proof {
            let pr = Err::<bool, AuthError>(AuthError::InternalError);
            let tr = Err::<Seq<char>, AuthError>(AuthError::InternalError);
            assert(login_tr(m0, u, pr, tr).0 == m0);
        }
        return Err(AuthError::NotVerified);
    }
    let pw_res = verify_password(
        request.password.as_str(),
        store.account_at(i).password_hash.as_str(),
    );
    let pw_ok = match pw_res {
        Err(e) => {
            proof {
                let tr = Err::<Seq<char>, AuthError>(AuthError::InternalError);
                assert(login_tr(m0, u, pw_res, tr).0 == m0);
            }
            return Err(e);
        },
        Ok(b) => b,
    };
    if !pw_ok {
        proof {
            let tr = Err::<Seq<char>, AuthError>(AuthError::InternalError);
            assert(login_tr(m0, u, Ok::<bool, AuthError>(false), tr).0 == m0);
        }
        return Err(AuthError::Unauthorized);
    }
    let token_res = create_jwt(config.secret.as_slice(), config.session_ttl_seconds);
    let ghost trm = str_result_view(token_res);
    let r = login_commit(store, i, token_res);
    proof {
        assert(login_tr(m0, u, Ok::<bool, AuthError>(true), trm).0 == store@);
    }
    r
}

/// Log an authenticated account out, clearing its session token.
/// Idempotent: a second call finds no token to clear and still succeeds.
pub fn logout(store: &mut AccountStore, account_id: i32) -> (r: Result<(), AuthError>)
    requires
        old(store).wf(),
    ensures
        final(store).wf(),
        ({
            let pair = logout_tr(old(store)@, account_id as int);
            final(store)@ == pair.0 && r == pair.1
        }),
{
    let i = match store.find_index_by_id(account_id) {
        None => {
            return Err(AuthError::NotFound);
        },
        Some(i) => i,
    };
    proof {
        lemma_id_idx(store@.accounts, account_id as int, i as int);
    }
    store.update_session_token(i, None);
    Ok(())
}

/// Decide email verification once the codec's verdict on the presented
/// token is in hand: the account must exist, not be verified yet, the
/// token must be valid, and it must equal the token last issued — a merely
/// well-signed older token must not replay.
pub fn verify_email_with(
    store: &mut AccountStore,
    username: &str,
    token: &str,
    v: TokenValidity,
) -> (r: Result<(), AuthError>)
    requires
        old(store).wf(),
    ensures
        final(store).wf(),
        ({
            let pair = verify_email_tr(old(store)@, username@, token@, v);
            final(store)@ == pair.0 && r == pair.1
        }),
{
    let ghost m0 = old(store)@;
    let i = match store.find_index_by_username(username) {
        None => {
            return Err(AuthError::NotFound);
        },
        Some(i) => i,
    };
    proof {
        lemma_user_idx(m0.accounts, username@, i as int);
    }
    if store.account_at(i).email_verified {
        return Err(AuthError::AlreadyVerified);
    }
    match v {
        TokenValidity::Expired => {
            return Err(AuthError::Unauthorized);
        },
        TokenValidity::Invalid => {
            return Err(AuthError::InternalError);
        },
        TokenValidity::Valid => {},
    }
    let matches_stored = match &store.account_at(i).verification_token {
        Some(t) => str_eq(t.as_str(), token),
        None => false,
    };
    if !matches_stored {
        return Err(AuthError::Unauthorized);
    }
    store.mark_verified(i);
    Ok(())
}

/// Verify an account's email address with the token from the verification
/// link.
pub fn verify_email(
    store: &mut AccountStore,
    config: &AuthConfig,
    params: &QueryParams,
) -> (r: Result<(), AuthError>)
    requires
        old(store).wf(),
    ensures
        final(store).wf(),
        exists|v: TokenValidity|
            #![trigger verify_email_tr(old(store)@, params.username@, params.token@, v)]
            {
                let pair = verify_email_tr(old(store)@, params.username@, params.token@, v);
                &&& final(store)@ == pair.0
                &&& r == pair.1
                &&& (v == TokenValidity::Invalid <==> !jwt_wellsigned(
                    config.secret@,
                    params.token@,
                ))
            },
        r is Err ==> final(store)@ == old(store)@,
        r == Ok::<(), AuthError>(()) ==> ({
            let i = user_idx(old(store)@.accounts, params.username@);
            &&& has_user(old(store)@.accounts, params.username@)
            &&& old(store)@.accounts[i].verification_token == Some(params.token@)
            &&& final(store)@.accounts == old(store)@.accounts.update(
                i,
                AccountModel {
                    email_verified: true,
                    verification_token: None,
                    ..old(store)@.accounts[i]
                },
            )
        }),
{
    let ghost m0 = old(store)@;
    let v = is_valid(config.secret.as_slice(), params.token.as_str());
    let r = verify_email_with(store, params.username.as_str(), params.token.as_str(), v);
    proof {
        assert(verify_email_tr(m0, params.username@, params.token@, v).0 == store@);
    }
    r
}

/// Store a fresh verification token and rebuild the verification message:
/// the deterministic tail of a re-verification request.
pub fn verification_request_commit(
    store: &mut AccountStore,
    i: usize,
    token_res: Result<String, AuthError>,
) -> (r: Result<Notification, AuthError>)
    requires
        old(store).wf(),
        i < old(store)@.accounts.len(),
    ensures
        final(store).wf(),
        token_res matches Err(e) ==> r == Err::<Notification, AuthError>(e) && final(store)@
            == old(store)@,
        token_res matches Ok(t) ==> ({
            let a = old(store)@.accounts[i as int];
            &&& final(store)@.accounts == old(store)@.accounts.update(
                i as int,
                AccountModel { verification_token: Some(t@), ..a },
            )
            &&& final(store)@.next_id == old(store)@.next_id
            &&& note_result_view(r) == Ok::<NotificationM, AuthError>(
                NotificationM {
                    kind: NotificationKind::EmailVerification,
                    recipient: a.username,
                    content: t@,
                },
            )
        }),
{
    let t = match token_res {
        Err(e) => {
            return Err(e);
        },
        Ok(t) => t,
    };
    let recipient = store.account_at(i).username.clone();
    let content = t.clone();
    store.update_verification_token(i, Some(t));
    Ok(Notification { kind: NotificationKind::EmailVerification, recipient, content })
}

/// Re-issue a fresh email-verification token, superseding any earlier one,
/// and hand back the message to redeliver. Idempotent.
pub fn request_email_verification(
    store: &mut AccountStore,
    config: &AuthConfig,
    request: &RequestEmailVerificationUser,
) -> (r: Result<Notification, AuthError>)
    requires
        old(store).wf(),
    ensures
        final(store).wf(),
        exists|token_res: Result<Seq<char>, AuthError>|
            #![trigger verification_request_tr(old(store)@, request.username@, token_res)]
            {
                let pair = verification_request_tr(old(store)@, request.username@, token_res);
                &&& final(store)@ == pair.0
                &&& note_result_view(r) == pair.1
                &&& (token_res matches Ok(t) ==> issued_with_ttl(
                    config.secret@,
                    config.verification_ttl_seconds,
                    t,
                ) && jwt_wellsigned(config.secret@, t))
                &&& (token_res matches Err(e) ==> e == AuthError::InternalError)
            },
        r == Err::<Notification, AuthError>(AuthError::NotFound) <==> !has_user(
            old(store)@.accounts,
            request.username@,
        ),
        r is Err ==> final(store)@ == old(store)@,
        r matches Ok(note) ==> ({
            let i = user_idx(old(store)@.accounts, request.username@);
            let a = old(store)@.accounts[i];
            &&& has_user(old(store)@.accounts, request.username@)
            &&& note@.kind == NotificationKind::EmailVerification
            &&& note@.recipient == a.username
            &&& issued_with_ttl(config.secret@, config.verification_ttl_seconds, note@.content)
            &&& jwt_wellsigned(config.secret@, note@.content)
            &&& final(store)@.accounts == old(store)@.accounts.update(
                i,
                AccountModel { verification_token: Some(note@.content), ..a },
            )
        }),
{
    let ghost m0 = old(store)@;
    let ghost u = request.username@;
    let i = match store.find_index_by_username(request.username.as_str()) {
        None => {
            proof {
                let tr = Err::<Seq<char>, AuthError>(AuthError::InternalError);
                assert(verification_request_tr(m0, u, tr).0 == m0);
            }
            return Err(AuthError::NotFound);
        },
        Some(i) => i,
    };
    proof {
        lemma_user_idx(m0.accounts, u, i as int);
    }
    let token_res = create_jwt(config.secret.as_slice(), config.verification_ttl_seconds);
    let ghost trm = str_result_view(token_res);
    let r = verification_request_commit(store, i, token_res);
    proof {
        assert(verification_request_tr(m0, u, trm).0 == store@);
    }
    r
}

/// Clear the session, store the fresh reset token and derive the short
/// code for delivery: the deterministic tail of a reset request.
pub fn reset_request_commit(
    store: &mut AccountStore,
    i: usize,
    token_res: Result<String, AuthError>,
) -> (r: Result<Notification, AuthError>)
    requires
        old(store).wf(),
        i < old(store)@.accounts.len(),
    ensures
        final(store).wf(),
        token_res matches Err(e) ==> r == Err::<Notification, AuthError>(e) && final(store)@
            == old(store)@,
        token_res matches Ok(t) ==> ({
            let a = old(store)@.accounts[i as int];
            &&& final(store)@.accounts == old(store)@.accounts.update(
                i as int,
                AccountModel { session_token: None, reset_token: Some(t@), ..a },
            )
            &&& final(store)@.next_id == old(store)@.next_id
            &&& note_result_view(r) == Ok::<NotificationM, AuthError>(
                NotificationM {
                    kind: NotificationKind::PasswordResetCode,
                    recipient: a.username,
                    content: code_for_token(t@),
                },
            )
        }),
{
    let ghost m0 = old(store)@;
    let t = match token_res {
        Err(e) => {
            return Err(e);
        },
        Ok(t) => t,
    };
    let recipient = store.account_at(i).username.clone();
    let code = generate_reset_code(t.as_str());
    let ghost tm = t@;
    store.update_session_token(i, None);
    store.update_reset_token(i, Some(t));
    proof {
        let a = m0.accounts[i as int];
        assert(store@.accounts =~= m0.accounts.update(
            i as int,
            AccountModel { session_token: None, reset_token: Some(tm), ..a },
        ));
    }
    Ok(Notification { kind: NotificationKind::PasswordResetCode, recipient, content: code })
}

/// Request a password reset. A malformed address and a missing account are
/// both reported as `NotFound`, so the caller cannot tell accounts apart;
/// success invalidates the current session, stores a fresh reset token and
/// hands back the message carrying the derived short code.
pub fn request_password_reset(
    store: &mut AccountStore,
    config: &AuthConfig,
    request: &RequestPasswordResetUser,
) -> (r: Result<Notification, AuthError>)
    requires
        old(store).wf(),
    ensures
        final(store).wf(),
        exists|token_res: Result<Seq<char>, AuthError>|
            #![trigger reset_request_tr(old(store)@, request.username@, token_res)]
            {
                let pair = reset_request_tr(old(store)@, request.username@, token_res);
                &&& final(store)@ == pair.0
                &&& note_result_view(r) == pair.1
                &&& (token_res matches Ok(t) ==> issued_with_ttl(
                    config.secret@,
                    config.reset_ttl_seconds,
                    t,
                ) && jwt_wellsigned(config.secret@, t))
                &&& (token_res matches Err(e) ==> e == AuthError::InternalError)
            },
        r == Err::<Notification, AuthError>(AuthError::NotFound) <==> !(email_ok(
            request.username@,
        ) && has_user(old(store)@.accounts, request.username@)),
        r is Err ==> final(store)@ == old(store)@,
        r matches Ok(note) ==> ({
            let i = user_idx(old(store)@.accounts, request.username@);
            let a = old(store)@.accounts[i];
            &&& has_user(old(store)@.accounts, request.username@)
            &&& note@.kind == NotificationKind::PasswordResetCode
            &&& note@.recipient == a.username
            &&& final(store)@.accounts[i].reset_token matches Some(rt) && note@.content
                == code_for_token(rt) && issued_with_ttl(
                config.secret@,
                config.reset_ttl_seconds,
                rt,
            ) && jwt_wellsigned(config.secret@, rt) && final(store)@.accounts == old(
                store,
            )@.accounts.update(
                i,
                AccountModel { session_token: None, reset_token: Some(rt), ..a },
            )
        }),
{
    let ghost m0 = old(store)@;
    let ghost u = request.username@;
    if !is_email_valid(request.username.as_str()) {
        proof {
            let tr = Err::<Seq<char>, AuthError>(AuthError::InternalError);
            assert(reset_request_tr(m0, u, tr).0 == m0);
        }
        return Err(AuthError::NotFound);
    }
    let i = match store.find_index_by_username(request.username.as_str()) {
        None => {
            proof {
                let tr = Err::<Seq<char>, AuthError>(AuthError::InternalError);
                assert(reset_request_tr(m0, u, tr).0 == m0);
            }
            return Err(AuthError::NotFound);
        },
        Some(i) => i,
    };
    proof {
        lemma_user_idx(m0.accounts, u, i as int);
    }
    let token_res = create_jwt(config.secret.as_slice(), config.reset_ttl_seconds);
    let ghost trm = str_result_view(token_res);
    let r = reset_request_commit(store, i, token_res);
    proof {
        assert(reset_request_tr(m0, u, trm).0 == store@);
    }
    r
}

/// Replace the password hash and clear the pending reset: the
/// deterministic tail of a password change.
pub fn change_password_commit(
    store: &mut AccountStore,
    i: usize,
    hash_res: Result<String, AuthError>,
) -> (r: Result<(), AuthError>)
    requires
        old(store).wf(),
        i < old(store)@.accounts.len(),
    ensures
        final(store).wf(),
        hash_res matches Err(e) ==> r == Err::<(), AuthError>(e) && final(store)@ == old(store)@,
        hash_res matches Ok(h) ==> ({
            let a = old(store)@.accounts[i as int];
            &&& final(store)@.accounts == old(store)@.accounts.update(
                i as int,
                AccountModel { password_hash: h@, reset_token: None, ..a },
            )
            &&& final(store)@.next_id == old(store)@.next_id
            &&& r == Ok::<(), AuthError>(())
        }),
{
    let h = match hash_res {
        Err(e) => {
            return Err(e);
        },
        Ok(h) => h,
    };
    store.update_password_hash(i, h);
    Ok(())
}

/// Change an account's password with the delivered reset code. A wrong
/// code, an expired reset token, a structurally invalid one and a
/// policy-violating new password all fail with distinct errors; success
/// replaces the hash, clears the reset token, and deliberately leaves the
/// session token in place.
pub fn change_password(
    store: &mut AccountStore,
    config: &AuthConfig,
    request: &PasswordResetUser,
) -> (r: Result<(), AuthError>)
    requires
        old(store).wf(),
    ensures
        final(store).wf(),
        exists|v: TokenValidity, hash_res: Result<Seq<char>, AuthError>|
            #![trigger change_password_tr(old(store)@, request.username@, request.reset_code@, request.new_password@, v, hash_res)]
            {
                let pair = change_password_tr(
                    old(store)@,
                    request.username@,
                    request.reset_code@,
                    request.new_password@,
                    v,
                    hash_res,
                );
                &&& final(store)@ == pair.0
                &&& r == pair.1
                &&& (hash_res matches Ok(h) ==> bcrypt_verdict(request.new_password@, h) == Some(
                    true,
                ) && bcrypt_parses(h))
                &&& (hash_res matches Err(e) ==> e == AuthError::InternalError)
                &&& (has_user(old(store)@.accounts, request.username@) ==> (old(
                    store,
                )@.accounts[user_idx(old(store)@.accounts, request.username@)].reset_token matches
                    Some(rt) ==> (request.reset_code@ == code_for_token(rt) ==> (v
                    == TokenValidity::Invalid <==> !jwt_wellsigned(config.secret@, rt)))))
            },
        r is Err ==> final(store)@ == old(store)@,
        r == Ok::<(), AuthError>(()) ==> ({
            let i = user_idx(old(store)@.accounts, request.username@);
            let a = old(store)@.accounts[i];
            let h = final(store)@.accounts[i].password_hash;
            &&& has_user(old(store)@.accounts, request.username@)
            &&& a.reset_token matches Some(rt) && request.reset_code@ == code_for_token(rt)
            &&& password_ok(request.new_password@)
            &&& bcrypt_verdict(request.new_password@, h) == Some(true)
            &&& bcrypt_parses(h) && h.len() == 60
            &&& final(store)@.accounts == old(store)@.accounts.update(
                i,
                AccountModel { password_hash: h, reset_token: None, ..a },
            )
        }),
{
    let ghost m0 = old(store)@;
    let ghost u = request.username@;
    let ghost presented = request.reset_code@;
    let ghost newp = request.new_password@;
    let i = match store.find_index_by_username(request.username.as_str()) {
        None => {
            proof {
                let hr = Err::<Seq<char>, AuthError>(AuthError::InternalError);
                assert(change_password_tr(m0, u, presented, newp, TokenValidity::Valid, hr).0
                    == m0);
            }
            return Err(AuthError::NotFound);
        },
        Some(i) => i,
    };
    proof {
        lemma_user_idx(m0.accounts, u, i as int);
    }
    let rt = match &store.account_at(i).reset_token {
        None => {
            proof {
                let hr = Err::<Seq<char>, AuthError>(AuthError::InternalError);
                assert(change_password_tr(m0, u, presented, newp, TokenValidity::Valid, hr).0
                    == m0);
            }
            return Err(AuthError::NotFound);
        },
        Some(rt) => rt.clone(),
    };
    let code = generate_reset_code(rt.as_str());
    if !str_eq(code.as_str(), request.reset_code.as_str()) {
        proof {
            let hr = Err::<Seq<char>, AuthError>(AuthError::InternalError);
            assert(change_password_tr(m0, u, presented, newp, TokenValidity::Valid, hr).0 == m0);
        }
        return Err(AuthError::InvalidCode);
    }
    let v = is_valid(config.secret.as_slice(), rt.as_str());
    match v {
        TokenValidity::Expired => {
            proof {
                let hr = Err::<Seq<char>, AuthError>(AuthError::InternalError);
                assert(change_password_tr(m0, u, presented, newp, v, hr).0 == m0);
            }
            return Err(AuthError::ResetExpired);
        },
        TokenValidity::Invalid => {
            proof {
                let hr = Err::<Seq<char>, AuthError>(AuthError::InternalError);
                assert(change_password_tr(m0, u, presented, newp, v, hr).0 == m0);
            }
            return Err(AuthError::InternalError);
        },
        TokenValidity::Valid => {},
    }
    if !is_valid_password(request.new_password.as_str()) {
        proof {
            let hr = Err::<Seq<char>, AuthError>(AuthError::InternalError);
            assert(change_password_tr(m0, u, presented, newp, v, hr).0 == m0);
        }
        return Err(AuthError::InvalidInput);
    }
    let hash_res = hash_password(request.new_password.as_str());
    let ghost hrm = str_result_view(hash_res);
    let r = change_password_commit(store, i, hash_res);
    proof {
        assert(change_password_tr(m0, u, presented, newp, v, hrm).0 == store@);
    }
    r
}

} // verus!
