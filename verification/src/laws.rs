//! The laws of the lifecycle: what registration, verification, login,
//! logout and password reset guarantee when composed, stated over the same
//! transition functions the operations' contracts use, and proved once and
//! for all states.

use vstd::prelude::*;

use crate::account::AccountModel;
use crate::credential::bcrypt_verdict;
use crate::errors::spec_signal_of;
use crate::errors::AuthError;
use crate::errors::Signal;
use crate::guard::guard_tr;
use crate::policy::email_ok;
use crate::policy::password_ok;
use crate::store::has_user;
use crate::store::identities_distinct;
use crate::store::lemma_session_idx;
use crate::store::lemma_user_idx;
use crate::store::lemma_wf_same_identities;
use crate::store::store_wf;
use crate::store::user_idx;
use crate::store::StoreModel;
use crate::token::TokenValidity;
use crate::users::change_password_tr;
use crate::users::code_for_token;
use crate::users::login_tr;
use crate::users::logout_tr;
use crate::users::register_tr;
use crate::users::reset_request_tr;
use crate::users::verify_email_tr;
use crate::users::LoginM;

verus! {

/// Pushing a record with a fresh username and an id at or past the counter
/// keeps identities distinct.
proof fn lemma_distinct_after_push(m: StoreModel, a: AccountModel)
    requires
        store_wf(m),
        !has_user(m.accounts, a.username),
        a.id >= m.next_id,
    ensures
        identities_distinct(m.accounts.push(a)),
{
    let s = m.accounts.push(a);
    let n = m.accounts.len() as int;
    assert forall|i: int, j: int|
        0 <= i < s.len() && 0 <= j < s.len() && i != j implies s[i].id != s[j].id && s[i].username
        != s[j].username by {
        if i == n {
            assert(m.accounts[j].id < m.next_id);
            if m.accounts[j].username == a.username {
                assert(has_user(m.accounts, a.username));
            }
        } else if j == n {
            assert(m.accounts[i].id < m.next_id);
            if m.accounts[i].username == a.username {
                assert(has_user(m.accounts, a.username));
            }
        }
    }
}

/// Replacing a record with one that keeps its id and username keeps
/// identities distinct.
proof fn lemma_distinct_after_update(accounts: Seq<AccountModel>, i: int, a: AccountModel)
    requires
        identities_distinct(accounts),
        0 <= i < accounts.len(),
        a.id == accounts[i].id,
        a.username == accounts[i].username,
    ensures
        identities_distinct(accounts.update(i, a)),
{
}

/// Until email verification succeeds with the very token that registration
/// issued, login fails with `NotVerified` — the signal `NotAcceptable` —
/// whatever the password and token oracles answer; once verification
/// succeeds, login with the correct password succeeds.
pub proof fn lemma_register_then_login(
    m0: StoreModel,
    u: Seq<char>,
    p: Seq<char>,
    h: Seq<char>,
    vt: Seq<char>,
    pw_res: Result<bool, AuthError>,
    tok_res: Result<Seq<char>, AuthError>,
    st: Seq<char>,
)
    requires
        store_wf(m0),
        email_ok(u),
        password_ok(p),
        !has_user(m0.accounts, u),
        m0.next_id < i32::MAX,
    ensures
        ({
            let pair1 = register_tr(m0, u, p, Ok(h), Ok(vt));
            &&& pair1.1 is Ok
            &&& login_tr(pair1.0, u, pw_res, tok_res).1 == Err::<LoginM, AuthError>(
                AuthError::NotVerified,
            )
            &&& spec_signal_of(AuthError::NotVerified) == Signal::NotAcceptable
            &&& ({
                let pair2 = verify_email_tr(pair1.0, u, vt, TokenValidity::Valid);
                &&& pair2.1 == Ok::<(), AuthError>(())
                &&& login_tr(pair2.0, u, Ok(true), Ok(st)).1 == Ok::<LoginM, AuthError>(
                    LoginM { username: u, id: m0.next_id, token: Some(st) },
                )
            })
        }),
{
    let pair1 = register_tr(m0, u, p, Ok(h), Ok(vt));
    let m1 = pair1.0;
    let record = AccountModel {
        id: m0.next_id,
        username: u,
        password_hash: h,
        session_token: None,
        reset_token: None,
        verification_token: Some(vt),
        email_verified: false,
    };
    lemma_distinct_after_push(m0, record);
    let n = m0.accounts.len() as int;
    lemma_user_idx(m1.accounts, u, n);
    assert(login_tr(m1, u, pw_res, tok_res).1 == Err::<LoginM, AuthError>(AuthError::NotVerified));

    let pair2 = verify_email_tr(m1, u, vt, TokenValidity::Valid);
    let m2 = pair2.0;
    let verified_record = AccountModel {
        email_verified: true,
        verification_token: None,
        ..record
    };
    lemma_distinct_after_update(m1.accounts, n, verified_record);
    lemma_user_idx(m2.accounts, u, n);
    assert(m2.accounts[n].email_verified);
    assert(login_tr(m2, u, Ok(true), Ok(st)).1 == Ok::<LoginM, AuthError>(
        LoginM { username: u, id: m0.next_id, token: Some(st) },
    ));
}

/// A freshly issued session token authenticates exactly the account it was
/// issued to: the guard resolves it to that account, and no other record
/// holds it.
pub proof fn lemma_login_token_authenticates(m0: StoreModel, u: Seq<char>, t: Seq<char>)
    requires
        store_wf(m0),
        has_user(m0.accounts, u),
        m0.accounts[user_idx(m0.accounts, u)].email_verified,
        forall|j: int| 0 <= j < m0.accounts.len() ==> m0.accounts[j].session_token != Some(t),
    ensures
        ({
            let i = user_idx(m0.accounts, u);
            let m1 = login_tr(m0, u, Ok(true), Ok(t)).0;
            &&& guard_tr(m1, Some(t), TokenValidity::Valid) == Ok::<int, AuthError>(i)
            &&& forall|j: int|
                0 <= j < m1.accounts.len() && j != i ==> m1.accounts[j].session_token != Some(t)
        }),
{
    let i = user_idx(m0.accounts, u);
    let m1 = login_tr(m0, u, Ok(true), Ok(t)).0;
    assert(m1.accounts[i].session_token == Some(t));
    assert forall|j: int| 0 <= j < i implies m1.accounts[j].session_token != Some(t) by {
        assert(m1.accounts[j] == m0.accounts[j]);
    }
    lemma_session_idx(m1.accounts, t, i);
}

/// Once a later login has overwritten the session token, the guard rejects
/// the old token as unauthorized, whatever the codec says about it.
pub proof fn lemma_old_token_rejected_after_supersede(
    m0: StoreModel,
    u: Seq<char>,
    t_old: Seq<char>,
    t_new: Seq<char>,
    v: TokenValidity,
)
    requires
        store_wf(m0),
        has_user(m0.accounts, u),
        m0.accounts[user_idx(m0.accounts, u)].email_verified,
        t_new != t_old,
        forall|j: int|
            0 <= j < m0.accounts.len() && j != user_idx(m0.accounts, u)
                ==> m0.accounts[j].session_token != Some(t_old),
    ensures
        ({
            let m1 = login_tr(m0, u, Ok(true), Ok(t_new)).0;
            guard_tr(m1, Some(t_old), v) == Err::<int, AuthError>(AuthError::Unauthorized)
        }),
{
    let i = user_idx(m0.accounts, u);
    let m1 = login_tr(m0, u, Ok(true), Ok(t_new)).0;
    assert forall|j: int| 0 <= j < m1.accounts.len() implies m1.accounts[j].session_token != Some(
        t_old,
    ) by {
        if j != i {
            assert(m1.accounts[j] == m0.accounts[j]);
        }
    }
}

/// After logout, the guard rejects the account's old session token as
/// unauthorized, whatever the codec says about it.
pub proof fn lemma_old_token_rejected_after_logout(
    m0: StoreModel,
    id: int,
    t_old: Seq<char>,
    v: TokenValidity,
)
    requires
        store_wf(m0),
        crate::store::has_account_id(m0.accounts, id),
        forall|j: int|
            0 <= j < m0.accounts.len() && j != crate::store::id_idx(m0.accounts, id)
                ==> m0.accounts[j].session_token != Some(t_old),
    ensures
        ({
            let m1 = logout_tr(m0, id).0;
            &&& logout_tr(m0, id).1 == Ok::<(), AuthError>(())
            &&& guard_tr(m1, Some(t_old), v) == Err::<int, AuthError>(AuthError::Unauthorized)
        }),
{
    let i = crate::store::id_idx(m0.accounts, id);
    let m1 = logout_tr(m0, id).0;
    assert forall|j: int| 0 <= j < m1.accounts.len() implies m1.accounts[j].session_token != Some(
        t_old,
    ) by {
        if j != i {
            assert(m1.accounts[j] == m0.accounts[j]);
        }
    }
}

/// Any number of logins in sequence: the last token written is the
/// account's session token, and every other record is untouched.
pub open spec fn apply_logins(m: StoreModel, u: Seq<char>, toks: Seq<Seq<char>>) -> StoreModel
    decreases toks.len(),
{
    if toks.len() == 0 {
        m
    } else {
        apply_logins(login_tr(m, u, Ok(true), Ok(toks[0])).0, u, toks.drop_first())
    }
}

/// Logins race only at the store write, and the last write wins: after a
/// sequence of successful logins, the account holds exactly the last
/// token, and no other record changed.
pub proof fn lemma_apply_logins(m0: StoreModel, u: Seq<char>, toks: Seq<Seq<char>>)
    requires
        store_wf(m0),
        has_user(m0.accounts, u),
        m0.accounts[user_idx(m0.accounts, u)].email_verified,
        toks.len() > 0,
    ensures
        ({
            let mf = apply_logins(m0, u, toks);
            let i = user_idx(m0.accounts, u);
            &&& mf.accounts.len() == m0.accounts.len()
            &&& mf.next_id == m0.next_id
            &&& mf.accounts[i] == AccountModel {
                session_token: Some(toks.last()),
                ..m0.accounts[i]
            }
            &&& forall|j: int|
                0 <= j < m0.accounts.len() && j != i ==> mf.accounts[j] == m0.accounts[j]
            &&& store_wf(mf)
        }),
    decreases toks.len(),
{
    let i = user_idx(m0.accounts, u);
    let a = m0.accounts[i];
    let m1 = login_tr(m0, u, Ok(true), Ok(toks[0])).0;
    assert(m1.accounts == m0.accounts.update(
        i,
        AccountModel { session_token: Some(toks[0]), ..a },
    ));
    lemma_wf_same_identities(m0, m1);
    lemma_user_idx(m1.accounts, u, i);
    if toks.len() == 1 {
        assert(apply_logins(m1, u, toks.drop_first()) == m1);
    } else {
        lemma_apply_logins(m1, u, toks.drop_first());
        assert(toks.drop_first().last() == toks.last());
    }
}

/// Whichever session token was written last authenticates the account, and
/// a superseded token — or any token never written — does not.
pub proof fn lemma_concurrent_logins_last_wins(
    m0: StoreModel,
    u: Seq<char>,
    toks: Seq<Seq<char>>,
    t_other: Seq<char>,
    v: TokenValidity,
)
    requires
        store_wf(m0),
        has_user(m0.accounts, u),
        m0.accounts[user_idx(m0.accounts, u)].email_verified,
        toks.len() > 0,
        forall|j: int| 0 <= j < m0.accounts.len() ==> m0.accounts[j].session_token != Some(
            toks.last(),
        ),
        t_other != toks.last(),
        forall|j: int| 0 <= j < m0.accounts.len() ==> m0.accounts[j].session_token != Some(
            t_other,
        ),
    ensures
        ({
            let mf = apply_logins(m0, u, toks);
            let i = user_idx(m0.accounts, u);
            &&& guard_tr(mf, Some(toks.last()), TokenValidity::Valid) == Ok::<int, AuthError>(i)
            &&& guard_tr(mf, Some(t_other), v) == Err::<int, AuthError>(AuthError::Unauthorized)
        }),
{
    let mf = apply_logins(m0, u, toks);
    let i = user_idx(m0.accounts, u);
    lemma_apply_logins(m0, u, toks);
    assert(mf.accounts[i].session_token == Some(toks.last()));
    assert forall|j: int| 0 <= j < i implies mf.accounts[j].session_token != Some(
        toks.last(),
    ) by {
        assert(mf.accounts[j] == m0.accounts[j]);
    }
    lemma_session_idx(mf.accounts, toks.last(), i);
    assert forall|j: int| 0 <= j < mf.accounts.len() implies mf.accounts[j].session_token != Some(
        t_other,
    ) by {
        if j != i {
            assert(mf.accounts[j] == m0.accounts[j]);
        }
    }
}

/// A password-reset request followed by a password change with the
/// correctly derived code and an unexpired token succeeds: the stored hash
/// becomes the new one, the pending reset is cleared, the session token is
/// left as the reset request set it; a login with the new password then
/// succeeds, while the old password authenticates only if the credential
/// hasher matches it against the new hash, which for a different password
/// it does not.
pub proof fn lemma_reset_then_change_password(
    m0: StoreModel,
    u: Seq<char>,
    rt: Seq<char>,
    new_p: Seq<char>,
    h2: Seq<char>,
    p_old: Seq<char>,
    tok_res: Result<Seq<char>, AuthError>,
    st: Seq<char>,
)
    requires
        store_wf(m0),
        email_ok(u),
        has_user(m0.accounts, u),
        password_ok(new_p),
    ensures
        ({
            let i = user_idx(m0.accounts, u);
            let pair1 = reset_request_tr(m0, u, Ok(rt));
            let m1 = pair1.0;
            &&& pair1.1 matches Ok(note) && note.content == code_for_token(rt)
            &&& ({
                let pair2 = change_password_tr(
                    m1,
                    u,
                    code_for_token(rt),
                    new_p,
                    TokenValidity::Valid,
                    Ok(h2),
                );
                let m2 = pair2.0;
                &&& pair2.1 == Ok::<(), AuthError>(())
                &&& m2.accounts[i].password_hash == h2
                &&& m2.accounts[i].reset_token is None
                &&& m2.accounts[i].session_token == m1.accounts[i].session_token
                &&& (m2.accounts[i].email_verified && bcrypt_verdict(p_old, h2) == Some(false)
                    ==> login_tr(m2, u, Ok(false), tok_res).1 == Err::<LoginM, AuthError>(
                    AuthError::Unauthorized,
                ))
                &&& (m2.accounts[i].email_verified ==> login_tr(m2, u, Ok(true), Ok(st)).1
                    == Ok::<LoginM, AuthError>(
                    LoginM { username: u, id: m2.accounts[i].id, token: Some(st) },
                ))
            })
        }),
{
    let i = user_idx(m0.accounts, u);
    let a = m0.accounts[i];
    let pair1 = reset_request_tr(m0, u, Ok(rt));
    let m1 = pair1.0;
    assert(m1.accounts == m0.accounts.update(
        i,
        AccountModel { session_token: None, reset_token: Some(rt), ..a },
    ));
    lemma_wf_same_identities(m0, m1);
    lemma_user_idx(m1.accounts, u, i);
    let pair2 = change_password_tr(m1, u, code_for_token(rt), new_p, TokenValidity::Valid, Ok(h2));
    let m2 = pair2.0;
    lemma_wf_same_identities(m1, m2);
    lemma_user_idx(m2.accounts, u, i);
}

/// With a correct code but an expired reset token, a password change fails
/// as `ResetExpired`; with a wrong code it fails as `InvalidCode`, whatever
/// the codec would have said — two distinct errors.
pub proof fn lemma_reset_expiry_distinct_from_mismatch(
    m: StoreModel,
    u: Seq<char>,
    presented: Seq<char>,
    new_p: Seq<char>,
    v: TokenValidity,
    hash_res: Result<Seq<char>, AuthError>,
)
    requires
        store_wf(m),
        has_user(m.accounts, u),
        m.accounts[user_idx(m.accounts, u)].reset_token is Some,
    ensures
        ({
            let rt = m.accounts[user_idx(m.accounts, u)].reset_token.unwrap();
            &&& (presented == code_for_token(rt) ==> change_password_tr(
                m,
                u,
                presented,
                new_p,
                TokenValidity::Expired,
                hash_res,
            ).1 == Err::<(), AuthError>(AuthError::ResetExpired))
            &&& (presented != code_for_token(rt) ==> change_password_tr(
                m,
                u,
                presented,
                new_p,
                v,
                hash_res,
            ).1 == Err::<(), AuthError>(AuthError::InvalidCode))
            &&& Err::<(), AuthError>(AuthError::ResetExpired) != Err::<(), AuthError>(
                AuthError::InvalidCode,
            )
        }),
{
}

} // verus!
