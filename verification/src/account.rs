//! The account record: the sole entity of the credential subsystem, and its
//! mathematical image used by every contract.

use vstd::prelude::*;

verus! {

/// One persisted account record.
///
/// `username` doubles as the account's email address and login identifier.
/// `session_token` is present iff a session is active; `reset_token` iff a
/// password reset is pending; `verification_token` iff email verification is
/// pending.
pub struct Account {
    pub id: i32,
    pub username: String,
    pub password_hash: String,
    pub session_token: Option<String>,
    pub reset_token: Option<String>,
    pub verification_token: Option<String>,
    pub email_verified: bool,
}

/// The mathematical image of an account record, used in contracts.
pub struct AccountModel {
    pub id: int,
    pub username: Seq<char>,
    pub password_hash: Seq<char>,
    pub session_token: Option<Seq<char>>,
    pub reset_token: Option<Seq<char>>,
    pub verification_token: Option<Seq<char>>,
    pub email_verified: bool,
}

impl View for Account {
    type V = AccountModel;

    open spec fn view(&self) -> AccountModel {
        AccountModel {
            id: self.id as int,
            username: self.username@,
            password_hash: self.password_hash@,
            session_token: self.session_token.deep_view(),
            reset_token: self.reset_token.deep_view(),
            verification_token: self.verification_token.deep_view(),
            email_verified: self.email_verified,
        }
    }
}

} // verus!
