//! The account store: the persistence boundary of the subsystem, kept here
//! as an in-memory table with verified operations.
//!
//! The store enforces the record-level invariants the rest of the subsystem
//! relies on: account ids are unique and stable, usernames are unique, and
//! every id was assigned from a monotonically growing counter.

use vstd::prelude::*;

use crate::account::Account;
use crate::account::AccountModel;
use crate::errors::AuthError;
use crate::strutil::str_eq;

verus! {

/// The mathematical image of the store: the account records in insertion
/// order, and the next id to assign.
pub struct StoreModel {
    pub accounts: Seq<AccountModel>,
    pub next_id: int,
}

/// Some record carries this username.
pub open spec fn has_user(accounts: Seq<AccountModel>, username: Seq<char>) -> bool {
    exists|i: int| 0 <= i < accounts.len() && accounts[i].username == username
}

/// The index of the record carrying this username; meaningful under
/// `has_user` when usernames are distinct.
pub open spec fn user_idx(accounts: Seq<AccountModel>, username: Seq<char>) -> int {
    choose|i: int| 0 <= i < accounts.len() && accounts[i].username == username
}

/// Some record carries this id.
pub open spec fn has_account_id(accounts: Seq<AccountModel>, id: int) -> bool {
    exists|i: int| 0 <= i < accounts.len() && accounts[i].id == id
}

/// The index of the record carrying this id; meaningful under
/// `has_account_id` when ids are distinct.
pub open spec fn id_idx(accounts: Seq<AccountModel>, id: int) -> int {
    choose|i: int| 0 <= i < accounts.len() && accounts[i].id == id
}

/// Some record holds this string as its current session token.
pub open spec fn has_session(accounts: Seq<AccountModel>, token: Seq<char>) -> bool {
    exists|i: int| 0 <= i < accounts.len() && accounts[i].session_token == Some(token)
}

/// `i` is the first index whose record holds this session token.
pub open spec fn is_first_session_idx(
    accounts: Seq<AccountModel>,
    token: Seq<char>,
    i: int,
) -> bool {
    &&& 0 <= i < accounts.len()
    &&& accounts[i].session_token == Some(token)
    &&& forall|j: int| 0 <= j < i ==> accounts[j].session_token != Some(token)
}

/// The first index whose record holds this session token; meaningful under
/// `has_session`.
pub open spec fn session_idx(accounts: Seq<AccountModel>, token: Seq<char>) -> int {
    choose|i: int| is_first_session_idx(accounts, token, i)
}

/// No two records share an id or a username.
pub open spec fn identities_distinct(accounts: Seq<AccountModel>) -> bool {
    forall|i: int, j: int|
        0 <= i < accounts.len() && 0 <= j < accounts.len() && i != j ==> accounts[i].id
            != accounts[j].id && accounts[i].username != accounts[j].username
}

/// The store invariant: distinct identities, and every id drawn from the
/// counter's past.
pub open spec fn store_wf(m: StoreModel) -> bool {
    &&& identities_distinct(m.accounts)
    &&& forall|i: int| 0 <= i < m.accounts.len() ==> 1 <= #[trigger] m.accounts[i].id < m.next_id
    &&& 1 <= m.next_id <= i32::MAX
}

/// A record with this username pins down `user_idx` when usernames are
/// distinct.
pub proof fn lemma_user_idx(accounts: Seq<AccountModel>, username: Seq<char>, i: int)
    requires
        identities_distinct(accounts),
        0 <= i < accounts.len(),
        accounts[i].username == username,
    ensures
        has_user(accounts, username),
        user_idx(accounts, username) == i,
{
    assert(has_user(accounts, username));
    let j = user_idx(accounts, username);
    assert(0 <= j < accounts.len() && accounts[j].username == username);
}

/// A record with this id pins down `id_idx` when ids are distinct.
pub proof fn lemma_id_idx(accounts: Seq<AccountModel>, id: int, i: int)
    requires
        identities_distinct(accounts),
        0 <= i < accounts.len(),
        accounts[i].id == id,
    ensures
        has_account_id(accounts, id),
        id_idx(accounts, id) == i,
{
    assert(has_account_id(accounts, id));
    let j = id_idx(accounts, id);
    assert(0 <= j < accounts.len() && accounts[j].id == id);
}

/// The first index holding a session token is unique, so it pins down
/// `session_idx`.
pub proof fn lemma_session_idx(accounts: Seq<AccountModel>, token: Seq<char>, i: int)
    requires
        is_first_session_idx(accounts, token, i),
    ensures
        has_session(accounts, token),
        session_idx(accounts, token) == i,
{
    assert(has_session(accounts, token));
    let j = session_idx(accounts, token);
    assert(is_first_session_idx(accounts, token, j));
    if j < i {
        assert(accounts[j].session_token != Some(token));
    } else if i < j {
        assert(accounts[i].session_token != Some(token));
    }
}

/// A change that keeps every record's id and username, and the counter,
/// keeps the store invariant.
pub proof fn lemma_wf_same_identities(m0: StoreModel, m1: StoreModel)
    requires
        store_wf(m0),
        m1.next_id == m0.next_id,
        m1.accounts.len() == m0.accounts.len(),
        forall|i: int|
            0 <= i < m0.accounts.len() ==> m1.accounts[i].id == m0.accounts[i].id
                && m1.accounts[i].username == m0.accounts[i].username,
    ensures
        store_wf(m1),
{
}

/// The in-memory account store.
pub struct AccountStore {
    accounts: Vec<Account>,
    next_id: i32,
}

impl View for AccountStore {
    type V = StoreModel;

    closed spec fn view(&self) -> StoreModel {
        StoreModel {
            accounts: self.accounts@.map_values(|a: Account| a@),
            next_id: self.next_id as int,
        }
    }
}

impl AccountStore {
    /// The store invariant, over the store's image.
    pub open spec fn wf(&self) -> bool {
        store_wf(self@)
    }

    /// An empty store.
    pub fn new() -> (s: AccountStore)
        ensures
            s.wf(),
            s@.accounts == Seq::<AccountModel>::empty(),
            s@.next_id == 1,
    {
        let s = AccountStore { accounts: Vec::new(), next_id: 1 };
        proof {
            assert(s@.accounts =~= Seq::<AccountModel>::empty());
        }
        s
    }

    /// How many accounts the store holds.
    pub fn len(&self) -> (n: usize)
        ensures
            n == self@.accounts.len(),
    {
        self.accounts.len()
    }

    /// Read one record.
    pub fn account_at(&self, i: usize) -> (a: &Account)
        requires
            i < self@.accounts.len(),
        ensures
            a@ == self@.accounts[i as int],
    {
        &self.accounts[i]
    }

    /// Insert a fresh, unverified record for this username, or report an
    /// internal fault if the username is taken or the id space is spent.
    pub fn create(
        &mut self,
        username: &str,
        password_hash: String,
        verification_token: String,
    ) -> (r: Result<i32, AuthError>)
        requires
            old(self).wf(),
        ensures
            final(self).wf(),
            r is Err <==> has_user(old(self)@.accounts, username@) || old(self)@.next_id
                >= i32::MAX,
            r is Err ==> r == Err::<i32, AuthError>(AuthError::InternalError) && final(self)@
                == old(self)@,
            r matches Ok(id) ==> id == old(self)@.next_id && final(self)@.next_id == old(
                self,
            )@.next_id + 1 && final(self)@.accounts == old(self)@.accounts.push(
                AccountModel {
                    id: id as int,
                    username: username@,
                    password_hash: password_hash@,
                    session_token: None,
                    reset_token: None,
                    verification_token: Some(verification_token@),
                    email_verified: false,
                },
            ),
    {
        if self.find_index_by_username(username).is_some() {
            return Err(AuthError::InternalError);
        }
        if self.next_id >= i32::MAX {
            return Err(AuthError::InternalError);
        }
        let id = self.next_id;
        let account = Account {
            id,
            username: username.to_owned(),
            password_hash,
            session_token: None,
            reset_token: None,
            verification_token: Some(verification_token),
            email_verified: false,
        };
        let ghost m0 = self@;
        self.accounts.push(account);
        self.next_id = id + 1;
        proof {
            assert(self@.accounts =~= m0.accounts.push(account@));
            assert forall|i: int, j: int|
                0 <= i < self@.accounts.len() && 0 <= j < self@.accounts.len() && i
                    != j implies self@.accounts[i].id != self@.accounts[j].id
                && self@.accounts[i].username != self@.accounts[j].username by {
                if i < m0.accounts.len() && j < m0.accounts.len() {
                } else if i == m0.accounts.len() {
                    assert(m0.accounts[j].id < m0.next_id);
                } else {
                    assert(m0.accounts[i].id < m0.next_id);
                }
            }
        }
        Ok(id)
    }

    /// Look an account up by username.
    pub fn find_index_by_username(&self, username: &str) -> (r: Option<usize>)
        ensures
            r matches Some(i) ==> i < self@.accounts.len() && self@.accounts[i as int].username
                == username@,
            r is None ==> !has_user(self@.accounts, username@),
    {
        let n = self.accounts.len();
        let mut k: usize = 0;
        while k < n
            invariant
                n == self@.accounts.len(),
                n == self.accounts.len(),
                k <= n,
                forall|j: int| 0 <= j < k ==> self@.accounts[j].username != username@,
            decreases n - k,
        {
            if str_eq(self.accounts[k].username.as_str(), username) {
                assert(self@.accounts[k as int].username == username@);
                return Some(k);
            }
            k += 1;
        }
        None
    }

    /// Look an account up by id.
    pub fn find_index_by_id(&self, id: i32) -> (r: Option<usize>)
        ensures
            r matches Some(i) ==> i < self@.accounts.len() && self@.accounts[i as int].id
                == id as int,
            r is None ==> !has_account_id(self@.accounts, id as int),
    {
        let n = self.accounts.len();
        let mut k: usize = 0;
        while k < n
            invariant
                n == self@.accounts.len(),
                n == self.accounts.len(),
                k <= n,
                forall|j: int| 0 <= j < k ==> self@.accounts[j].id != id as int,
            decreases n - k,
        {
            if self.accounts[k].id == id {
                return Some(k);
            }
            k += 1;
        }
        None
    }

    /// Look an account up by its currently stored session token, returning
    /// the first match.
    pub fn find_index_by_session_token(&self, token: &str) -> (r: Option<usize>)
        ensures
            r matches Some(i) ==> is_first_session_idx(self@.accounts, token@, i as int),
            r is None ==> !has_session(self@.accounts, token@),
    {
        let n = self.accounts.len();
        let mut k: usize = 0;
        while k < n
            invariant
                n == self@.accounts.len(),
                n == self.accounts.len(),
                k <= n,
                forall|j: int| 0 <= j < k ==> self@.accounts[j].session_token != Some(token@),
            decreases n - k,
        {
            let matches_here = match &self.accounts[k].session_token {
                Some(t) => str_eq(t.as_str(), token),
                None => false,
            };
            if matches_here {
                return Some(k);
            }
            k += 1;
        }
        None
    }

    /// Overwrite one record's session token.
    pub fn update_session_token(&mut self, i: usize, token: Option<String>)
        requires
            old(self).wf(),
            i < old(self)@.accounts.len(),
        ensures
            final(self).wf(),
            final(self)@.next_id == old(self)@.next_id,
            final(self)@.accounts == old(self)@.accounts.update(
                i as int,
                AccountModel { session_token: token.deep_view(), ..old(self)@.accounts[i as int] },
            ),
    {
        let ghost m0 = self@;
        self.accounts[i].session_token = token;
        proof {
            self.lemma_after_record_update(
                m0,
                i as int,
                AccountModel { session_token: token.deep_view(), ..m0.accounts[i as int] },
            );
        }
    }

    /// Overwrite one record's reset token.
    pub fn update_reset_token(&mut self, i: usize, token: Option<String>)
        requires
            old(self).wf(),
            i < old(self)@.accounts.len(),
        ensures
            final(self).wf(),
            final(self)@.next_id == old(self)@.next_id,
            final(self)@.accounts == old(self)@.accounts.update(
                i as int,
                AccountModel { reset_token: token.deep_view(), ..old(self)@.accounts[i as int] },
            ),
    {
        let ghost m0 = self@;
        self.accounts[i].reset_token = token;
        proof {
            self.lemma_after_record_update(
                m0,
                i as int,
                AccountModel { reset_token: token.deep_view(), ..m0.accounts[i as int] },
            );
        }
    }

    /// Overwrite one record's verification token.
    pub fn update_verification_token(&mut self, i: usize, token: Option<String>)
        requires
            old(self).wf(),
            i < old(self)@.accounts.len(),
        ensures
            final(self).wf(),
            final(self)@.next_id == old(self)@.next_id,
            final(self)@.accounts == old(self)@.accounts.update(
                i as int,
                AccountModel {
                    verification_token: token.deep_view(),
                    ..old(self)@.accounts[i as int]
                },
            ),
    {
        let ghost m0 = self@;
        self.accounts[i].verification_token = token;
        proof {
            self.lemma_after_record_update(
                m0,
                i as int,
                AccountModel { verification_token: token.deep_view(), ..m0.accounts[i as int] },
            );
        }
    }

    /// Mark one record's email address verified and clear its pending
    /// verification token.
    pub fn mark_verified(&mut self, i: usize)
        requires
            old(self).wf(),
            i < old(self)@.accounts.len(),
        ensures
            final(self).wf(),
            final(self)@.next_id == old(self)@.next_id,
            final(self)@.accounts == old(self)@.accounts.update(
                i as int,
                AccountModel {
                    email_verified: true,
                    verification_token: None,
                    ..old(self)@.accounts[i as int]
                },
            ),
    {
        let ghost m0 = self@;
        self.accounts[i].email_verified = true;
        let ghost m1 = self@;
        self.accounts[i].verification_token = None;
        proof {
            self.lemma_after_record_update(
                m0,
                i as int,
                AccountModel {
                    email_verified: true,
                    verification_token: None,
                    ..m0.accounts[i as int]
                },
            );
        }
    }

    /// Replace one record's password hash and clear its pending reset token.
    pub fn update_password_hash(&mut self, i: usize, password_hash: String)
        requires
            old(self).wf(),
            i < old(self)@.accounts.len(),
        ensures
            final(self).wf(),
            final(self)@.next_id == old(self)@.next_id,
            final(self)@.accounts == old(self)@.accounts.update(
                i as int,
                AccountModel {
                    password_hash: password_hash@,
                    reset_token: None,
                    ..old(self)@.accounts[i as int]
                },
            ),
    {
        let ghost m0 = self@;
        self.accounts[i].password_hash = password_hash;
        self.accounts[i].reset_token = None;
        proof {
            self.lemma_after_record_update(
                m0,
                i as int,
                AccountModel {
                    password_hash: password_hash@,
                    reset_token: None,
                    ..m0.accounts[i as int]
                },
            );
        }
    }

    /// After replacing the record at `i` with one that keeps its id and
    /// username, the image is the pointwise update and the invariant holds.
    proof fn lemma_after_record_update(&self, m0: StoreModel, i: int, a: AccountModel)
        requires
            store_wf(m0),
            0 <= i < m0.accounts.len(),
            a.id == m0.accounts[i].id,
            a.username == m0.accounts[i].username,
            self@.next_id == m0.next_id,
            self@.accounts.len() == m0.accounts.len(),
            self@.accounts[i] == a,
            forall|j: int|
                0 <= j < m0.accounts.len() && j != i ==> self@.accounts[j] == m0.accounts[j],
        ensures
            self.wf(),
            self@.accounts == m0.accounts.update(i, a),
            self@.next_id == m0.next_id,
    {
        assert(self@.accounts =~= m0.accounts.update(i, a));
        lemma_wf_same_identities(m0, self@);
    }
}

} // verus!
