//! In-memory credential store: user, provider-link and refresh-token records.
//!
//! The store upholds the record invariants the persistent schema declares:
//! user ids and emails are unique, emails are stored lowercase, at most one
//! link per (user, provider) pair, refresh-token values are unique and each
//! user owns at most one refresh token. Every write either succeeds whole or
//! leaves the store untouched.
use vstd::prelude::*;
use crate::registry::AuthProvider;
use crate::types::{is_lowercase, str_eq};

verus! {

pub type UserId = i32;

/// The role of a user account.
#[derive(Clone, Copy, Debug, PartialEq, Eq, Structural)]
pub enum UserRole {
    Standard,
    Moderator,
    Administrator,
}

/// A stored user record.
#[derive(Debug)]
pub struct User {
    /// Unique id of the user.
    pub id: UserId,
    /// Email address, stored lowercase, unique across users.
    pub email: String,
    /// When the email address was verified, if it was.
    pub email_verified_at: Option<i64>,
    /// The account username.
    pub username: String,
    /// The password hash of the account, if a password was set.
    pub password: Option<String>,
    /// The role of the user.
    pub role: UserRole,
    /// When the record was created.
    pub created_at: i64,
    /// When the record last changed.
    pub updated_at: i64,
}

impl Clone for User {
    fn clone(&self) -> (res: Self)
        ensures
            res == *self,
    {
        let res = User {
            id: self.id,
            email: self.email.clone(),
            email_verified_at: self.email_verified_at,
            username: self.username.clone(),
            password: self.password.clone(),
            role: self.role,
            created_at: self.created_at,
            updated_at: self.updated_at,
        };
        proof {
            assert(res.password == self.password);
        }
        res
    }
}

/// The fields a caller supplies to create a user.
#[derive(Debug)]
pub struct CreateUser {
    pub email: String,
    pub username: String,
    pub password: String,
}

/// A recorded authentication of a user through an OpenID provider.
#[derive(Debug)]
pub struct UserLink {
    /// The user the link belongs to.
    pub user_id: UserId,
    /// The provider the user authenticated through.
    pub provider: AuthProvider,
    /// When the link was created.
    pub created_at: i64,
}

impl Clone for UserLink {
    fn clone(&self) -> (res: Self)
        ensures
            res == *self,
    {
        UserLink { user_id: self.user_id, provider: self.provider, created_at: self.created_at }
    }
}

/// A stored refresh token.
#[derive(Debug)]
pub struct UserRefreshToken {
    /// The user the token belongs to; at most one token per user.
    pub user_id: UserId,
    /// The token value itself; unique across all tokens.
    pub refresh_token: String,
    /// When the token was created.
    pub created_at: i64,
}

impl Clone for UserRefreshToken {
    fn clone(&self) -> (res: Self)
        ensures
            res == *self,
    {
        UserRefreshToken {
            user_id: self.user_id,
            refresh_token: self.refresh_token.clone(),
            created_at: self.created_at,
        }
    }
}

/// A write was refused because it would break a uniqueness constraint.
#[derive(Clone, Copy, Debug, PartialEq, Eq, Structural)]
pub enum StoreError {
    Duplicate,
}

/// Some user has id `id`.
pub open spec fn has_user_id(users: Seq<User>, id: UserId) -> bool {
    exists|i: int| 0 <= i < users.len() && (#[trigger] users[i]).id == id
}

/// The user with id `id`; meaningful only when `has_user_id` holds.
pub open spec fn user_of_id(users: Seq<User>, id: UserId) -> User {
    users[choose|i: int| 0 <= i < users.len() && (#[trigger] users[i]).id == id]
}

/// Some user has email `email`.
pub open spec fn has_user_email(users: Seq<User>, email: Seq<char>) -> bool {
    exists|i: int| 0 <= i < users.len() && (#[trigger] users[i]).email@ == email
}

/// The user with email `email`; meaningful only when `has_user_email` holds.
pub open spec fn user_of_email(users: Seq<User>, email: Seq<char>) -> User {
    users[choose|i: int| 0 <= i < users.len() && (#[trigger] users[i]).email@ == email]
}

/// Some user has username `name`.
pub open spec fn has_username(users: Seq<User>, name: Seq<char>) -> bool {
    exists|i: int| 0 <= i < users.len() && (#[trigger] users[i]).username@ == name
}

/// A link for `(user_id, provider)` exists.
pub open spec fn has_link(links: Seq<UserLink>, user_id: UserId, provider: AuthProvider) -> bool {
    exists|i: int|
        0 <= i < links.len() && (#[trigger] links[i]).user_id == user_id && links[i].provider
            == provider
}

/// Some stored token has value `value`.
pub open spec fn has_token_value(tokens: Seq<UserRefreshToken>, value: Seq<char>) -> bool {
    exists|i: int| 0 <= i < tokens.len() && (#[trigger] tokens[i]).refresh_token@ == value
}

/// The token with value `value`; meaningful only when `has_token_value` holds.
pub open spec fn token_of_value(tokens: Seq<UserRefreshToken>, value: Seq<char>) -> UserRefreshToken {
    tokens[choose|i: int| 0 <= i < tokens.len() && (#[trigger] tokens[i]).refresh_token@ == value]
}

/// Some stored token belongs to `user_id`.
pub open spec fn has_token_user(tokens: Seq<UserRefreshToken>, user_id: UserId) -> bool {
    exists|i: int| 0 <= i < tokens.len() && (#[trigger] tokens[i]).user_id == user_id
}

/// The token of `user_id`; meaningful only when `has_token_user` holds.
pub open spec fn token_of_user(tokens: Seq<UserRefreshToken>, user_id: UserId) -> UserRefreshToken {
    tokens[choose|i: int| 0 <= i < tokens.len() && (#[trigger] tokens[i]).user_id == user_id]
}

/// The refresh-token rows after an upsert keyed on `user_id`: the user now
/// owns exactly the token `value` created at `now`, any token the user owned
/// before is gone, and every other user's token is untouched.
pub open spec fn tokens_upserted(
    old_tokens: Seq<UserRefreshToken>,
    new_tokens: Seq<UserRefreshToken>,
    user_id: UserId,
    value: Seq<char>,
    now: i64,
) -> bool {
    &&& has_token_user(new_tokens, user_id)
    &&& token_of_user(new_tokens, user_id).refresh_token@ == value
    &&& token_of_user(new_tokens, user_id).created_at == now
    &&& forall|v: Seq<char>|
        #[trigger] has_token_value(new_tokens, v) <==> (v == value || (has_token_value(
            old_tokens,
            v,
        ) && token_of_value(old_tokens, v).user_id != user_id))
    &&& forall|u: UserId|
        #[trigger] has_token_user(new_tokens, u) <==> (u == user_id || has_token_user(
            old_tokens,
            u,
        ))
    &&& forall|u: UserId|
        u != user_id && #[trigger] has_token_user(old_tokens, u) ==> token_of_user(new_tokens, u)
            == token_of_user(old_tokens, u)
}

/// The credential store: user, link and refresh-token records.
pub struct CredentialStore {
    pub users: Vec<User>,
    pub links: Vec<UserLink>,
    pub tokens: Vec<UserRefreshToken>,
    /// The id the next created user receives.
    pub next_user_id: UserId,
}

impl CredentialStore {
    /// The record invariants: unique user ids below the id counter, unique
    /// lowercase emails, at most one link per (user, provider), unique token
    /// values, at most one token per user.
    pub open spec fn wf(self) -> bool {
        &&& forall|i: int, j: int|
            0 <= i < j < self.users@.len() ==> (#[trigger] self.users@[i]).id != (
            #[trigger] self.users@[j]).id
        &&& forall|i: int, j: int|
            0 <= i < j < self.users@.len() ==> (#[trigger] self.users@[i]).email@ != (
            #[trigger] self.users@[j]).email@
        &&& forall|i: int|
            0 <= i < self.users@.len() ==> (#[trigger] self.users@[i]).id < self.next_user_id
        &&& forall|i: int|
            0 <= i < self.users@.len() ==> is_lowercase((#[trigger] self.users@[i]).email@)
        &&& forall|i: int, j: int|
            0 <= i < j < self.links@.len() ==> !((#[trigger] self.links@[i]).user_id == (
            #[trigger] self.links@[j]).user_id && self.links@[i].provider == self.links@[j].provider)
        &&& forall|i: int, j: int|
            0 <= i < j < self.tokens@.len() ==> (#[trigger] self.tokens@[i]).refresh_token@ != (
            #[trigger] self.tokens@[j]).refresh_token@
        &&& forall|i: int, j: int|
            0 <= i < j < self.tokens@.len() ==> (#[trigger] self.tokens@[i]).user_id != (
            #[trigger] self.tokens@[j]).user_id
    }

    /// An empty store.
    pub fn new() -> (r: CredentialStore)
        ensures
            r.wf(),
            r.users@.len() == 0,
            r.links@.len() == 0,
            r.tokens@.len() == 0,
            r.next_user_id == 1,
    {
        CredentialStore { users: Vec::new(), links: Vec::new(), tokens: Vec::new(), next_user_id: 1 }
    }

    fn find_user_idx_by_id(&self, id: UserId) -> (r: Option<usize>)
        ensures
            match r {
                Some(i) => i < self.users@.len() && self.users@[i as int].id == id,
                None => !has_user_id(self.users@, id),
            },
    {
        let mut i: usize = 0;
        while i < self.users.len()
            invariant
                i <= self.users@.len(),
                forall|j: int| 0 <= j < i ==> (#[trigger] self.users@[j]).id != id,
            decreases self.users@.len() - i,
        {
            if self.users[i].id == id {
                return Some(i);
            }
            i = i + 1;
        }
        None
    }

    /// Finds a user by id.
    pub fn find_user_by_id(&self, id: UserId) -> (r: Option<&User>)
        requires
            self.wf(),
        ensures
            r is Some <==> has_user_id(self.users@, id),
            r is Some ==> *r->Some_0 == user_of_id(self.users@, id),
    {
        match self.find_user_idx_by_id(id) {
            Some(i) => {
                proof {
                    let w = choose|w: int|
                        0 <= w < self.users@.len() && (#[trigger] self.users@[w]).id == id;
                    if w != i {
                        assert(self.users@[w].id != self.users@[i as int].id);
                    }
                }
                Some(&self.users[i])
            },
            None => None,
        }
    }

    fn find_user_idx_by_email(&self, email: &str) -> (r: Option<usize>)
        ensures
            match r {
                Some(i) => i < self.users@.len() && self.users@[i as int].email@ == email@,
                None => !has_user_email(self.users@, email@),
            },
    {
        let mut i: usize = 0;
        while i < self.users.len()
            invariant
                i <= self.users@.len(),
                forall|j: int| 0 <= j < i ==> (#[trigger] self.users@[j]).email@ != email@,
            decreases self.users@.len() - i,
        {
            if str_eq(self.users[i].email.as_str(), email) {
                return Some(i);
            }
            i = i + 1;
        }
        None
    }

    /// Finds a user by its (already normalized) email address.
    pub fn find_user_by_email(&self, email: &crate::types::EmailAddress) -> (r: Option<&User>)
        requires
            self.wf(),
        ensures
            r is Some <==> has_user_email(self.users@, email@),
            r is Some ==> *r->Some_0 == user_of_email(self.users@, email@),
    {
        match self.find_user_idx_by_email(email.as_str()) {
            Some(i) => {
                proof {
                    let w = choose|w: int|
                        0 <= w < self.users@.len() && (#[trigger] self.users@[w]).email@ == email@;
                    if w != i {
                        assert(self.users@[w].email@ != self.users@[i as int].email@);
                    }
                }
                Some(&self.users[i])
            },
            None => None,
        }
    }

    /// Whether some user already holds this email address.
    pub fn is_email_taken(&self, email: &crate::types::EmailAddress) -> (r: bool)
        ensures
            r == has_user_email(self.users@, email@),
    {
        self.find_user_idx_by_email(email.as_str()).is_some()
    }

    /// Whether some user already holds this username.
    pub fn is_username_taken(&self, username: &str) -> (r: bool)
        ensures
            r == has_username(self.users@, username@),
    {
        let mut i: usize = 0;
        while i < self.users.len()
            invariant
                i <= self.users@.len(),
                forall|j: int| 0 <= j < i ==> (#[trigger] self.users@[j]).username@ != username@,
            decreases self.users@.len() - i,
        {
            if str_eq(self.users[i].username.as_str(), username) {
                return true;
            }
            i = i + 1;
        }
        false
    }

    /// Creates a new user from already validated fields; refused only when
    /// the email is already taken. `create.password` is the password hash.
    pub fn create_user(&mut self, create: CreateUser, now: i64) -> (r: Result<User, StoreError>)
        requires
            old(self).wf(),
            is_lowercase(create.email@),
            old(self).next_user_id < UserId::MAX,
        ensures
            final(self).wf(),
            r is Ok <==> !has_user_email(old(self).users@, create.email@),
            r is Err ==> *final(self) == *old(self) && r->Err_0 == StoreError::Duplicate,
            r matches Ok(u) ==> {
                &&& u.id == old(self).next_user_id
                &&& u.email@ == create.email@
                &&& u.username@ == create.username@
                &&& u.password matches Some(p) && p@ == create.password@
                &&& u.email_verified_at is None
                &&& u.role == UserRole::Standard
                &&& u.created_at == now
                &&& u.updated_at == now
                &&& final(self).users@ == old(self).users@.push(u)
                &&& final(self).next_user_id == old(self).next_user_id + 1
                &&& final(self).links@ == old(self).links@
                &&& final(self).tokens@ == old(self).tokens@
            },
    {
        if self.find_user_idx_by_email(create.email.as_str()).is_some() {
            return Err(StoreError::Duplicate);
        }
        let user = User {
            id: self.next_user_id,
            email: create.email,
            email_verified_at: None,
            username: create.username,
            password: Some(create.password),
            role: UserRole::Standard,
            created_at: now,
            updated_at: now,
        };
        let out = user.clone();
        self.users.push(user);
        self.next_user_id = self.next_user_id + 1;
        Ok(out)
    }

    /// Marks the email of the user with id `user_id` as verified at `now`;
    /// returns the updated record, or `None` when no such user exists.
    pub fn set_email_verified(&mut self, user_id: UserId, now: i64) -> (r: Option<User>)
        requires
            old(self).wf(),
        ensures
            final(self).wf(),
            r is Some <==> has_user_id(old(self).users@, user_id),
            r is None ==> *final(self) == *old(self),
            r matches Some(u) ==> {
                &&& (u == User {
                    email_verified_at: Some(now),
                    updated_at: now,
                    ..user_of_id(old(self).users@, user_id)
                })
                &&& final(self).users@.len() == old(self).users@.len()
                &&& forall|i: int|
                    0 <= i < old(self).users@.len() ==> final(self).users@[i] == (if (
                    #[trigger] old(self).users@[i]).id == user_id {
                        u
                    } else {
                        old(self).users@[i]
                    })
                &&& has_user_id(final(self).users@, user_id)
                &&& user_of_id(final(self).users@, user_id) == u
                &&& final(self).links@ == old(self).links@
                &&& final(self).tokens@ == old(self).tokens@
                &&& final(self).next_user_id == old(self).next_user_id
            },
    {
        match self.find_user_idx_by_id(user_id) {
            Some(i) => {
                proof {
                    let w = choose|w: int|
                        0 <= w < self.users@.len() && (#[trigger] self.users@[w]).id == user_id;
                    if w != i {
                        assert(self.users@[w].id != self.users@[i as int].id);
                    }
                }
                let updated = User {
                    email_verified_at: Some(now),
                    updated_at: now,
                    ..self.users[i].clone()
                };
                let out = updated.clone();
                let ghost old_users = self.users@;
                self.users[i] = updated;
                proof {
                    assert forall|a: int, b: int| 0 <= a < b < self.users@.len() implies (
                    #[trigger] self.users@[a]).id != (#[trigger] self.users@[b]).id by {
                        assert(old_users[a].id == self.users@[a].id);
                        assert(old_users[b].id == self.users@[b].id);
                    }
                    assert forall|a: int, b: int| 0 <= a < b < self.users@.len() implies (
                    #[trigger] self.users@[a]).email@ != (#[trigger] self.users@[b]).email@ by {
                        assert(old_users[a].email@ == self.users@[a].email@);
                        assert(old_users[b].email@ == self.users@[b].email@);
                    }
                    assert forall|a: int| 0 <= a < self.users@.len() implies is_lowercase((
                    #[trigger] self.users@[a]).email@) by {
                        assert(old_users[a].email@ == self.users@[a].email@);
                    }
                    let w2 = choose|w2: int|
                        0 <= w2 < self.users@.len() && (#[trigger] self.users@[w2]).id == user_id;
                    if w2 != i {
                        assert(self.users@[w2].id != self.users@[i as int].id);
                    }
                }
                Some(out)
            },
            None => None,
        }
    }

    fn find_link_idx(&self, user_id: UserId, provider: AuthProvider) -> (r: Option<usize>)
        ensures
            match r {
                Some(i) => i < self.links@.len() && self.links@[i as int].user_id == user_id
                    && self.links@[i as int].provider == provider,
                None => !has_link(self.links@, user_id, provider),
            },
    {
        let mut i: usize = 0;
        while i < self.links.len()
            invariant
                i <= self.links@.len(),
                forall|j: int|
                    0 <= j < i ==> !((#[trigger] self.links@[j]).user_id == user_id
                        && self.links@[j].provider == provider),
            decreases self.links@.len() - i,
        {
            let l = &self.links[i];
            if l.user_id == user_id && l.provider == provider {
                return Some(i);
            }
            i = i + 1;
        }
        None
    }

    /// Finds the link of `user_id` for `provider`, if one exists.
    pub fn find_link(&self, user_id: UserId, provider: AuthProvider) -> (r: Option<&UserLink>)
        requires
            self.wf(),
        ensures
            r is Some <==> has_link(self.links@, user_id, provider),
            r matches Some(l) ==> l.user_id == user_id && l.provider == provider,
    {
        match self.find_link_idx(user_id, provider) {
            Some(i) => Some(&self.links[i]),
            None => None,
        }
    }

    /// Records that `user_id` authenticated through `provider`; refused when
    /// such a link already exists.
    pub fn create_link(&mut self, user_id: UserId, provider: AuthProvider, now: i64) -> (r: Result<
        UserLink,
        StoreError,
    >)
        requires
            old(self).wf(),
        ensures
            final(self).wf(),
            r is Ok <==> !has_link(old(self).links@, user_id, provider),
            r is Err ==> *final(self) == *old(self) && r->Err_0 == StoreError::Duplicate,
            r matches Ok(l) ==> {
                &&& l.user_id == user_id
                &&& l.provider == provider
                &&& l.created_at == now
                &&& final(self).links@ == old(self).links@.push(l)
                &&& final(self).users@ == old(self).users@
                &&& final(self).tokens@ == old(self).tokens@
                &&& final(self).next_user_id == old(self).next_user_id
            },
    {
        if self.find_link_idx(user_id, provider).is_some() {
            return Err(StoreError::Duplicate);
        }
        let link = UserLink { user_id, provider, created_at: now };
        let out = link.clone();
        self.links.push(link);
        Ok(out)
    }

    fn find_token_idx_by_value(&self, value: &str) -> (r: Option<usize>)
        ensures
            match r {
                Some(i) => i < self.tokens@.len() && self.tokens@[i as int].refresh_token@
                    == value@,
                None => !has_token_value(self.tokens@, value@),
            },
    {
        let mut i: usize = 0;
        while i < self.tokens.len()
            invariant
                i <= self.tokens@.len(),
                forall|j: int|
                    0 <= j < i ==> (#[trigger] self.tokens@[j]).refresh_token@ != value@,
            decreases self.tokens@.len() - i,
        {
            if str_eq(self.tokens[i].refresh_token.as_str(), value) {
                return Some(i);
            }
            i = i + 1;
        }
        None
    }

    /// Finds a refresh token by its value.
    pub fn find_refresh_token(&self, value: &str) -> (r: Option<&UserRefreshToken>)
        requires
            self.wf(),
        ensures
            r is Some <==> has_token_value(self.tokens@, value@),
            r is Some ==> *r->Some_0 == token_of_value(self.tokens@, value@),
    {
        match self.find_token_idx_by_value(value) {
            Some(i) => {
                proof {
                    let w = choose|w: int|
                        0 <= w < self.tokens@.len() && (#[trigger] self.tokens@[w]).refresh_token@
                            == value@;
                    if w != i {
                        assert(self.tokens@[w].refresh_token@ != self.tokens@[i as int].refresh_token@);
                    }
                }
                Some(&self.tokens[i])
            },
            None => None,
        }
    }

    fn find_token_idx_by_user(&self, user_id: UserId) -> (r: Option<usize>)
        ensures
            match r {
                Some(i) => i < self.tokens@.len() && self.tokens@[i as int].user_id == user_id,
                None => !has_token_user(self.tokens@, user_id),
            },
    {
        let mut i: usize = 0;
        while i < self.tokens.len()
            invariant
                i <= self.tokens@.len(),
                forall|j: int| 0 <= j < i ==> (#[trigger] self.tokens@[j]).user_id != user_id,
            decreases self.tokens@.len() - i,
        {
            if self.tokens[i].user_id == user_id {
                return Some(i);
            }
            i = i + 1;
        }
        None
    }

    /// Replaces whatever refresh token `user_id` owned with `value`, created
    /// at `now` — an upsert keyed on the user id. Refused only when `value`
    /// is already the token of a different user.
    pub fn upsert_refresh_token(&mut self, user_id: UserId, value: String, now: i64) -> (r: Result<
        (),
        StoreError,
    >)
        requires
            old(self).wf(),
        ensures
            final(self).wf(),
            r is Ok <==> !(has_token_value(old(self).tokens@, value@) && token_of_value(
                old(self).tokens@,
                value@,
            ).user_id != user_id),
            r is Err ==> *final(self) == *old(self) && r->Err_0 == StoreError::Duplicate,
            r is Ok ==> {
                &&& tokens_upserted(old(self).tokens@, final(self).tokens@, user_id, value@, now)
                &&& final(self).users@ == old(self).users@
                &&& final(self).links@ == old(self).links@
                &&& final(self).next_user_id == old(self).next_user_id
            },
    {
        match self.find_token_idx_by_value(value.as_str()) {
            Some(i) => {
                if self.tokens[i].user_id != user_id {
                    proof {
                        let w = choose|w: int|
                            0 <= w < self.tokens@.len() && (
                            #[trigger] self.tokens@[w]).refresh_token@ == value@;
                        if w != i {
                            assert(self.tokens@[w].refresh_token@ != self.tokens@[i as int].refresh_token@);
                        }
                    }
                    return Err(StoreError::Duplicate);
                }
            },
            None => {},
        }
        proof {
            if has_token_value(self.tokens@, value@) {
                let w = choose|w: int|
                    0 <= w < self.tokens@.len() && (#[trigger] self.tokens@[w]).refresh_token@
                        == value@;
                assert(token_of_value(self.tokens@, value@) == self.tokens@[w]);
            }
        }
        let new_token = UserRefreshToken { user_id, refresh_token: value, created_at: now };
        let ghost t0 = self.tokens@;
        match self.find_token_idx_by_user(user_id) {
            Some(i) => {
                let ghost gi = i as int;
                self.tokens.remove(i);
                let ghost t1 = self.tokens@;
                self.tokens.push(new_token);
                proof {
                    lemma_upsert_removed(t0, t1, self.tokens@, gi, user_id, new_token);
                }
            },
            None => {
                self.tokens.push(new_token);
                proof {
                    lemma_upsert_pushed(t0, self.tokens@, user_id, new_token);
                }
            },
        }
        Ok(())
    }
}

/// Uniqueness of token values and owners in a token sequence.
pub open spec fn tokens_wf(tokens: Seq<UserRefreshToken>) -> bool {
    &&& forall|i: int, j: int|
        0 <= i < j < tokens.len() ==> (#[trigger] tokens[i]).refresh_token@ != (
        #[trigger] tokens[j]).refresh_token@
    &&& forall|i: int, j: int|
        0 <= i < j < tokens.len() ==> (#[trigger] tokens[i]).user_id != (
        #[trigger] tokens[j]).user_id
}

proof fn lemma_upsert_removed(
    t0: Seq<UserRefreshToken>,
    t1: Seq<UserRefreshToken>,
    t2: Seq<UserRefreshToken>,
    i: int,
    user_id: UserId,
    new_token: UserRefreshToken,
)
    requires
        tokens_wf(t0),
        0 <= i < t0.len(),
        t0[i].user_id == user_id,
        !(has_token_value(t0, new_token.refresh_token@) && token_of_value(
            t0,
            new_token.refresh_token@,
        ).user_id != user_id),
        new_token.user_id == user_id,
        t1 == t0.remove(i),
        t2 == t1.push(new_token),
    ensures
        tokens_wf(t2),
        tokens_upserted(t0, t2, user_id, new_token.refresh_token@, new_token.created_at),
{
    let n0 = t0.len() as int;
    let last = t2.len() - 1;
    // Every t2 index below `last` maps to a t0 index other than i.
    assert forall|j: int| 0 <= j < last implies #[trigger] t2[j] == t0[if j < i {
        j
    } else {
        j + 1
    }] && (if j < i {
        j
    } else {
        j + 1
    }) != i by {}
    // The new token sits at `last` and is the only token of `user_id`.
    assert(t2[last] == new_token);
    assert forall|j: int| 0 <= j < last implies (#[trigger] t2[j]).user_id != user_id by {
        let k = if j < i {
            j
        } else {
            j + 1
        };
        if k < i {
            assert(t0[k].user_id != t0[i].user_id);
        } else {
            assert(t0[i].user_id != t0[k].user_id);
        }
    }
    // Values in t2 below `last` differ from the new value.
    assert forall|j: int| 0 <= j < last implies (#[trigger] t2[j]).refresh_token@
        != new_token.refresh_token@ by {
        let k = if j < i {
            j
        } else {
            j + 1
        };
        if t0[k].refresh_token@ == new_token.refresh_token@ {
            assert(has_token_value(t0, new_token.refresh_token@));
            let w = choose|w: int|
                0 <= w < t0.len() && (#[trigger] t0[w]).refresh_token@
                    == new_token.refresh_token@;
            if w != k {
                if w < k {
                    assert(t0[w].refresh_token@ != t0[k].refresh_token@);
                } else {
                    assert(t0[k].refresh_token@ != t0[w].refresh_token@);
                }
            }
            assert(t0[k].user_id == user_id);
            assert(false);
        }
    }
    assert(tokens_wf(t2)) by {
        assert forall|a: int, b: int| 0 <= a < b < t2.len() implies (
        #[trigger] t2[a]).refresh_token@ != (#[trigger] t2[b]).refresh_token@ && t2[a].user_id
            != t2[b].user_id by {
            if b < last {
                let ka = if a < i {
                    a
                } else {
                    a + 1
                };
                let kb = if b < i {
                    b
                } else {
                    b + 1
                };
                assert(t0[ka].refresh_token@ != t0[kb].refresh_token@);
                assert(t0[ka].user_id != t0[kb].user_id);
            }
        }
    }
    assert(has_token_user(t2, user_id));
    assert(token_of_user(t2, user_id) == new_token) by {
        let w = choose|w: int| 0 <= w < t2.len() && (#[trigger] t2[w]).user_id == user_id;
        if w != last {
            assert(t2[w].user_id != user_id);
        }
    }
    assert forall|v: Seq<char>| #[trigger] has_token_value(t2, v) <==> (v
        == new_token.refresh_token@ || (has_token_value(t0, v) && token_of_value(t0, v).user_id
        != user_id)) by {
        if has_token_value(t2, v) {
            let w = choose|w: int| 0 <= w < t2.len() && (#[trigger] t2[w]).refresh_token@ == v;
            if w != last {
                let k = if w < i {
                    w
                } else {
                    w + 1
                };
                assert(t0[k].refresh_token@ == v);
                assert(has_token_value(t0, v));
                let w0 = choose|w0: int| 0 <= w0 < t0.len() && (#[trigger] t0[w0]).refresh_token@ == v;
                if w0 != k {
                    if w0 < k {
                        assert(t0[w0].refresh_token@ != t0[k].refresh_token@);
                    } else {
                        assert(t0[k].refresh_token@ != t0[w0].refresh_token@);
                    }
                }
                assert(token_of_value(t0, v) == t0[k]);
                assert(t2[w].user_id != user_id);
            }
        }
        if v == new_token.refresh_token@ {
            assert(t2[last].refresh_token@ == v);
            assert(has_token_value(t2, v));
        }
        if has_token_value(t0, v) && token_of_value(t0, v).user_id != user_id {
            let w0 = choose|w0: int| 0 <= w0 < t0.len() && (#[trigger] t0[w0]).refresh_token@ == v;
            assert(token_of_value(t0, v) == t0[w0]) by {
                let w1 = choose|w1: int|
                    0 <= w1 < t0.len() && (#[trigger] t0[w1]).refresh_token@ == v;
                if w1 != w0 {
                    if w1 < w0 {
                        assert(t0[w1].refresh_token@ != t0[w0].refresh_token@);
                    } else {
                        assert(t0[w0].refresh_token@ != t0[w1].refresh_token@);
                    }
                }
            }
            assert(w0 != i);
            let j = if w0 < i {
                w0
            } else {
                w0 - 1
            };
            assert(t2[j].refresh_token@ == v);
            assert(has_token_value(t2, v));
        }
    }
    assert forall|u: UserId| #[trigger] has_token_user(t2, u) <==> (u == user_id
        || has_token_user(t0, u)) by {
        if has_token_user(t2, u) && u != user_id {
            let w = choose|w: int| 0 <= w < t2.len() && (#[trigger] t2[w]).user_id == u;
            assert(w != last);
            let k = if w < i {
                w
            } else {
                w + 1
            };
            assert(t0[k].user_id == u);
            assert(has_token_user(t0, u));
        }
        if u == user_id {
            assert(t2[last].user_id == u);
            assert(has_token_user(t2, u));
        }
        if has_token_user(t0, u) && u != user_id {
            let w0 = choose|w0: int| 0 <= w0 < t0.len() && (#[trigger] t0[w0]).user_id == u;
            assert(w0 != i);
            let j = if w0 < i {
                w0
            } else {
                w0 - 1
            };
            assert(t2[j].user_id == u);
            assert(has_token_user(t2, u));
        }
    }
    assert forall|u: UserId| u != user_id && #[trigger] has_token_user(t0, u) implies token_of_user(
        t2,
        u,
    ) == token_of_user(t0, u) by {
        let w0 = choose|w0: int| 0 <= w0 < t0.len() && (#[trigger] t0[w0]).user_id == u;
        assert(token_of_user(t0, u) == t0[w0]) by {
            let w1 = choose|w1: int| 0 <= w1 < t0.len() && (#[trigger] t0[w1]).user_id == u;
            if w1 != w0 {
                if w1 < w0 {
                    assert(t0[w1].user_id != t0[w0].user_id);
                } else {
                    assert(t0[w0].user_id != t0[w1].user_id);
                }
            }
        }
        assert(w0 != i);
        let j = if w0 < i {
            w0
        } else {
            w0 - 1
        };
        assert(t2[j].user_id == u);
        let w2 = choose|w2: int| 0 <= w2 < t2.len() && (#[trigger] t2[w2]).user_id == u;
        if w2 != j {
            if w2 < j {
                assert(t2[w2].user_id != t2[j].user_id);
            } else {
                assert(t2[j].user_id != t2[w2].user_id);
            }
        }
        assert(token_of_user(t2, u) == t2[j]);
    }
}

proof fn lemma_upsert_pushed(
    t0: Seq<UserRefreshToken>,
    t2: Seq<UserRefreshToken>,
    user_id: UserId,
    new_token: UserRefreshToken,
)
    requires
        tokens_wf(t0),
        !has_token_user(t0, user_id),
        !(has_token_value(t0, new_token.refresh_token@) && token_of_value(
            t0,
            new_token.refresh_token@,
        ).user_id != user_id),
        new_token.user_id == user_id,
        t2 == t0.push(new_token),
    ensures
        tokens_wf(t2),
        tokens_upserted(t0, t2, user_id, new_token.refresh_token@, new_token.created_at),
{
    let n0 = t0.len() as int;
    let last = t2.len() - 1;
    assert(t2[last] == new_token);
    assert forall|j: int| 0 <= j < n0 implies #[trigger] t2[j] == t0[j] by {}
    // No old token carries the new value: its owner would have to be `user_id`,
    // but no old token belongs to `user_id`.
    assert forall|j: int| 0 <= j < n0 implies (#[trigger] t0[j]).refresh_token@
        != new_token.refresh_token@ by {
        if t0[j].refresh_token@ == new_token.refresh_token@ {
            assert(has_token_value(t0, new_token.refresh_token@));
            let w = choose|w: int|
                0 <= w < t0.len() && (#[trigger] t0[w]).refresh_token@
                    == new_token.refresh_token@;
            if w != j {
                if w < j {
                    assert(t0[w].refresh_token@ != t0[j].refresh_token@);
                } else {
                    assert(t0[j].refresh_token@ != t0[w].refresh_token@);
                }
            }
            assert(t0[j].user_id == user_id);
            assert(false);
        }
    }
    assert(tokens_wf(t2)) by {
        assert forall|a: int, b: int| 0 <= a < b < t2.len() implies (
        #[trigger] t2[a]).refresh_token@ != (#[trigger] t2[b]).refresh_token@ && t2[a].user_id
            != t2[b].user_id by {
            if b < last {
                assert(t0[a].refresh_token@ != t0[b].refresh_token@);
                assert(t0[a].user_id != t0[b].user_id);
            } else {
                assert(t0[a].user_id != user_id);
            }
        }
    }
    assert(has_token_user(t2, user_id));
    assert(token_of_user(t2, user_id) == new_token) by {
        let w = choose|w: int| 0 <= w < t2.len() && (#[trigger] t2[w]).user_id == user_id;
        if w != last {
            assert(t0[w].user_id == user_id);
        }
    }
    assert forall|v: Seq<char>| #[trigger] has_token_value(t2, v) <==> (v
        == new_token.refresh_token@ || (has_token_value(t0, v) && token_of_value(t0, v).user_id
        != user_id)) by {
        if has_token_value(t2, v) {
            let w = choose|w: int| 0 <= w < t2.len() && (#[trigger] t2[w]).refresh_token@ == v;
            if w != last {
                assert(t0[w].refresh_token@ == v);
                assert(has_token_value(t0, v));
                let w0 = choose|w0: int| 0 <= w0 < t0.len() && (#[trigger] t0[w0]).refresh_token@ == v;
                if w0 != w {
                    if w0 < w {
                        assert(t0[w0].refresh_token@ != t0[w].refresh_token@);
                    } else {
                        assert(t0[w].refresh_token@ != t0[w0].refresh_token@);
                    }
                }
                assert(token_of_value(t0, v) == t0[w]);
                assert(t0[w].user_id != user_id);
            }
        }
        if v == new_token.refresh_token@ {
            assert(t2[last].refresh_token@ == v);
            assert(has_token_value(t2, v));
        }
        if has_token_value(t0, v) && token_of_value(t0, v).user_id != user_id {
            let w0 = choose|w0: int| 0 <= w0 < t0.len() && (#[trigger] t0[w0]).refresh_token@ == v;
            assert(t2[w0].refresh_token@ == v);
            assert(has_token_value(t2, v));
        }
    }
    assert forall|u: UserId| #[trigger] has_token_user(t2, u) <==> (u == user_id
        || has_token_user(t0, u)) by {
        if has_token_user(t2, u) && u != user_id {
            let w = choose|w: int| 0 <= w < t2.len() && (#[trigger] t2[w]).user_id == u;
            assert(w != last);
            assert(t0[w].user_id == u);
            assert(has_token_user(t0, u));
        }
        if u == user_id {
            assert(t2[last].user_id == u);
            assert(has_token_user(t2, u));
        }
        if has_token_user(t0, u) && u != user_id {
            let w0 = choose|w0: int| 0 <= w0 < t0.len() && (#[trigger] t0[w0]).user_id == u;
            assert(t2[w0].user_id == u);
            assert(has_token_user(t2, u));
        }
    }
    assert forall|u: UserId| u != user_id && #[trigger] has_token_user(t0, u) implies token_of_user(
        t2,
        u,
    ) == token_of_user(t0, u) by {
        let w0 = choose|w0: int| 0 <= w0 < t0.len() && (#[trigger] t0[w0]).user_id == u;
        assert(token_of_user(t0, u) == t0[w0]) by {
            let w1 = choose|w1: int| 0 <= w1 < t0.len() && (#[trigger] t0[w1]).user_id == u;
            if w1 != w0 {
                if w1 < w0 {
                    assert(t0[w1].user_id != t0[w0].user_id);
                } else {
                    assert(t0[w0].user_id != t0[w1].user_id);
                }
            }
        }
        assert(t2[w0].user_id == u);
        let w2 = choose|w2: int| 0 <= w2 < t2.len() && (#[trigger] t2[w2]).user_id == u;
        if w2 != w0 {
            if w2 < w0 {
                assert(t2[w2].user_id != t2[w0].user_id);
            } else {
                assert(t2[w0].user_id != t2[w2].user_id);
            }
        }
        assert(token_of_user(t2, u) == t2[w0]);
    }
}

} // verus!
