//! The interface the routing layer calls: registration, login, cookie
//! verification, logout — the user store and the signing key behind one
//! door.

use vstd::prelude::*;

use crate::crypto::{phc_matches, SigningKey};
use crate::errors::{SessionError, StoreError};
use crate::session::{
    cookie_login, cookie_logout, session_cookie_name, CookieSpec, SessionToken, TOKEN_TTL_SECONDS,
};
use crate::user::{User, UserStore};

verus! {

/// The authentication service: one user store, one process-wide key.
pub struct Auth {
    store: UserStore,
    key: SigningKey,
}

impl Auth {
    /// The registered users, in registration order.
    pub closed spec fn users(&self) -> Seq<User> {
        self.store@
    }

    /// The signing key's bytes.
    pub closed spec fn key_view(&self) -> Seq<u8> {
        self.key@
    }

    /// The store's invariant carries over.
    pub closed spec fn wf(&self) -> bool {
        self.store.wf()
    }

    /// A service with no users yet, under `key`.
    pub fn new(key: SigningKey) -> (r: Auth)
        ensures
            r.wf(),
            r.users() == Seq::<User>::empty(),
            r.key_view() == key@,
    {
        Auth { store: UserStore::new(), key }
    }

    /// How many users are registered.
    pub fn user_count(&self) -> (n: usize)
        ensures
            n == self.users().len(),
    {
        self.store.len()
    }

    /// Register a new account and mint its first session.
    ///
    /// Fails with `UsernameTaken` exactly when the username is already
    /// registered; on success the new user carries the next identifier and
    /// the token is bound to it, expiring `TOKEN_TTL_SECONDS` after `now`.
    pub fn register(&mut self, username: &Vec<u8>, password: &Vec<u8>, now: u64) -> (r: Result<
        (User, SessionToken),
        StoreError,
    >)
        requires
            old(self).wf(),
            old(self).users().len() < u64::MAX,
            now + TOKEN_TTL_SECONDS <= u64::MAX,
        ensures
            final(self).wf(),
            final(self).key_view() == old(self).key_view(),
            UserStore::has_username(old(self).users(), username@) ==> r == Err::<
                (User, SessionToken),
                StoreError,
            >(StoreError::UsernameTaken) && final(self).users() == old(self).users(),
            !UserStore::has_username(old(self).users(), username@) ==> match r {
                Ok((u, tok)) => {
                    &&& final(self).users().len() == old(self).users().len() + 1
                    &&& final(self).users() == old(self).users().push(final(self).users().last())
                    &&& u.id == old(self).users().len() + 1
                    &&& u.username@ == username@
                    &&& phc_matches(password@, u.password_hash@)
                    &&& final(self).users().last().id == u.id
                    &&& final(self).users().last().username@ == u.username@
                    &&& final(self).users().last().password_hash@ == u.password_hash@
                    &&& tok.user_id == u.id
                    &&& tok.expiry == now + TOKEN_TTL_SECONDS
                },
                Err(e) => e == StoreError::Other && final(self).users() == old(self).users(),
            },
    {
        match self.store.insert(username, password) {
            Err(e) => Err(e),
            Ok(u) => {
                let tok = SessionToken::create(&u, now);
                Ok((u, tok))
            },
        }
    }

    /// Log an existing account in.
    ///
    /// Succeeds exactly when the username exists and the password matches
    /// its stored record; every failure is the one `InvalidCredentials`.
    pub fn login(&self, username: &Vec<u8>, password: &Vec<u8>, now: u64) -> (r: Result<
        (User, SessionToken),
        StoreError,
    >)
        requires
            self.wf(),
            now + TOKEN_TTL_SECONDS <= u64::MAX,
        ensures
            (r is Ok) <==> UserStore::credentials_ok(self.users(), username@, password@),
            r is Ok ==> r->Ok_0.1.user_id == r->Ok_0.0.id && r->Ok_0.1.expiry == now
                + TOKEN_TTL_SECONDS && UserStore::found_user(
                self.users(),
                username@,
                password@,
                r->Ok_0.0,
            ),
            r is Err ==> r->Err_0 == StoreError::InvalidCredentials,
    {
        match self.store.get_and_verify(username, password) {
            Err(e) => Err(e),
            Ok(u) => {
                let tok = SessionToken::create(&u, now);
                Ok((u, tok))
            },
        }
    }

    /// Verify a presented cookie value and yield the user it names.
    ///
    /// Exactly the token pipeline's rejections pass through; a token that
    /// verifies but names no registered user is discarded as `Malformed`
    /// (the whole cookie is distrusted, never partially).
    pub fn authenticate(&self, cookie_value: &Vec<u8>, now: u64) -> (r: Result<User, SessionError>)
        requires
            self.wf(),
        ensures
            match SessionToken::parse_spec(cookie_value@, self.key_view(), now) {
                Err(e) => r == Err::<User, SessionError>(e),
                Ok(tok) => {
                    if 1 <= tok.user_id && tok.user_id <= self.users().len() {
                        &&& r is Ok
                        &&& r->Ok_0.id == tok.user_id
                        &&& r->Ok_0.username@ == self.users()[tok.user_id - 1].username@
                        &&& r->Ok_0.password_hash@ == self.users()[tok.user_id - 1].password_hash@
                    } else {
                        r == Err::<User, SessionError>(SessionError::Malformed)
                    }
                },
            },
    {
        match SessionToken::parse_and_verify(cookie_value, &self.key, now) {
            Err(e) => Err(e),
            Ok(tok) => match self.store.get_by_id(tok.user_id) {
                Some(u) => Ok(u),
                None => Err(SessionError::Malformed),
            },
        }
    }

    /// The cookie that carries `tok` to the client.
    pub fn login_cookie(&self, tok: &SessionToken) -> (c: CookieSpec)
        ensures
            c.name@ == session_cookie_name(),
            c.value@ == tok.token_bytes(self.key_view()),
            c.max_age == TOKEN_TTL_SECONDS,
    {
        cookie_login(tok, &self.key)
    }

    /// The cookie that logs the client out.
    pub fn logout_cookie() -> (c: CookieSpec)
        ensures
            c.name@ == session_cookie_name(),
            c.value@ == Seq::<u8>::empty(),
            c.max_age == 0,
    {
        cookie_logout()
    }
}

} // verus!
