//! Users and the store that owns them.
//!
//! The store enforces unique usernames and assigns identifiers in order of
//! registration, starting at 1. Login never reports whether the username or
//! the password was the wrong part: both failures are the same error.

use vstd::prelude::*;

use crate::crypto::phc_matches;
use crate::errors::StoreError;
use crate::hasher;

verus! {

/// A registered user: immutable once created.
pub struct User {
    /// Identifier assigned by the store; unique and never reused.
    pub id: u64,
    /// Unique username, as bytes.
    pub username: Vec<u8>,
    /// Salted password-hash record produced by `hasher::hash`.
    pub password_hash: Vec<u8>,
}

/// A field-for-field copy of a byte vector.
pub fn copy_bytes(v: &Vec<u8>) -> (r: Vec<u8>)
    ensures
        r@ == v@,
{
    let mut r: Vec<u8> = Vec::new();
    let mut i: usize = 0;
    while i < v.len()
        invariant
            i <= v.len(),
            r@ == v@.take(i as int),
        decreases v.len() - i,
    {
        r.push(v[i]);
        proof {
            assert(r@ =~= v@.take(i + 1));
        }
        i = i + 1;
    }
    proof {
        assert(v@.take(v@.len() as int) =~= v@);
    }
    r
}

impl User {
    /// A copy with the same fields.
    pub fn duplicate(&self) -> (r: User)
        ensures
            r.id == self.id,
            r.username@ == self.username@,
            r.password_hash@ == self.password_hash@,
    {
        User {
            id: self.id,
            username: copy_bytes(&self.username),
            password_hash: copy_bytes(&self.password_hash),
        }
    }
}

/// The mapping from username to user. Identifiers are positions plus one.
pub struct UserStore {
    users: Vec<User>,
}

impl View for UserStore {
    type V = Seq<User>;

    closed spec fn view(&self) -> Seq<User> {
        self.users@
    }
}

impl UserStore {
    /// Some user in `s` carries the username `name`.
    pub open spec fn has_username(s: Seq<User>, name: Seq<u8>) -> bool {
        exists|i: int| 0 <= i < s.len() && (#[trigger] s[i].username@) == name
    }

    /// Some user in `s` carries `username` and a record matching `password`.
    pub open spec fn credentials_ok(s: Seq<User>, username: Seq<u8>, password: Seq<u8>) -> bool {
        exists|i: int|
            0 <= i < s.len() && (#[trigger] s[i].username@) == username && phc_matches(
                password,
                s[i].password_hash@,
            )
    }

    /// `u` copies the fields of the user in `s` that carries `username`,
    /// whose record matches `password`.
    pub open spec fn found_user(s: Seq<User>, username: Seq<u8>, password: Seq<u8>, u: User) -> bool {
        exists|i: int|
            0 <= i < s.len() && (#[trigger] s[i].username@) == username && phc_matches(
                password,
                s[i].password_hash@,
            ) && u.id == s[i].id && u.username@ == s[i].username@ && u.password_hash@
                == s[i].password_hash@
    }

    /// Identifiers are assigned in order starting at 1, and usernames are
    /// unique.
    pub open spec fn wf(&self) -> bool {
        &&& forall|i: int| 0 <= i < self@.len() ==> (#[trigger] self@[i]).id == i + 1
        &&& forall|i: int, j: int|
            0 <= i < j < self@.len() ==> (#[trigger] self@[i].username@) != (
            #[trigger] self@[j].username@)
    }

    /// An empty store.
    pub fn new() -> (r: UserStore)
        ensures
            r@ == Seq::<User>::empty(),
            r.wf(),
    {
        UserStore { users: Vec::new() }
    }

    /// How many users are registered.
    pub fn len(&self) -> (n: usize)
        ensures
            n == self@.len(),
    {
        self.users.len()
    }

    /// Whether two byte vectors hold the same bytes.
    fn names_eq(a: &Vec<u8>, b: &Vec<u8>) -> (r: bool)
        ensures
            r == (a@ == b@),
    {
        if a.len() != b.len() {
            return false;
        }
        let mut i: usize = 0;
        while i < a.len()
            invariant
                i <= a.len(),
                a@.len() == b@.len(),
                forall|j: int| 0 <= j < i ==> a@[j] == b@[j],
            decreases a.len() - i,
        {
            if a[i] != b[i] {
                return false;
            }
            i = i + 1;
        }
        proof {
            assert(a@ =~= b@);
        }
        true
    }

    /// Position of the user carrying `username`, if any.
    fn find_index(&self, username: &Vec<u8>) -> (r: Option<usize>)
        ensures
            match r {
                Some(i) => i < self@.len() && self@[i as int].username@ == username@,
                None => !Self::has_username(self@, username@),
            },
    {
        let mut i: usize = 0;
        while i < self.users.len()
            invariant
                i <= self.users.len(),
                forall|j: int| 0 <= j < i ==> (#[trigger] self@[j].username@) != username@,
            decreases self.users.len() - i,
        {
            if Self::names_eq(&self.users[i].username, username) {
                return Some(i);
            }
            i = i + 1;
        }
        None
    }

    /// Register a username with a freshly hashed password.
    ///
    /// Exactly when the username is already present the result is
    /// `UsernameTaken` and the store is unchanged. Otherwise a user with the
    /// next identifier is appended and returned — unless the hashing
    /// primitive fails, which is reported as `Other`, never as a credential
    /// error, with the store unchanged.
    pub fn insert(&mut self, username: &Vec<u8>, password: &Vec<u8>) -> (r: Result<
        User,
        StoreError,
    >)
        requires
            old(self).wf(),
            old(self)@.len() < u64::MAX,
        ensures
            final(self).wf(),
            Self::has_username(old(self)@, username@) ==> r == Err::<User, StoreError>(
                StoreError::UsernameTaken,
            ) && final(self)@ == old(self)@,
            !Self::has_username(old(self)@, username@) ==> match r {
                Ok(u) => {
                    &&& final(self)@.len() == old(self)@.len() + 1
                    &&& final(self)@ == old(self)@.push(final(self)@.last())
                    &&& u.id == old(self)@.len() + 1
                    &&& u.username@ == username@
                    &&& phc_matches(password@, u.password_hash@)
                    &&& final(self)@.last().id == u.id
                    &&& final(self)@.last().username@ == u.username@
                    &&& final(self)@.last().password_hash@ == u.password_hash@
                },
                Err(e) => e == StoreError::Other && final(self)@ == old(self)@,
            },
    {
        match self.find_index(username) {
            Some(_) => Err(StoreError::UsernameTaken),
            None => {
                match hasher::hash(password) {
                    None => Err(StoreError::Other),
                    Some(rec) => {
                        let id = (self.users.len() as u64) + 1;
                        let user = User {
                            id,
                            username: copy_bytes(username),
                            password_hash: rec,
                        };
                        let ret = user.duplicate();
                        self.users.push(user);
                        proof {
                            assert forall|i: int, j: int| 0 <= i < j < self@.len() implies (
                            #[trigger] self@[i].username@) != (#[trigger] self@[j].username@) by {
                                if j < self@.len() - 1 {
                                } else {
                                    assert(self@[i] == old(self)@[i]);
                                    assert(!Self::has_username(old(self)@, username@));
                                }
                            }
                        }
                        Ok(ret)
                    },
                }
            },
        }
    }

    /// Look the username up and check the password against the stored
    /// record.
    ///
    /// Succeeds exactly when a user with that username exists and the
    /// password matches its record; both an unknown username and a wrong
    /// password yield the one error `InvalidCredentials`.
    pub fn get_and_verify(&self, username: &Vec<u8>, password: &Vec<u8>) -> (r: Result<
        User,
        StoreError,
    >)
        requires
            self.wf(),
        ensures
            (r is Ok) <==> Self::credentials_ok(self@, username@, password@),
            r is Ok ==> Self::found_user(self@, username@, password@, r->Ok_0),
            r is Err ==> r->Err_0 == StoreError::InvalidCredentials,
    {
        match self.find_index(username) {
            None => Err(StoreError::InvalidCredentials),
            Some(i) => {
                if hasher::verify(password, &self.users[i].password_hash) {
                    Ok(self.users[i].duplicate())
                } else {
                    proof {
                        assert forall|k: int|
                            0 <= k < self@.len() && (#[trigger] self@[k].username@)
                                == username@ implies k == i by {
                            if k < i {
                                assert(self@[k].username@ != self@[i as int].username@);
                            } else if k > i {
                                assert(self@[i as int].username@ != self@[k].username@);
                            }
                        }
                    }
                    Err(StoreError::InvalidCredentials)
                }
            },
        }
    }

    /// The user carrying identifier `id`, if one exists.
    pub fn get_by_id(&self, id: u64) -> (r: Option<User>)
        requires
            self.wf(),
        ensures
            (r is Some) <==> (1 <= id && id <= self@.len()),
            r is Some ==> r->0.id == id && r->0.username@ == self@[id - 1].username@
                && r->0.password_hash@ == self@[id - 1].password_hash@,
    {
        if id >= 1 && id <= self.users.len() as u64 {
            let idx = (id - 1) as usize;
            proof {
                assert(self.users.len() <= usize::MAX);
                assert(id - 1 < self@.len());
                assert(idx == id - 1);
            }
            Some(self.users[idx].duplicate())
        } else {
            None
        }
    }
}

} // verus!
