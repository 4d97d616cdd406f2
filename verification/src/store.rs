//! The account records and the repository model they live in. The repository
//! is the authoritative enforcer of uniqueness: usernames, emails and ids are
//! each unique across all accounts at all times, an insert that would break
//! that is rejected whole, and lookups are exact, case-sensitive matches.

use vstd::prelude::*;

use crate::errors::AppError;

verus! {

/// An account record: identity, credentials and creation time. The
/// `password_hash` field holds the output of the credential hasher, never the
/// plaintext, and is never serialized outward.
#[derive(Debug, Clone)]
pub struct User {
    pub id: String,
    pub username: String,
    pub email: String,
    pub password_hash: String,
    pub created_at: String,
}

/// Whether some account in `s` has this username (exact, case-sensitive).
pub open spec fn has_username(s: Seq<User>, name: Seq<char>) -> bool {
    exists|i: int| 0 <= i < s.len() && s[i].username@ == name
}

/// Whether some account in `s` has this email (exact, case-sensitive).
pub open spec fn has_email(s: Seq<User>, email: Seq<char>) -> bool {
    exists|i: int| 0 <= i < s.len() && s[i].email@ == email
}

/// Whether some account in `s` has this id.
pub open spec fn has_id(s: Seq<User>, id: Seq<char>) -> bool {
    exists|i: int| 0 <= i < s.len() && s[i].id@ == id
}

/// The position of the account with this username; meaningful only when
/// `has_username` holds, and then unique in a well-formed store.
pub open spec fn username_index(s: Seq<User>, name: Seq<char>) -> int {
    choose|i: int| 0 <= i < s.len() && s[i].username@ == name
}

/// The account with this username; meaningful only when `has_username` holds.
pub open spec fn user_with_username(s: Seq<User>, name: Seq<char>) -> User {
    s[username_index(s, name)]
}

/// The repository of account records. It models the single relational table
/// the flows touch: an insertion-ordered sequence of records with uniqueness
/// enforced on insert.
pub struct UserStore {
    users: Vec<User>,
}

impl View for UserStore {
    type V = Seq<User>;

    closed spec fn view(&self) -> Seq<User> {
        self.users@
    }
}

impl UserStore {
    /// The store invariant: usernames, emails and ids are pairwise distinct.
    pub open spec fn wf(&self) -> bool {
        forall|i: int, j: int|
            0 <= i < j < self@.len() ==> (self@[i].username@ != self@[j].username@
                && self@[i].email@ != self@[j].email@ && self@[i].id@ != self@[j].id@)
    }

    /// An empty store, trivially well formed.
    pub fn new() -> (s: Self)
        ensures
            s@ =~= Seq::<User>::empty(),
            s.wf(),
    {
        UserStore { users: Vec::new() }
    }

    /// How many accounts the store holds.
    pub fn len(&self) -> (n: usize)
        ensures
            n == self@.len(),
    {
        self.users.len()
    }

    /// Whether an account with this username or this email already exists:
    /// the uniqueness pre-check of registration.
    pub fn has_conflict(&self, username: &String, email: &String) -> (r: bool)
        ensures
            r == (has_username(self@, username@) || has_email(self@, email@)),
    {
        let n = self.users.len();
        let mut i: usize = 0;
        while i < n
            invariant
                i <= n,
                n == self@.len(),
                forall|k: int|
                    0 <= k < i ==> (self@[k].username@ != username@ && self@[k].email@ != email@),
            decreases n - i,
        {
            if self.users[i].username == *username || self.users[i].email == *email {
                return true;
            }
            i += 1;
        }
        false
    }

    /// Looks up the unique account with this username, if any.
    pub fn find_by_username(&self, username: &String) -> (r: Option<&User>)
        requires
            self.wf(),
        ensures
            r is Some <==> has_username(self@, username@),
            r matches Some(u) ==> *u == user_with_username(self@, username@) && u.username@
                == username@,
    {
        let n = self.users.len();
        let mut i: usize = 0;
        while i < n
            invariant
                i <= n,
                n == self@.len(),
                self.wf(),
                forall|k: int| 0 <= k < i ==> self@[k].username@ != username@,
            decreases n - i,
        {
            if self.users[i].username == *username {
                proof {
                    assert(has_username(self@, username@));
                    let j = username_index(self@, username@);
                    assert(0 <= j < self@.len() && self@[j].username@ == username@);
                    if i != j {
                        if i < j {
                            assert(self@[i as int].username@ != self@[j].username@);
                        } else {
                            assert(self@[j].username@ != self@[i as int].username@);
                        }
                    }
                }
                return Some(&self.users[i]);
            }
            i += 1;
        }
        None
    }

    /// Inserts a new account. The insert succeeds exactly when the id, the
    /// username and the email are all unused; otherwise the store is left
    /// unchanged and the rejection surfaces as a storage fault, as a
    /// constraint violation of the underlying table would.
    pub fn insert(&mut self, user: User) -> (r: Result<(), AppError>)
        requires
            old(self).wf(),
        ensures
            final(self).wf(),
            r is Ok <==> (!has_username(old(self)@, user.username@) && !has_email(
                old(self)@,
                user.email@,
            ) && !has_id(old(self)@, user.id@)),
            r is Ok ==> final(self)@ == old(self)@.push(user),
            r is Err ==> final(self)@ == old(self)@,
            r matches Err(e) ==> e matches AppError::DatabaseError(_),
    {
        let n = self.users.len();
        let mut i: usize = 0;
        while i < n
            invariant
                i <= n,
                n == self@.len(),
                self@ == old(self)@,
                self.wf(),
                forall|k: int|
                    0 <= k < i ==> (self@[k].username@ != user.username@ && self@[k].email@
                        != user.email@ && self@[k].id@ != user.id@),
            decreases n - i,
        {
            if self.users[i].username == user.username || self.users[i].email == user.email
                || self.users[i].id == user.id {
                return Err(AppError::DatabaseError("UNIQUE constraint failed".to_owned()));
            }
            i += 1;
        }
        self.users.push(user);
        proof {
            assert(self@ =~= old(self)@.push(user));
            assert forall|a: int, b: int| 0 <= a < b < self@.len() implies (self@[a].username@
                != self@[b].username@ && self@[a].email@ != self@[b].email@ && self@[a].id@
                != self@[b].id@) by {
                if b < old(self)@.len() {
                    assert(old(self).wf());
                } else {
                    assert(self@[b] == user);
                    assert(self@[a] == old(self)@[a]);
                }
            }
        }
        Ok(())
    }
}

} // verus!
