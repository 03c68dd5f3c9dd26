//! The user table: account records keyed by a unique email and a unique
//! opaque identifier.

use vstd::prelude::*;

use crate::crypto::TOKEN_CHAR_LEN;
use crate::crypto::generate_token;
use crate::database::DbError;

verus! {

/// An account. The password hash is an opaque PHC string, never the
/// plaintext; the email-verified flag starts false and is set exactly once.
pub struct User {
    pub id: String,
    pub email: String,
    pub password_hash: String,
    pub email_verified: bool,
    pub created_at: u64,
}

impl User {
    pub fn new(id: String, email: String, password_hash: String, created_at: u64) -> (r: User)
        ensures
            r == (User { id, email, password_hash, email_verified: false, created_at }),
    {
        User { id, email, password_hash, email_verified: false, created_at }
    }
}

/// Whether some user in the table has this email.
pub open spec fn has_email(users: Seq<User>, email: Seq<char>) -> bool {
    exists|i: int| 0 <= i < users.len() && #[trigger] users[i].email@ == email
}

/// Whether some user in the table has this identifier.
pub open spec fn has_user_id(users: Seq<User>, id: Seq<char>) -> bool {
    exists|i: int| 0 <= i < users.len() && #[trigger] users[i].id@ == id
}

/// No two users share an email.
pub open spec fn emails_unique(users: Seq<User>) -> bool {
    forall|i: int, j: int|
        0 <= i < j < users.len() ==> (#[trigger] users[i].email@) != (#[trigger] users[j].email@)
}

/// No two users share an identifier.
pub open spec fn user_ids_unique(users: Seq<User>) -> bool {
    forall|i: int, j: int|
        0 <= i < j < users.len() ==> (#[trigger] users[i].id@) != (#[trigger] users[j].id@)
}

/// The same user with the email-verified flag set.
pub open spec fn mark_verified(u: User) -> User {
    User { email_verified: true, ..u }
}

/// The user holding this email, in a table where emails are unique.
pub open spec fn user_for_email(users: Seq<User>, email: Seq<char>) -> User {
    users[choose|i: int| 0 <= i < users.len() && (#[trigger] users[i].email@) == email]
}

/// The user holding this identifier, in a table where identifiers are
/// unique.
pub open spec fn user_for_id(users: Seq<User>, id: Seq<char>) -> User {
    users[choose|i: int| 0 <= i < users.len() && (#[trigger] users[i].id@) == id]
}

/// The same user with a new password hash.
pub open spec fn with_password(u: User, hash: String) -> User {
    User { password_hash: hash, ..u }
}

/// Appending a user with a fresh email and identifier keeps both columns
/// unique.
proof fn lemma_unique_after_push(users: Seq<User>, u: User)
    requires
        emails_unique(users),
        user_ids_unique(users),
        !has_email(users, u.email@),
        !has_user_id(users, u.id@),
    ensures
        emails_unique(users.push(u)),
        user_ids_unique(users.push(u)),
{
    let pushed = users.push(u);
    assert forall|i: int, j: int| 0 <= i < j < pushed.len() implies (#[trigger] pushed[i].email@)
        != (#[trigger] pushed[j].email@) by {
        if j == pushed.len() - 1 {
            assert(pushed[j] == u);
        }
    }
    assert forall|i: int, j: int| 0 <= i < j < pushed.len() implies (#[trigger] pushed[i].id@) != (
    #[trigger] pushed[j].id@) by {
        if j == pushed.len() - 1 {
            assert(pushed[j] == u);
        }
    }
}

/// Replacing a user in place while keeping its email and identifier keeps
/// both columns unique.
proof fn lemma_unique_after_update(users: Seq<User>, k: int, nu: User)
    requires
        emails_unique(users),
        user_ids_unique(users),
        0 <= k < users.len(),
        nu.email@ == users[k].email@,
        nu.id@ == users[k].id@,
    ensures
        emails_unique(users.update(k, nu)),
        user_ids_unique(users.update(k, nu)),
{
    let next = users.update(k, nu);
    assert forall|a: int, b: int| 0 <= a < b < next.len() implies (#[trigger] next[a].email@) != (
    #[trigger] next[b].email@) by {
        assert(next[a].email@ == users[a].email@);
        assert(next[b].email@ == users[b].email@);
    }
    assert forall|a: int, b: int| 0 <= a < b < next.len() implies (#[trigger] next[a].id@) != (
    #[trigger] next[b].id@) by {
        assert(next[a].id@ == users[a].id@);
        assert(next[b].id@ == users[b].id@);
    }
}

fn clone_user(u: &User) -> (r: User)
    ensures
        r == *u,
{
    User {
        id: u.id.clone(),
        email: u.email.clone(),
        password_hash: u.password_hash.clone(),
        email_verified: u.email_verified,
        created_at: u.created_at,
    }
}

/// A successful signup claims its email: once a user with the email is in
/// the table, any later attempt to create another sees the email taken,
/// and the create contract then refuses it with a conflict and leaves the
/// table unchanged.
pub proof fn lemma_signup_claims_email(users: Seq<User>, u: User, email: Seq<char>)
    requires
        u.email@ == email,
    ensures
        has_email(users.push(u), email),
{
    assert(users.push(u)[users.len() as int] == u);
}

/// The queries over the user table.
pub struct UserQuery {
    pub users: Vec<User>,
}

impl UserQuery {
    /// Both the email column and the identifier column are unique.
    pub open spec fn wf(&self) -> bool {
        emails_unique(self.users@) && user_ids_unique(self.users@)
    }

    pub fn new() -> (r: Self)
        ensures
            r.users@.len() == 0,
            r.wf(),
    {
        UserQuery { users: Vec::new() }
    }

    fn find_by_email(&self, email: &String) -> (r: Option<usize>)
        ensures
            match r {
                Some(i) => i < self.users@.len() && self.users@[i as int].email@ == email@,
                None => !has_email(self.users@, email@),
            },
    {
        let n = self.users.len();
        let mut i: usize = 0;
        while i < n
            invariant
                i <= n,
                n == self.users@.len(),
                forall|j: int| 0 <= j < i ==> (#[trigger] self.users@[j].email@) != email@,
            decreases n - i,
        {
            if self.users[i].email == *email {
                return Some(i);
            }
            i = i + 1;
        }
        None
    }

    fn find_by_id(&self, id: &String) -> (r: Option<usize>)
        ensures
            match r {
                Some(i) => i < self.users@.len() && self.users@[i as int].id@ == id@,
                None => !has_user_id(self.users@, id@),
            },
    {
        let n = self.users.len();
        let mut i: usize = 0;
        while i < n
            invariant
                i <= n,
                n == self.users@.len(),
                forall|j: int| 0 <= j < i ==> (#[trigger] self.users@[j].id@) != id@,
            decreases n - i,
        {
            if self.users[i].id == *id {
                return Some(i);
            }
            i = i + 1;
        }
        None
    }

    /// Whether an account with this email exists.
    pub fn check_if_exists(&self, email: String) -> (r: bool)
        ensures
            r == has_email(self.users@, email@),
    {
        match self.find_by_email(&email) {
            Some(_) => true,
            None => false,
        }
    }

    /// Fetches the account with this email; `NotFound` when there is none.
    pub fn get(&self, email: String) -> (r: Result<User, DbError>)
        ensures
            r is Ok <==> has_email(self.users@, email@),
            r is Ok ==> self.users@.contains(r->Ok_0) && r->Ok_0.email@ == email@,
            r is Err ==> r->Err_0 is NotFound,
    {
        match self.find_by_email(&email) {
            Some(i) => {
                let u = clone_user(&self.users[i]);
                assert(self.users@.contains(u));
                Ok(u)
            },
            None => Err(DbError::NotFound),
        }
    }

    /// Creates an account with a fresh random identifier, unverified.
    /// `Conflict` when the email is taken; `Database` in the freak case that
    /// the fresh identifier collides with an existing one.
    pub fn create(&mut self, email: String, password_hash: String, now: u64) -> (r: Result<
        User,
        DbError,
    >)
        requires
            old(self).wf(),
        ensures
            final(self).wf(),
            r is Ok ==> !has_email(old(self).users@, email@) && final(self).users@ == old(
                self,
            ).users@.push(r->Ok_0),
            r is Ok ==> r->Ok_0.email@ == email@ && r->Ok_0.password_hash@ == password_hash@
                && r->Ok_0.email_verified == false && r->Ok_0.created_at == now
                && r->Ok_0.id@.len() == TOKEN_CHAR_LEN,
            r is Err ==> final(self).users@ == old(self).users@,
            r is Err ==> r->Err_0 is Conflict || r->Err_0 is Database,
            r is Err && r->Err_0 is Conflict ==> has_email(old(self).users@, email@),
            has_email(old(self).users@, email@) ==> r is Err && r->Err_0 is Conflict,
    {
        if let Some(_) = self.find_by_email(&email) {
            return Err(DbError::Conflict);
        }
        let id = generate_token();
        if let Some(_) = self.find_by_id(&id) {
            return Err(DbError::Database);
        }
        let user = User { id, email, password_hash, email_verified: false, created_at: now };
        let result = clone_user(&user);
        proof {
            lemma_unique_after_push(self.users@, user);
        }
        self.users.push(user);
        Ok(result)
    }

    /// Sets the email-verified flag of the account with this identifier.
    /// `NotFound` when no such account exists; `Conflict` when it is already
    /// verified.
    pub fn verify_user(&mut self, user_id: String) -> (r: Result<User, DbError>)
        requires
            old(self).wf(),
        ensures
            final(self).wf(),
            r is Ok ==> exists|i: int|
                0 <= i < old(self).users@.len() && (#[trigger] old(self).users@[i].id@) == user_id@
                    && !old(self).users@[i].email_verified && r->Ok_0 == mark_verified(
                    old(self).users@[i],
                ) && final(self).users@ == old(self).users@.update(i, r->Ok_0),
            r is Err ==> final(self).users@ == old(self).users@,
            r is Err ==> r->Err_0 is NotFound || r->Err_0 is Conflict,
            r is Err && r->Err_0 is NotFound ==> !has_user_id(old(self).users@, user_id@),
            r is Err && r->Err_0 is Conflict ==> exists|i: int|
                0 <= i < old(self).users@.len() && (#[trigger] old(self).users@[i].id@) == user_id@
                    && old(self).users@[i].email_verified,
            !has_user_id(old(self).users@, user_id@) ==> r is Err && r->Err_0 is NotFound,
            (exists|i: int|
                0 <= i < old(self).users@.len() && (#[trigger] old(self).users@[i].id@) == user_id@
                    && !old(self).users@[i].email_verified) ==> r is Ok,
    {
        match self.find_by_id(&user_id) {
            Some(i) => {
                if self.users[i].email_verified {
                    return Err(DbError::Conflict);
                }
                let updated = User { email_verified: true, ..clone_user(&self.users[i]) };
                let result = clone_user(&updated);
                proof {
                    lemma_unique_after_update(self.users@, i as int, updated);
                }
                self.users.set(i, updated);
                Ok(result)
            },
            None => Err(DbError::NotFound),
        }
    }

    /// Replaces the password hash of the account with this identifier.
    /// `NotFound` when no such account exists.
    pub fn update_password(&mut self, user_id: String, password_hash: String) -> (r: Result<
        User,
        DbError,
    >)
        requires
            old(self).wf(),
        ensures
            final(self).wf(),
            r is Ok ==> exists|i: int|
                0 <= i < old(self).users@.len() && (#[trigger] old(self).users@[i].id@) == user_id@
                    && r->Ok_0 == with_password(old(self).users@[i], password_hash)
                    && final(self).users@ == old(self).users@.update(i, r->Ok_0),
            r is Ok <==> has_user_id(old(self).users@, user_id@),
            r is Err ==> final(self).users@ == old(self).users@ && r->Err_0 is NotFound,
    {
        match self.find_by_id(&user_id) {
            Some(i) => {
                let updated = User { password_hash, ..clone_user(&self.users[i]) };
                let result = clone_user(&updated);
                proof {
                    lemma_unique_after_update(self.users@, i as int, updated);
                }
                self.users.set(i, updated);
                Ok(result)
            },
            None => Err(DbError::NotFound),
        }
    }
}

} // verus!
