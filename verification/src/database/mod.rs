//! The identity store: users, email verifications, password reset requests
//! and sessions, with the uniqueness, supersede and single-use rules that
//! the workflows rely on.

pub mod email_verification;
pub mod password_reset_request;
pub mod session;
pub mod user;

use vstd::prelude::*;

use email_verification::EmailVerification;
use email_verification::EmailVerificationQuery;
use password_reset_request::PasswordResetRequest;
use password_reset_request::PasswordResetRequestQuery;
use session::SessionQuery;
use user::User;
use user::UserQuery;

verus! {

/// A storage-level failure, as the store's boundary reports it.
#[derive(Debug)]
pub enum DbError {
    /// The referenced record does not exist.
    NotFound,
    /// A uniqueness rule would be violated, or the mutation was already
    /// applied.
    Conflict,
    /// The storage engine itself failed.
    Database,
}

/// Whether some user has both this identifier and this email.
pub open spec fn user_with_id_and_email(users: Seq<User>, id: Seq<char>, email: Seq<char>) -> bool {
    exists|j: int|
        0 <= j < users.len() && (#[trigger] users[j].id@) == id && users[j].email@ == email
}

/// Every verification challenge references an existing user, and carries
/// that user's email.
pub open spec fn verifications_reference_users(
    records: Seq<EmailVerification>,
    users: Seq<User>,
) -> bool {
    forall|i: int|
        0 <= i < records.len() ==> user_with_id_and_email(
            users,
            (#[trigger] records[i]).user_id@,
            records[i].email@,
        )
}

/// Every password reset request references an existing user.
pub open spec fn requests_reference_users(
    records: Seq<PasswordResetRequest>,
    users: Seq<User>,
) -> bool {
    forall|i: int|
        0 <= i < records.len() ==> user::has_user_id(users, (#[trigger] records[i]).user_id@)
}

/// The whole identity store: one value per table.
pub struct DatabaseLayer {
    pub user: UserQuery,
    pub email_verification: EmailVerificationQuery,
    pub password_reset_request: PasswordResetRequestQuery,
    pub session: SessionQuery,
}

impl DatabaseLayer {
    /// The store invariant: per-table uniqueness, and every challenge or
    /// reset request referencing an existing user.
    pub open spec fn wf(&self) -> bool {
        &&& self.user.wf()
        &&& self.email_verification.wf()
        &&& self.password_reset_request.wf()
        &&& verifications_reference_users(self.email_verification.records@, self.user.users@)
        &&& requests_reference_users(self.password_reset_request.records@, self.user.users@)
    }

    /// An empty store.
    pub fn new() -> (r: Self)
        ensures
            r.wf(),
            r.user.users@.len() == 0,
            r.email_verification.records@.len() == 0,
            r.password_reset_request.records@.len() == 0,
            r.session.sessions@.len() == 0,
    {
        DatabaseLayer {
            user: UserQuery::new(),
            email_verification: EmailVerificationQuery::new(),
            password_reset_request: PasswordResetRequestQuery::new(),
            session: SessionQuery::new(),
        }
    }
}

/// Adding a user breaks no reference: every challenge and request still
/// finds its user in the longer table.
pub proof fn lemma_refs_preserved_on_user_push(
    records: Seq<EmailVerification>,
    requests: Seq<PasswordResetRequest>,
    users: Seq<User>,
    u: User,
)
    requires
        verifications_reference_users(records, users),
        requests_reference_users(requests, users),
    ensures
        verifications_reference_users(records, users.push(u)),
        requests_reference_users(requests, users.push(u)),
{
    assert forall|i: int| 0 <= i < records.len() implies user_with_id_and_email(
        users.push(u),
        (#[trigger] records[i]).user_id@,
        records[i].email@,
    ) by {
        let j = choose|j: int|
            0 <= j < users.len() && (#[trigger] users[j].id@) == records[i].user_id@
                && users[j].email@ == records[i].email@;
        assert(users.push(u)[j] == users[j]);
    }
    assert forall|i: int| 0 <= i < requests.len() implies user::has_user_id(
        users.push(u),
        (#[trigger] requests[i]).user_id@,
    ) by {
        let j = choose|j: int|
            0 <= j < users.len() && (#[trigger] users[j].id@) == requests[i].user_id@;
        assert(users.push(u)[j] == users[j]);
    }
}

/// Updating a user in place while keeping its identifier and email breaks
/// no reference.
pub proof fn lemma_refs_preserved_on_user_update(
    records: Seq<EmailVerification>,
    requests: Seq<PasswordResetRequest>,
    users: Seq<User>,
    k: int,
    nu: User,
)
    requires
        verifications_reference_users(records, users),
        requests_reference_users(requests, users),
        0 <= k < users.len(),
        nu.id@ == users[k].id@,
        nu.email@ == users[k].email@,
    ensures
        verifications_reference_users(records, users.update(k, nu)),
        requests_reference_users(requests, users.update(k, nu)),
{
    let next = users.update(k, nu);
    assert forall|i: int| 0 <= i < records.len() implies user_with_id_and_email(
        next,
        (#[trigger] records[i]).user_id@,
        records[i].email@,
    ) by {
        let j = choose|j: int|
            0 <= j < users.len() && (#[trigger] users[j].id@) == records[i].user_id@
                && users[j].email@ == records[i].email@;
        assert(next[j].id@ == users[j].id@ && next[j].email@ == users[j].email@);
    }
    assert forall|i: int| 0 <= i < requests.len() implies user::has_user_id(
        next,
        (#[trigger] requests[i]).user_id@,
    ) by {
        let j = choose|j: int|
            0 <= j < users.len() && (#[trigger] users[j].id@) == requests[i].user_id@;
        assert(next[j].id@ == users[j].id@);
    }
}

/// Deleting a challenge breaks no reference of the remaining challenges.
pub proof fn lemma_refs_preserved_on_verification_remove(
    records: Seq<EmailVerification>,
    users: Seq<User>,
    k: int,
)
    requires
        verifications_reference_users(records, users),
        0 <= k < records.len(),
    ensures
        verifications_reference_users(records.remove(k), users),
{
    records.remove_ensures(k);
    let next = records.remove(k);
    assert forall|i: int| 0 <= i < next.len() implies user_with_id_and_email(
        users,
        (#[trigger] next[i]).user_id@,
        next[i].email@,
    ) by {
        let p: int = if i < k {
            i
        } else {
            i + 1
        };
        assert(next[i] == records[p]);
        assert(user_with_id_and_email(users, records[p].user_id@, records[p].email@));
    }
}

/// Deleting a reset request breaks no reference of the remaining requests.
pub proof fn lemma_refs_preserved_on_request_remove(
    requests: Seq<PasswordResetRequest>,
    users: Seq<User>,
    k: int,
)
    requires
        requests_reference_users(requests, users),
        0 <= k < requests.len(),
    ensures
        requests_reference_users(requests.remove(k), users),
{
    requests.remove_ensures(k);
    let next = requests.remove(k);
    assert forall|i: int| 0 <= i < next.len() implies user::has_user_id(
        users,
        (#[trigger] next[i]).user_id@,
    ) by {
        let p: int = if i < k {
            i
        } else {
            i + 1
        };
        assert(next[i] == requests[p]);
        assert(user::has_user_id(users, requests[p].user_id@));
    }
}

/// An email no user holds has no live verification challenge either: each
/// challenge carries the email of an existing user.
pub proof fn lemma_no_verification_without_user(db: DatabaseLayer, email: Seq<char>)
    requires
        db.wf(),
        !user::has_email(db.user.users@, email),
    ensures
        !email_verification::has_verification_for_email(db.email_verification.records@, email),
{
    let records = db.email_verification.records@;
    let users = db.user.users@;
    if email_verification::has_verification_for_email(records, email) {
        let i = choose|i: int| 0 <= i < records.len() && (#[trigger] records[i].email@) == email;
        assert(user_with_id_and_email(users, records[i].user_id@, records[i].email@));
        let j = choose|j: int|
            0 <= j < users.len() && (#[trigger] users[j].id@) == records[i].user_id@
                && users[j].email@ == records[i].email@;
        assert(user::has_email(users, email));
    }
}

/// In a well-formed store a user has at most one live verification
/// challenge: two challenges for the same user are the same record.
pub proof fn lemma_one_verification_per_user(db: DatabaseLayer, a: int, b: int)
    requires
        db.wf(),
        0 <= a < db.email_verification.records@.len(),
        0 <= b < db.email_verification.records@.len(),
        db.email_verification.records@[a].user_id@ == db.email_verification.records@[b].user_id@,
    ensures
        a == b,
{
    let records = db.email_verification.records@;
    let users = db.user.users@;
    if a != b {
        assert(user_with_id_and_email(users, records[a].user_id@, records[a].email@));
        assert(user_with_id_and_email(users, records[b].user_id@, records[b].email@));
        let ja = choose|j: int|
            0 <= j < users.len() && (#[trigger] users[j].id@) == records[a].user_id@
                && users[j].email@ == records[a].email@;
        let jb = choose|j: int|
            0 <= j < users.len() && (#[trigger] users[j].id@) == records[b].user_id@
                && users[j].email@ == records[b].email@;
        assert(ja == jb);
        assert(records[a].email@ == records[b].email@);
    }
}

} // verus!
