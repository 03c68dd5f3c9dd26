//! The email verification table: at most one live challenge per email,
//! superseded on create and deleted on use.

use vstd::prelude::*;

use crate::crypto::TOKEN_CHAR_LEN;
use crate::crypto::generate_token;
use crate::database::DbError;

verus! {

/// How long a verification challenge stays valid, in seconds.
pub const EMAIL_VERIFICATION_TTL_SECONDS: u64 = 300;

/// A live email verification challenge. The code column holds the one-way
/// hash of the one-time code, never the code itself.
pub struct EmailVerification {
    pub id: String,
    pub code: String,
    pub email: String,
    pub created_at: u64,
    pub expires_at: u64,
    pub user_id: String,
}

impl EmailVerification {
    pub fn new(
        id: String,
        code: String,
        email: String,
        created_at: u64,
        expires_at: u64,
        user_id: String,
    ) -> (r: EmailVerification)
        ensures
            r == (EmailVerification { id, code, email, created_at, expires_at, user_id }),
    {
        EmailVerification { id, code, email, created_at, expires_at, user_id }
    }
}

/// Whether some challenge in the table is for this email.
pub open spec fn has_verification_for_email(records: Seq<EmailVerification>, email: Seq<char>) -> bool {
    exists|i: int| 0 <= i < records.len() && #[trigger] records[i].email@ == email
}

/// Whether some challenge in the table belongs to this user.
pub open spec fn has_verification_for_user(records: Seq<EmailVerification>, user_id: Seq<char>) -> bool {
    exists|i: int| 0 <= i < records.len() && #[trigger] records[i].user_id@ == user_id
}

/// Whether some challenge in the table has this identifier.
pub open spec fn has_verification_id(records: Seq<EmailVerification>, id: Seq<char>) -> bool {
    exists|i: int| 0 <= i < records.len() && #[trigger] records[i].id@ == id
}

/// The challenge belonging to this user, in a table holding at most one
/// challenge per user.
pub open spec fn verification_for_user(
    records: Seq<EmailVerification>,
    user_id: Seq<char>,
) -> EmailVerification {
    records[choose|i: int| 0 <= i < records.len() && (#[trigger] records[i].user_id@) == user_id]
}

/// No two challenges are for the same email: the supersede rule keeps the
/// table this way.
pub open spec fn verification_emails_unique(records: Seq<EmailVerification>) -> bool {
    forall|i: int, j: int|
        0 <= i < j < records.len() ==> (#[trigger] records[i].email@) != (
        #[trigger] records[j].email@)
}

/// No two challenges share an identifier.
pub open spec fn verification_ids_unique(records: Seq<EmailVerification>) -> bool {
    forall|i: int, j: int|
        0 <= i < j < records.len() ==> (#[trigger] records[i].id@) != (#[trigger] records[j].id@)
}

fn clone_verification(v: &EmailVerification) -> (r: EmailVerification)
    ensures
        r == *v,
{
    EmailVerification {
        id: v.id.clone(),
        code: v.code.clone(),
        email: v.email.clone(),
        created_at: v.created_at,
        expires_at: v.expires_at,
        user_id: v.user_id.clone(),
    }
}

/// The queries over the email verification table.
pub struct EmailVerificationQuery {
    pub records: Vec<EmailVerification>,
}

impl EmailVerificationQuery {
    pub open spec fn wf(&self) -> bool {
        verification_emails_unique(self.records@) && verification_ids_unique(self.records@)
    }

    pub fn new() -> (r: Self)
        ensures
            r.records@.len() == 0,
            r.wf(),
    {
        EmailVerificationQuery { records: Vec::new() }
    }

    fn find_by_email(&self, email: &String) -> (r: Option<usize>)
        ensures
            match r {
                Some(i) => i < self.records@.len() && self.records@[i as int].email@ == email@,
                None => !has_verification_for_email(self.records@, email@),
            },
    {
        let n = self.records.len();
        let mut i: usize = 0;
        while i < n
            invariant
                i <= n,
                n == self.records@.len(),
                forall|j: int| 0 <= j < i ==> (#[trigger] self.records@[j].email@) != email@,
            decreases n - i,
        {
            if self.records[i].email == *email {
                return Some(i);
            }
            i = i + 1;
        }
        None
    }

    fn find_by_id(&self, id: &String) -> (r: Option<usize>)
        ensures
            match r {
                Some(i) => i < self.records@.len() && self.records@[i as int].id@ == id@,
                None => !has_verification_id(self.records@, id@),
            },
    {
        let n = self.records.len();
        let mut i: usize = 0;
        while i < n
            invariant
                i <= n,
                n == self.records@.len(),
                forall|j: int| 0 <= j < i ==> (#[trigger] self.records@[j].id@) != id@,
            decreases n - i,
        {
            if self.records[i].id == *id {
                return Some(i);
            }
            i = i + 1;
        }
        None
    }

    /// Creates a fresh challenge for this email, deleting any prior one for
    /// the same email in the same step, so at most one stays live. The code
    /// argument is the one-way hash of the one-time code. `Database` only in
    /// the freak case that the fresh identifier collides.
    pub fn create(&mut self, code: String, email: String, user_id: String, now: u64) -> (r: Result<
        EmailVerification,
        DbError,
    >)
        requires
            old(self).wf(),
            now + EMAIL_VERIFICATION_TTL_SECONDS <= u64::MAX,
        ensures
            final(self).wf(),
            r is Ok ==> r->Ok_0.code@ == code@ && r->Ok_0.email@ == email@ && r->Ok_0.user_id@
                == user_id@ && r->Ok_0.created_at == now && r->Ok_0.expires_at == now
                + EMAIL_VERIFICATION_TTL_SECONDS && r->Ok_0.id@.len() == TOKEN_CHAR_LEN,
            r is Ok && has_verification_for_email(old(self).records@, email@) ==> exists|i: int|
                0 <= i < old(self).records@.len() && (#[trigger] old(self).records@[i].email@)
                    == email@ && final(self).records@ == old(self).records@.remove(i).push(
                    r->Ok_0,
                ),
            r is Ok && !has_verification_for_email(old(self).records@, email@)
                ==> final(self).records@ == old(self).records@.push(r->Ok_0),
            r is Err ==> r->Err_0 is Database && (final(self).records@ == old(self).records@
                || exists|i: int|
                    0 <= i < old(self).records@.len() && (#[trigger] old(self).records@[i].email@)
                        == email@ && final(self).records@ == old(self).records@.remove(i)),
    {
        if let Some(i) = self.find_by_email(&email) {
            proof {
                self.records@.remove_ensures(i as int);
            }
            let ghost before = self.records@;
            let ghost at = i as int;
            self.records.remove(i);
            proof {
                assert forall|a: int, b: int| 0 <= a < b < self.records@.len() implies (
                #[trigger] self.records@[a].email@) != (#[trigger] self.records@[b].email@) by {
                    let pa: int = if a < at { a } else { a + 1 };
                    let pb: int = if b < at { b } else { b + 1 };
                    assert(self.records@[a] == before[pa]);
                    assert(self.records@[b] == before[pb]);
                }
                assert forall|a: int, b: int| 0 <= a < b < self.records@.len() implies (
                #[trigger] self.records@[a].id@) != (#[trigger] self.records@[b].id@) by {
                    let pa: int = if a < at { a } else { a + 1 };
                    let pb: int = if b < at { b } else { b + 1 };
                    assert(self.records@[a] == before[pa]);
                    assert(self.records@[b] == before[pb]);
                }
                assert forall|j: int| 0 <= j < self.records@.len() implies (
                #[trigger] self.records@[j].email@) != email@ by {
                    let pj: int = if j < at { j } else { j + 1 };
                    assert(self.records@[j] == before[pj]);
                }
            }
        }
        assert(self.wf());
        assert(!has_verification_for_email(self.records@, email@));
        let id = generate_token();
        if let Some(_) = self.find_by_id(&id) {
            return Err(DbError::Database);
        }
        let record = EmailVerification {
            id,
            code,
            email,
            created_at: now,
            expires_at: now + EMAIL_VERIFICATION_TTL_SECONDS,
            user_id,
        };
        let result = clone_verification(&record);
        proof {
            let pushed = self.records@.push(record);
            assert forall|a: int, b: int| 0 <= a < b < pushed.len() implies (
            #[trigger] pushed[a].email@) != (#[trigger] pushed[b].email@) by {
                if b == pushed.len() - 1 {
                    assert(pushed[b] == record);
                }
            }
            assert forall|a: int, b: int| 0 <= a < b < pushed.len() implies (
            #[trigger] pushed[a].id@) != (#[trigger] pushed[b].id@) by {
                if b == pushed.len() - 1 {
                    assert(pushed[b] == record);
                }
            }
        }
        self.records.push(record);
        Ok(result)
    }

    /// Fetches the live challenge of this user; `NotFound` when there is
    /// none.
    pub fn get(&self, user_id: String) -> (r: Result<EmailVerification, DbError>)
        ensures
            r is Ok <==> has_verification_for_user(self.records@, user_id@),
            r is Ok ==> self.records@.contains(r->Ok_0) && r->Ok_0.user_id@ == user_id@,
            r is Err ==> r->Err_0 is NotFound,
    {
        let n = self.records.len();
        let mut i: usize = 0;
        while i < n
            invariant
                i <= n,
                n == self.records@.len(),
                forall|j: int| 0 <= j < i ==> (#[trigger] self.records@[j].user_id@) != user_id@,
            decreases n - i,
        {
            if self.records[i].user_id == user_id {
                let v = clone_verification(&self.records[i]);
                assert(self.records@.contains(v));
                return Ok(v);
            }
            i = i + 1;
        }
        Err(DbError::NotFound)
    }

    /// Deletes the challenge with this identifier; `NotFound` when it was
    /// already consumed or never existed, which is how a replay shows up.
    pub fn remove(&mut self, email_verification_id: String) -> (r: Result<(), DbError>)
        requires
            old(self).wf(),
        ensures
            final(self).wf(),
            r is Ok <==> has_verification_id(old(self).records@, email_verification_id@),
            r is Ok ==> exists|i: int|
                0 <= i < old(self).records@.len() && (#[trigger] old(self).records@[i].id@)
                    == email_verification_id@ && final(self).records@ == old(self).records@.remove(
                    i,
                ),
            r is Err ==> final(self).records@ == old(self).records@ && r->Err_0 is NotFound,
    {
        match self.find_by_id(&email_verification_id) {
            Some(i) => {
                proof {
                    self.records@.remove_ensures(i as int);
                }
                self.records.remove(i);
                Ok(())
            },
            None => Err(DbError::NotFound),
        }
    }
}

/// A consumed challenge is consumed for good: once the record with an
/// identifier is deleted, no record with that identifier remains, so a
/// second removal — a replay of the same challenge — must report
/// `NotFound` by the remove contract, while the user it verified stays
/// verified.
pub proof fn lemma_verification_single_use(records: Seq<EmailVerification>, i: int)
    requires
        verification_ids_unique(records),
        0 <= i < records.len(),
    ensures
        !has_verification_id(records.remove(i), records[i].id@),
{
    records.remove_ensures(i);
    let next = records.remove(i);
    assert forall|j: int| 0 <= j < next.len() implies (#[trigger] next[j].id@)
        != records[i].id@ by {
        if j < i {
            assert(next[j] == records[j]);
        } else {
            assert(next[j] == records[j + 1]);
        }
    }
}

/// After a challenge for an email is superseded, exactly one live challenge
/// for that email stays: the new one. Whatever code the earlier challenge
/// carried, no record holding it remains for that email.
pub proof fn lemma_supersede(records: Seq<EmailVerification>, i: int, fresh: EmailVerification)
    requires
        verification_emails_unique(records),
        0 <= i < records.len(),
        records[i].email@ == fresh.email@,
    ensures
        forall|j: int|
            0 <= j < records.remove(i).push(fresh).len() && (#[trigger] records.remove(i).push(
                fresh,
            )[j].email@) == fresh.email@ ==> records.remove(i).push(fresh)[j] == fresh,
        has_verification_for_email(records.remove(i).push(fresh), fresh.email@),
{
    records.remove_ensures(i);
    let t = records.remove(i).push(fresh);
    assert(t[t.len() - 1] == fresh);
    assert forall|j: int| 0 <= j < t.len() && (#[trigger] t[j].email@) == fresh.email@ implies t[j]
        == fresh by {
        if j < t.len() - 1 {
            if j < i {
                assert(t[j] == records[j]);
            } else {
                assert(t[j] == records[j + 1]);
            }
        }
    }
}

} // verus!
