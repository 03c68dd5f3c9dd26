//! The password reset request table: at most one live request per user,
//! superseded on create and deleted on use. The emailed reference is the
//! one-way hash of the record identifier, never the identifier itself.

use vstd::prelude::*;

use crate::crypto::TOKEN_CHAR_LEN;
use crate::crypto::generate_token;
use crate::crypto::hash_string;
use crate::crypto::sha256_hex_of;
use crate::database::DbError;

verus! {

/// How long a password reset request stays valid, in seconds: one hour.
pub const PASSWORD_RESET_TTL_SECONDS: u64 = 3600;

/// A live password reset request.
pub struct PasswordResetRequest {
    pub id: String,
    pub created_at: u64,
    pub expires_at: u64,
    pub user_id: String,
}

impl PasswordResetRequest {
    pub fn new(id: String, created_at: u64, expires_at: u64, user_id: String) -> (r:
        PasswordResetRequest)
        ensures
            r == (PasswordResetRequest { id, created_at, expires_at, user_id }),
    {
        PasswordResetRequest { id, created_at, expires_at, user_id }
    }
}

/// Whether some request in the table belongs to this user.
pub open spec fn has_request_for_user(records: Seq<PasswordResetRequest>, user_id: Seq<char>) -> bool {
    exists|i: int| 0 <= i < records.len() && #[trigger] records[i].user_id@ == user_id
}

/// Whether some request's identifier hashes to this reference.
pub open spec fn has_request_with_reference(
    records: Seq<PasswordResetRequest>,
    reference: Seq<char>,
) -> bool {
    exists|i: int| 0 <= i < records.len() && sha256_hex_of(#[trigger] records[i].id@) == reference
}

/// No two requests belong to the same user: the supersede rule keeps the
/// table this way.
pub open spec fn request_users_unique(records: Seq<PasswordResetRequest>) -> bool {
    forall|i: int, j: int|
        0 <= i < j < records.len() ==> (#[trigger] records[i].user_id@) != (
        #[trigger] records[j].user_id@)
}

/// No two requests share an identifier.
pub open spec fn request_ids_unique(records: Seq<PasswordResetRequest>) -> bool {
    forall|i: int, j: int|
        0 <= i < j < records.len() ==> (#[trigger] records[i].id@) != (#[trigger] records[j].id@)
}

fn clone_request(v: &PasswordResetRequest) -> (r: PasswordResetRequest)
    ensures
        r == *v,
{
    PasswordResetRequest {
        id: v.id.clone(),
        created_at: v.created_at,
        expires_at: v.expires_at,
        user_id: v.user_id.clone(),
    }
}

/// The queries over the password reset request table.
pub struct PasswordResetRequestQuery {
    pub records: Vec<PasswordResetRequest>,
}

impl PasswordResetRequestQuery {
    pub open spec fn wf(&self) -> bool {
        request_users_unique(self.records@) && request_ids_unique(self.records@)
    }

    pub fn new() -> (r: Self)
        ensures
            r.records@.len() == 0,
            r.wf(),
    {
        PasswordResetRequestQuery { records: Vec::new() }
    }

    fn find_by_user(&self, user_id: &String) -> (r: Option<usize>)
        ensures
            match r {
                Some(i) => i < self.records@.len() && self.records@[i as int].user_id@ == user_id@,
                None => !has_request_for_user(self.records@, user_id@),
            },
    {
        let n = self.records.len();
        let mut i: usize = 0;
        while i < n
            invariant
                i <= n,
                n == self.records@.len(),
                forall|j: int| 0 <= j < i ==> (#[trigger] self.records@[j].user_id@) != user_id@,
            decreases n - i,
        {
            if self.records[i].user_id == *user_id {
                return Some(i);
            }
            i = i + 1;
        }
        None
    }

    fn find_by_id(&self, id: &String) -> (r: Option<usize>)
        ensures
            match r {
                Some(i) => i < self.records@.len() && self.records@[i as int].id@ == id@,
                None => !(exists|j: int|
                    0 <= j < self.records@.len() && (#[trigger] self.records@[j].id@) == id@),
            },
    {
        let n = self.records.len();
        let mut i: usize = 0;
        while i < n
            invariant
                i <= n,
                n == self.records@.len(),
                forall|j: int| 0 <= j < i ==> (#[trigger] self.records@[j].id@) != id@,
            decreases n - i,
        {
            if self.records[i].id == *id {
                return Some(i);
            }
            i = i + 1;
        }
        None
    }

    /// Creates a fresh request for this user, deleting any prior one for
    /// the same user in the same step, so at most one stays live.
    /// `Database` only in the freak case that the fresh identifier
    /// collides.
    pub fn create(&mut self, user_id: String, now: u64) -> (r: Result<
        PasswordResetRequest,
        DbError,
    >)
        requires
            old(self).wf(),
            now + PASSWORD_RESET_TTL_SECONDS <= u64::MAX,
        ensures
            final(self).wf(),
            r is Ok ==> r->Ok_0.user_id@ == user_id@ && r->Ok_0.created_at == now
                && r->Ok_0.expires_at == now + PASSWORD_RESET_TTL_SECONDS && r->Ok_0.id@.len()
                == TOKEN_CHAR_LEN,
            r is Ok && has_request_for_user(old(self).records@, user_id@) ==> exists|i: int|
                0 <= i < old(self).records@.len() && (#[trigger] old(self).records@[i].user_id@)
                    == user_id@ && final(self).records@ == old(self).records@.remove(i).push(
                    r->Ok_0,
                ),
            r is Ok && !has_request_for_user(old(self).records@, user_id@)
                ==> final(self).records@ == old(self).records@.push(r->Ok_0),
            r is Err ==> r->Err_0 is Database && (final(self).records@ == old(self).records@
                || exists|i: int|
                    0 <= i < old(self).records@.len() && (
                    #[trigger] old(self).records@[i].user_id@) == user_id@ && final(self).records@
                        == old(self).records@.remove(i)),
    {
        if let Some(i) = self.find_by_user(&user_id) {
            proof {
                self.records@.remove_ensures(i as int);
            }
            let ghost before = self.records@;
            let ghost at = i as int;
            self.records.remove(i);
            proof {
                assert forall|a: int, b: int| 0 <= a < b < self.records@.len() implies (
                #[trigger] self.records@[a].user_id@) != (#[trigger] self.records@[b].user_id@) by {
                    let pa: int = if a < at { a } else { a + 1 };
                    let pb: int = if b < at { b } else { b + 1 };
                    assert(self.records@[a] == before[pa]);
                    assert(self.records@[b] == before[pb]);
                }
                assert forall|a: int, b: int| 0 <= a < b < self.records@.len() implies (
                #[trigger] self.records@[a].id@) != (#[trigger] self.records@[b].id@) by {
                    let pa: int = if a < at { a } else { a + 1 };
                    let pb: int = if b < at { b } else { b + 1 };
                    assert(self.records@[a] == before[pa]);
                    assert(self.records@[b] == before[pb]);
                }
                assert forall|j: int| 0 <= j < self.records@.len() implies (
                #[trigger] self.records@[j].user_id@) != user_id@ by {
                    let pj: int = if j < at { j } else { j + 1 };
                    assert(self.records@[j] == before[pj]);
                }
            }
        }
        assert(self.wf());
        assert(!has_request_for_user(self.records@, user_id@));
        let id = generate_token();
        if let Some(_) = self.find_by_id(&id) {
            return Err(DbError::Database);
        }
        let record = PasswordResetRequest {
            id,
            created_at: now,
            expires_at: now + PASSWORD_RESET_TTL_SECONDS,
            user_id,
        };
        let result = clone_request(&record);
        proof {
            let pushed = self.records@.push(record);
            assert forall|a: int, b: int| 0 <= a < b < pushed.len() implies (
            #[trigger] pushed[a].user_id@) != (#[trigger] pushed[b].user_id@) by {
                if b == pushed.len() - 1 {
                    assert(pushed[b] == record);
                }
            }
            assert forall|a: int, b: int| 0 <= a < b < pushed.len() implies (
            #[trigger] pushed[a].id@) != (#[trigger] pushed[b].id@) by {
                if b == pushed.len() - 1 {
                    assert(pushed[b] == record);
                }
            }
        }
        self.records.push(record);
        Ok(result)
    }

    /// Fetches the request whose identifier hashes to the given reference:
    /// how the reference mailed to the user finds its record without the
    /// record key itself ever leaving the server. `NotFound` when no
    /// request matches.
    pub fn get_by_reference(&self, reference: &String) -> (r: Result<PasswordResetRequest, DbError>)
        ensures
            r is Ok <==> has_request_with_reference(self.records@, reference@),
            r is Ok ==> self.records@.contains(r->Ok_0) && sha256_hex_of(r->Ok_0.id@)
                == reference@,
            r is Err ==> r->Err_0 is NotFound,
    {
        let n = self.records.len();
        let mut i: usize = 0;
        while i < n
            invariant
                i <= n,
                n == self.records@.len(),
                forall|j: int|
                    0 <= j < i ==> sha256_hex_of(#[trigger] self.records@[j].id@) != reference@,
            decreases n - i,
        {
            let id_hash = hash_string(self.records[i].id.clone());
            if id_hash == *reference {
                let v = clone_request(&self.records[i]);
                assert(self.records@.contains(v));
                return Ok(v);
            }
            i = i + 1;
        }
        Err(DbError::NotFound)
    }

    /// Deletes the request with this identifier; `NotFound` when it was
    /// already consumed or never existed.
    pub fn remove(&mut self, id: String) -> (r: Result<(), DbError>)
        requires
            old(self).wf(),
        ensures
            final(self).wf(),
            r is Ok <==> exists|i: int|
                0 <= i < old(self).records@.len() && (#[trigger] old(self).records@[i].id@) == id@,
            r is Ok ==> exists|i: int|
                0 <= i < old(self).records@.len() && (#[trigger] old(self).records@[i].id@) == id@
                    && final(self).records@ == old(self).records@.remove(i),
            r is Err ==> final(self).records@ == old(self).records@ && r->Err_0 is NotFound,
    {
        match self.find_by_id(&id) {
            Some(i) => {
                proof {
                    self.records@.remove_ensures(i as int);
                }
                self.records.remove(i);
                Ok(())
            },
            None => Err(DbError::NotFound),
        }
    }
}

} // verus!
