//! The session table: the server stores only the one-way hash of each
//! bearer token, and all sessions of a user can be bulk-invalidated.

use vstd::prelude::*;

use crate::crypto::STORED_HASH_CHAR_LEN;
use crate::crypto::TOKEN_CHAR_LEN;
use crate::crypto::generate_token;
use crate::crypto::hash_token;
use crate::crypto::sha256_hex_of;
use crate::database::DbError;

verus! {

/// How long an authorized session lives, in seconds: thirty days.
pub const SESSION_AUTHORIZED_TTL_SECONDS: u64 = 2592000;

/// How long an unauthorized, pending-verification session lives, in
/// seconds: twelve hours.
pub const SESSION_UNAUTHORIZED_TTL_SECONDS: u64 = 43200;

/// A session record. The identifier is the one-way hash of the bearer token
/// handed to the client; the token itself is never stored.
pub struct Session {
    pub id: String,
    pub authorized: bool,
    pub created_at: u64,
    pub expires_at: u64,
    pub last_accessed_at: u64,
    pub user_id: String,
}

/// Whether some session in the table belongs to this user.
pub open spec fn has_session_for_user(sessions: Seq<Session>, user_id: Seq<char>) -> bool {
    exists|i: int| 0 <= i < sessions.len() && #[trigger] sessions[i].user_id@ == user_id
}

/// The lifetime of a session, by its authorization.
pub open spec fn session_ttl_seconds(authorized: bool) -> u64 {
    if authorized {
        SESSION_AUTHORIZED_TTL_SECONDS
    } else {
        SESSION_UNAUTHORIZED_TTL_SECONDS
    }
}

/// The session table with every session of one user deleted and all other
/// sessions kept, in order.
pub open spec fn sessions_without_user(sessions: Seq<Session>, user_id: Seq<char>) -> Seq<Session>
    decreases sessions.len(),
{
    if sessions.len() == 0 {
        Seq::empty()
    } else {
        let rest = sessions_without_user(sessions.drop_last(), user_id);
        if sessions.last().user_id@ == user_id {
            rest
        } else {
            rest.push(sessions.last())
        }
    }
}

/// The queries over the session table.
pub struct SessionQuery {
    pub sessions: Vec<Session>,
}

impl SessionQuery {
    pub fn new() -> (r: Self)
        ensures
            r.sessions@.len() == 0,
    {
        SessionQuery { sessions: Vec::new() }
    }

    /// Creates a session for this user and returns the record together with
    /// the plaintext bearer token, which is handed out once and never
    /// stored: the record's identifier is the token's one-way hash, so the
    /// stored identifier can never equal the token itself.
    pub fn create(&mut self, user_id: String, authorized: bool, now: u64) -> (r: Result<
        (Session, String),
        DbError,
    >)
        requires
            now + SESSION_AUTHORIZED_TTL_SECONDS <= u64::MAX,
        ensures
            r is Ok,
            r->Ok_0.1@.len() == TOKEN_CHAR_LEN,
            r->Ok_0.0.id@ == sha256_hex_of(r->Ok_0.1@),
            r->Ok_0.0.id@.len() == STORED_HASH_CHAR_LEN,
            r->Ok_0.0.id@ != r->Ok_0.1@,
            r->Ok_0.0.user_id@ == user_id@,
            r->Ok_0.0.authorized == authorized,
            r->Ok_0.0.created_at == now,
            r->Ok_0.0.last_accessed_at == now,
            r->Ok_0.0.expires_at == now + session_ttl_seconds(authorized),
            final(self).sessions@ == old(self).sessions@.push(r->Ok_0.0),
    {
        let token = generate_token();
        let session_id = hash_token(token.as_str());
        let ttl: u64 = if authorized {
            SESSION_AUTHORIZED_TTL_SECONDS
        } else {
            SESSION_UNAUTHORIZED_TTL_SECONDS
        };
        let session = Session {
            id: session_id,
            authorized,
            created_at: now,
            expires_at: now + ttl,
            last_accessed_at: now,
            user_id,
        };
        let result = Session {
            id: session.id.clone(),
            authorized: session.authorized,
            created_at: session.created_at,
            expires_at: session.expires_at,
            last_accessed_at: session.last_accessed_at,
            user_id: session.user_id.clone(),
        };
        self.sessions.push(session);
        Ok((result, token))
    }

    /// Deletes every session of this user and reports how many there were.
    /// A user without sessions is a no-op success, not an error: there was
    /// nothing left to invalidate.
    pub fn invalidate_all(&mut self, user_id: String) -> (r: usize)
        ensures
            final(self).sessions@ == sessions_without_user(old(self).sessions@, user_id@),
            !has_session_for_user(final(self).sessions@, user_id@),
            r == old(self).sessions@.len() - final(self).sessions@.len(),
            r == 0 <==> !has_session_for_user(old(self).sessions@, user_id@),
    {
        let n = self.sessions.len();
        let mut kept: Vec<Session> = Vec::new();
        let mut i: usize = 0;
        proof {
            assert(sessions_without_user(self.sessions@.subrange(0, 0), user_id@)
                =~= Seq::<Session>::empty());
        }
        while i < n
            invariant
                i <= n,
                n == self.sessions@.len(),
                kept@ == sessions_without_user(self.sessions@.subrange(0, i as int), user_id@),
                kept@.len() <= i,
                forall|k: int| 0 <= k < kept@.len() ==> (#[trigger] kept@[k].user_id@) != user_id@,
                i - kept@.len() > 0 <==> exists|j: int|
                    0 <= j < i && (#[trigger] self.sessions@[j].user_id@) == user_id@,
            decreases n - i,
        {
            let ghost prefix = self.sessions@.subrange(0, i as int);
            let ghost prefix_next = self.sessions@.subrange(0, i + 1);
            proof {
                assert(prefix_next.drop_last() =~= prefix);
                assert(prefix_next.last() == self.sessions@[i as int]);
            }
            let s = &self.sessions[i];
            if s.user_id != user_id {
                kept.push(
                    Session {
                        id: s.id.clone(),
                        authorized: s.authorized,
                        created_at: s.created_at,
                        expires_at: s.expires_at,
                        last_accessed_at: s.last_accessed_at,
                        user_id: s.user_id.clone(),
                    },
                );
                proof {
                    assert(kept@.last() == self.sessions@[i as int]);
                    assert(kept@ =~= sessions_without_user(prefix_next, user_id@));
                }
            } else {
                proof {
                    assert(kept@ =~= sessions_without_user(prefix_next, user_id@));
                }
            }
            i = i + 1;
        }
        proof {
            assert(self.sessions@.subrange(0, n as int) =~= self.sessions@);
        }
        let removed = n - kept.len();
        self.sessions = kept;
        removed
    }
}

} // verus!
