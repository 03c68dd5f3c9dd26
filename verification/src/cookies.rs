//! The session cookie the boundary layer sets after signup or signin.

use vstd::prelude::*;
use vstd::string::StringExecFns;

use crate::database::session::SESSION_AUTHORIZED_TTL_SECONDS;
use crate::database::session::session_ttl_seconds;

verus! {

/// Every attribute of the session cookie, as plain values: the boundary
/// layer turns this into its wire form.
pub struct SessionCookie {
    pub name: String,
    pub value: String,
    pub path: String,
    pub http_only: bool,
    pub secure: bool,
    pub same_site_lax: bool,
    pub expires_at: u64,
}

/// Builds the session cookie: named session_id, HttpOnly, Secure,
/// SameSite=Lax on the root path, expiring with the session it carries.
pub fn set_session_cookie(session_token: String, authorized: bool, now: u64) -> (r: SessionCookie)
    requires
        now + SESSION_AUTHORIZED_TTL_SECONDS <= u64::MAX,
    ensures
        r.name@ == "session_id"@,
        r.value@ == session_token@,
        r.path@ == "/"@,
        r.http_only,
        r.secure,
        r.same_site_lax,
        r.expires_at == now + session_ttl_seconds(authorized),
{
    let expires_at: u64 = if authorized {
        now + SESSION_AUTHORIZED_TTL_SECONDS
    } else {
        now + crate::database::session::SESSION_UNAUTHORIZED_TTL_SECONDS
    };
    SessionCookie {
        name: String::from_str("session_id"),
        value: session_token,
        path: String::from_str("/"),
        http_only: true,
        secure: true,
        same_site_lax: true,
        expires_at,
    }
}

} // verus!
