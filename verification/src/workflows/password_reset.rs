//! Password reset completion: find the live reset request by the mailed
//! reference, refuse it when absent or expired, and on success set the new
//! password hash, consume the request, and drop every session of the user.

use vstd::prelude::*;
use vstd::string::StringExecFns;

use crate::crypto::fresh_hash_for;
use crate::crypto::hash_password;
use crate::crypto::sha256_hex_of;
use crate::database::DatabaseLayer;
use crate::database::lemma_refs_preserved_on_request_remove;
use crate::database::lemma_refs_preserved_on_user_update;
use crate::database::password_reset_request::has_request_with_reference;
use crate::database::session::sessions_without_user;
use crate::database::user::has_user_id;
use crate::database::user::with_password;
use crate::errors::ApiError;
use crate::errors::CommonError;
use crate::errors::PasswordResetError;

verus! {

/// What a reset completion carries: the reference from the reset mail —
/// the one-way hash of the request identifier — and the new password.
pub struct RoutePayload {
    pub password_reset_request_id: String,
    pub new_password: String,
}

/// What a completed reset answers.
pub struct RouteOutput {
    pub message: String,
}

/// Password reset completion. The mailed reference must hash-match a live
/// request, and the request must be unexpired. Exactly then the user's
/// password hash is replaced by a fresh hash of the new password, the
/// request is consumed in the same step (single use), and every session of
/// the user is dropped. On any refusal the store is untouched.
pub fn password_reset(db: &mut DatabaseLayer, payload: RoutePayload, now: u64) -> (r: Result<
    RouteOutput,
    ApiError<PasswordResetError>,
>)
    requires
        old(db).wf(),
    ensures
        final(db).wf(),
        final(db).email_verification.records@ == old(db).email_verification.records@,
        r is Err ==> final(db).user.users@ == old(db).user.users@
            && final(db).password_reset_request.records@ == old(
            db,
        ).password_reset_request.records@ && final(db).session.sessions@ == old(
            db,
        ).session.sessions@,
        r is Err ==> r->Err_0.0 is InvalidToken || r->Err_0.0 is TokenExpired || (
        r->Err_0.0 is Common && r->Err_0.0->Common_0 is Hashing),
        // An unknown reference, exactly.
        (r is Err && r->Err_0.0 is InvalidToken) <==> !has_request_with_reference(
            old(db).password_reset_request.records@,
            payload.password_reset_request_id@,
        ),
        // An expired request: presence is not enough.
        r is Err && r->Err_0.0 is TokenExpired ==> exists|i: int|
            0 <= i < old(db).password_reset_request.records@.len() && sha256_hex_of(
                (#[trigger] old(db).password_reset_request.records@[i]).id@,
            ) == payload.password_reset_request_id@
                && old(db).password_reset_request.records@[i].expires_at <= now,
        has_request_with_reference(
            old(db).password_reset_request.records@,
            payload.password_reset_request_id@,
        ) && (forall|i: int|
            0 <= i < old(db).password_reset_request.records@.len() && sha256_hex_of(
                (#[trigger] old(db).password_reset_request.records@[i]).id@,
            ) == payload.password_reset_request_id@ ==> old(
                db,
            ).password_reset_request.records@[i].expires_at <= now) ==> r is Err
            && r->Err_0.0 is TokenExpired,
        r is Err && r->Err_0.0 is Common && r->Err_0.0->Common_0 is Hashing ==> exists|i: int|
            0 <= i < old(db).password_reset_request.records@.len() && sha256_hex_of(
                (#[trigger] old(db).password_reset_request.records@[i]).id@,
            ) == payload.password_reset_request_id@ && now < old(
                db,
            ).password_reset_request.records@[i].expires_at,
        // Success: a new password hash, a consumed request, no sessions
        // left.
        r is Ok ==> r->Ok_0.message@ == "Password reset completed successfully"@,
        r is Ok ==> exists|qi: int|
            #![trigger old(db).password_reset_request.records@[qi]]
            {
                let req = old(db).password_reset_request.records@[qi];
                &&& 0 <= qi < old(db).password_reset_request.records@.len()
                &&& sha256_hex_of(req.id@) == payload.password_reset_request_id@
                &&& now < req.expires_at
                &&& final(db).password_reset_request.records@ == old(
                    db,
                ).password_reset_request.records@.remove(qi)
                &&& final(db).session.sessions@ == sessions_without_user(
                    old(db).session.sessions@,
                    req.user_id@,
                )
                &&& exists|ui: int|
                    {
                        let newu = final(db).user.users@[ui];
                        &&& 0 <= ui < old(db).user.users@.len()
                        &&& (#[trigger] old(db).user.users@[ui].id@) == req.user_id@
                        &&& final(db).user.users@ == old(db).user.users@.update(ui, newu)
                        &&& newu == with_password(old(db).user.users@[ui], newu.password_hash)
                        &&& fresh_hash_for(payload.new_password@, newu.password_hash@)
                    }
            },
{
    // 1. Find the live request by the mailed reference.
    let request = match db.password_reset_request.get_by_reference(
        &payload.password_reset_request_id,
    ) {
        Ok(req) => req,
        Err(_) => {
            return Err(ApiError(PasswordResetError::InvalidToken));
        },
    };
    let ghost old_requests = old(db).password_reset_request.records@;
    proof {
        assert(old_requests.contains(request));
    }

    // 2. Expiry is a timestamp comparison, not mere record presence.
    if request.expires_at <= now {
        proof {
            let j = choose|j: int|
                0 <= j < old_requests.len() && (#[trigger] old_requests[j]) == request;
            assert(sha256_hex_of(old_requests[j].id@) == payload.password_reset_request_id@);
        }
        return Err(ApiError(PasswordResetError::TokenExpired));
    }
    proof {
        let j = choose|j: int|
            0 <= j < old_requests.len() && (#[trigger] old_requests[j]) == request;
        assert(sha256_hex_of(old_requests[j].id@) == payload.password_reset_request_id@);
        assert(now < old_requests[j].expires_at);
    }

    // 3. Hash the new password.
    let password_hash = match hash_password(payload.new_password.clone()) {
        Ok(h) => h,
        Err(_) => {
            return Err(ApiError(PasswordResetError::Common(CommonError::Hashing)));
        },
    };

    // 4. Set the new hash on the owning user, which the store invariant
    // guarantees to exist.
    proof {
        let j = choose|j: int|
            0 <= j < old_requests.len() && (#[trigger] old_requests[j]) == request;
        assert(has_user_id(db.user.users@, old_requests[j].user_id@));
    }
    let user = match db.user.update_password(request.user_id.clone(), password_hash) {
        Ok(u) => u,
        Err(_) => {
            proof {
                assert(false);
            }
            vstd::pervasive::unreached()
        },
    };
    proof {
        let users = old(db).user.users@;
        let ui = choose|i: int|
            0 <= i < users.len() && (#[trigger] users[i].id@) == request.user_id@ && user
                == with_password(users[i], user.password_hash) && db.user.users@ == users.update(
                i,
                user,
            );
        lemma_refs_preserved_on_user_update(
            db.email_verification.records@,
            db.password_reset_request.records@,
            users,
            ui,
            user,
        );
    }

    // 5. Consume the request in the same step: it is single use.
    let removal = db.password_reset_request.remove(request.id.clone());
    proof {
        let j = choose|j: int|
            0 <= j < old_requests.len() && (#[trigger] old_requests[j]) == request;
        assert(old_requests[j].id@ == request.id@);
        assert(removal is Ok);
        let vi = choose|i: int|
            0 <= i < old_requests.len() && (#[trigger] old_requests[i].id@) == request.id@
                && db.password_reset_request.records@ == old_requests.remove(i);
        if vi != j {
            assert(false);
        }
        lemma_refs_preserved_on_request_remove(old_requests, db.user.users@, vi);
    }
    match removal {
        Ok(_) => {},
        Err(_) => {
            proof {
                assert(false);
            }
            vstd::pervasive::unreached()
        },
    }

    // 6. Force re-authentication everywhere: the credential just changed.
    db.session.invalidate_all(request.user_id.clone());

    Ok(RouteOutput { message: String::from_str("Password reset completed successfully") })
}

} // verus!
