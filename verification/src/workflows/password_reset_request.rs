//! Password reset request: validate the email, and for a registered
//! address create a reset request — superseding any prior one — and hand
//! the boundary layer the reset mail, which carries only the one-way hash
//! of the request identifier. An unknown address gets the same generic
//! success and no mail, so the endpoint does not reveal which emails have
//! accounts.

use vstd::prelude::*;
use vstd::string::StringExecFns;

use crate::crypto::sha256_hex_of;
use crate::database::DatabaseLayer;
use crate::database::lemma_refs_preserved_on_request_remove;
use crate::database::password_reset_request::PASSWORD_RESET_TTL_SECONDS;
use crate::database::password_reset_request::has_request_for_user;
use crate::database::requests_reference_users;
use crate::database::user::has_email;
use crate::database::user::has_user_id;
use crate::database::user::user_for_email;
use crate::email::EmailContent;
use crate::email::EmailMessage;
use crate::errors::ApiError;
use crate::errors::CommonError;
use crate::errors::FieldError;
use crate::errors::PasswordResetRequestError;
use crate::validation::valid_email;
use crate::validation::validate_email_address;

verus! {

/// What a reset request carries.
pub struct RoutePayload {
    pub email: String,
}

/// What a completed reset request answers.
pub struct RouteOutput {
    pub message: String,
}

/// A reset request error carrying the field that failed validation.
pub open spec fn is_validation_error(e: PasswordResetRequestError, field: Seq<char>) -> bool {
    &&& e is Common
    &&& e->Common_0 is Validation
    &&& e->Common_0->Validation_0.field@ == field
}

/// Password reset request. For a registered email a fresh request is
/// created, any prior one for the same user superseded in the same step,
/// and the returned mail carries the one-way hash of the new request's
/// identifier — the record key itself never leaves the store. For an
/// unregistered email the same success is returned with no mail and no
/// mutation, so existence of an account cannot be probed here.
pub fn password_reset_request(db: &mut DatabaseLayer, payload: RoutePayload, now: u64) -> (r:
    Result<(RouteOutput, Option<EmailMessage>), ApiError<PasswordResetRequestError>>)
    requires
        old(db).wf(),
        now + PASSWORD_RESET_TTL_SECONDS <= u64::MAX,
    ensures
        final(db).wf(),
        final(db).user.users@ == old(db).user.users@,
        final(db).email_verification.records@ == old(db).email_verification.records@,
        final(db).session.sessions@ == old(db).session.sessions@,
        (r is Err && is_validation_error(r->Err_0.0, "email"@)) <==> !valid_email(payload.email@),
        r is Err ==> (r->Err_0.0 is Common && (r->Err_0.0->Common_0 is Validation
            || r->Err_0.0->Common_0 is Database)),
        r is Err && r->Err_0.0 is Common && r->Err_0.0->Common_0 is Validation ==> *final(db)
            == *old(db),
        // The storage fault can only come from a known email's create, and
        // leaves the reset table unchanged or with just the user's prior
        // request deleted.
        r is Err && r->Err_0.0 is Common && r->Err_0.0->Common_0 is Database ==> valid_email(
            payload.email@,
        ) && has_email(old(db).user.users@, payload.email@)
            && (final(db).password_reset_request.records@ == old(
            db,
        ).password_reset_request.records@ || exists|i: int|
            0 <= i < old(db).password_reset_request.records@.len() && (#[trigger] old(
                db,
            ).password_reset_request.records@[i].user_id@) == user_for_email(
                old(db).user.users@,
                payload.email@,
            ).id@ && final(db).password_reset_request.records@ == old(
                db,
            ).password_reset_request.records@.remove(i)),
        // A known, well-formed email always gets its reset mail on success.
        r is Ok && valid_email(payload.email@) && has_email(old(db).user.users@, payload.email@)
            ==> r->Ok_0.1 is Some,
        // An unknown email is indistinguishable from a known one.
        valid_email(payload.email@) && !has_email(old(db).user.users@, payload.email@) ==> r is Ok
            && r->Ok_0.1 is None && *final(db) == *old(db),
        r is Ok ==> r->Ok_0.0.message@ == "Password reset request created successfully"@,
        r is Ok && r->Ok_0.1 is Some ==> valid_email(payload.email@) && has_email(
            old(db).user.users@,
            payload.email@,
        ),
        r is Ok && r->Ok_0.1 is None ==> final(db).password_reset_request.records@ == old(
            db,
        ).password_reset_request.records@,
        // The known-email case: one live request for the user, the new one.
        r is Ok && r->Ok_0.1 is Some ==> {
            let u = user_for_email(old(db).user.users@, payload.email@);
            let msg = r->Ok_0.1->0;
            let created = final(db).password_reset_request.records@.last();
            &&& final(db).password_reset_request.records@.len() > 0
            &&& created.user_id@ == u.id@
            &&& created.created_at == now
            &&& created.expires_at == now + PASSWORD_RESET_TTL_SECONDS
            &&& (has_request_for_user(old(db).password_reset_request.records@, u.id@)
                ==> exists|i: int|
                0 <= i < old(db).password_reset_request.records@.len() && (#[trigger] old(
                    db,
                ).password_reset_request.records@[i].user_id@) == u.id@
                    && final(db).password_reset_request.records@ == old(
                    db,
                ).password_reset_request.records@.remove(i).push(created))
            &&& (!has_request_for_user(old(db).password_reset_request.records@, u.id@)
                ==> final(db).password_reset_request.records@ == old(
                db,
            ).password_reset_request.records@.push(created))
            &&& msg.to@ == payload.email@
            &&& (msg.content matches EmailContent::PasswordReset { reset_reference }
                && reset_reference@ == sha256_hex_of(created.id@))
        },
{
    // 1. Validate the payload input.
    if !validate_email_address(payload.email.as_str()) {
        return Err(
            ApiError(
                PasswordResetRequestError::Common(
                    CommonError::Validation(
                        FieldError {
                            field: String::from_str("email"),
                            message: String::from_str("The email address is not valid"),
                        },
                    ),
                ),
            ),
        );
    }

    // 2. Look the account up. An unknown address is answered exactly like
    // a known one, with nothing created and nothing sent.
    let user = match db.user.get(payload.email.clone()) {
        Ok(u) => u,
        Err(_) => {
            return Ok(
                (
                    RouteOutput {
                        message: String::from_str("Password reset request created successfully"),
                    },
                    None,
                ),
            );
        },
    };
    proof {
        let users = db.user.users@;
        assert(users.contains(user));
        let j = choose|j: int| 0 <= j < users.len() && (#[trigger] users[j]) == user;
        let k = choose|i: int| 0 <= i < users.len() && (#[trigger] users[i].email@)
            == payload.email@;
        assert(users[j].email@ == payload.email@);
        assert(j == k);
        assert(user == user_for_email(users, payload.email@));
        assert(has_user_id(users, user.id@));
    }

    // 3. Create the reset request, superseding any prior one for the user.
    let request = match db.password_reset_request.create(user.id.clone(), now) {
        Ok(req) => req,
        Err(_) => {
            proof {
                let requests = db.password_reset_request.records@;
                let old_requests = old(db).password_reset_request.records@;
                if requests != old_requests {
                    let i = choose|i: int|
                        0 <= i < old_requests.len() && (#[trigger] old_requests[i].user_id@)
                            == user.id@ && requests == old_requests.remove(i);
                    lemma_refs_preserved_on_request_remove(old_requests, db.user.users@, i);
                }
            }
            return Err(ApiError(PasswordResetRequestError::Common(CommonError::Database)));
        },
    };
    proof {
        let requests = db.password_reset_request.records@;
        let old_requests = old(db).password_reset_request.records@;
        assert(requests.last() == request);
        assert forall|i: int| 0 <= i < requests.len() implies has_user_id(
            db.user.users@,
            (#[trigger] requests[i]).user_id@,
        ) by {
            if i == requests.len() - 1 {
                assert(requests[i] == request);
            } else {
                if has_request_for_user(old_requests, user.id@) {
                    let k = choose|k: int|
                        0 <= k < old_requests.len() && (#[trigger] old_requests[k].user_id@)
                            == user.id@ && requests == old_requests.remove(k).push(request);
                    old_requests.remove_ensures(k);
                    let p: int = if i < k {
                        i
                    } else {
                        i + 1
                    };
                    assert(requests[i] == old_requests[p]);
                } else {
                    assert(requests[i] == old_requests[i]);
                }
            }
        }
    }

    // 4. Hand the boundary layer the reset mail: it carries the hash of
    // the request identifier, never the identifier itself.
    let id_hash = crate::crypto::hash_string(request.id.clone());
    let message = EmailMessage {
        to: payload.email,
        content: EmailContent::PasswordReset { reset_reference: id_hash },
    };
    let output = RouteOutput {
        message: String::from_str("Password reset request created successfully"),
    };
    Ok((output, Some(message)))
}

} // verus!
