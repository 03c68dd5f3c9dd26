//! Signin: validate the payload, look the account up, check the password,
//! refuse unverified accounts, and issue an authorized session.

use vstd::prelude::*;
use vstd::string::StringExecFns;

use crate::cookies::SessionCookie;
use crate::cookies::set_session_cookie;
use crate::crypto::password_check_decided;
use crate::crypto::password_verifies;
use crate::crypto::phc_parses;
use crate::crypto::sha256_hex_of;
use crate::crypto::verify_password_hash;
use crate::database::DatabaseLayer;
use crate::database::session::SESSION_AUTHORIZED_TTL_SECONDS;
use crate::database::user::has_email;
use crate::database::user::user_for_email;
use crate::errors::ApiError;
use crate::errors::CommonError;
use crate::errors::FieldError;
use crate::errors::SigninError;
use crate::validation::valid_email;
use crate::validation::validate_email_address;

verus! {

/// What a signin request carries.
pub struct RoutePayload {
    pub email: String,
    pub password: String,
}

/// What a completed signin answers.
pub struct RouteOutput {
    pub message: String,
}

/// A signin error carrying the field that failed validation.
pub open spec fn is_validation_error(e: SigninError, field: Seq<char>) -> bool {
    &&& e is Common
    &&& e->Common_0 is Validation
    &&& e->Common_0->Validation_0.field@ == field
}

/// Signin. A missing account and a wrong password are both refused as
/// `InvalidCredentials`, never told apart for the caller; a correct
/// password on an unverified account is refused as `AccountNotVerified`
/// and no session is created. Only a verified account with the right
/// password gets an authorized session, whose bearer token travels in the
/// returned cookie and is stored only as its one-way hash.
pub fn signin(db: &mut DatabaseLayer, payload: RoutePayload, now: u64) -> (r: Result<
    (RouteOutput, SessionCookie),
    ApiError<SigninError>,
>)
    requires
        old(db).wf(),
        now + SESSION_AUTHORIZED_TTL_SECONDS <= u64::MAX,
    ensures
        final(db).wf(),
        final(db).user.users@ == old(db).user.users@,
        final(db).email_verification.records@ == old(db).email_verification.records@,
        final(db).password_reset_request.records@ == old(db).password_reset_request.records@,
        r is Err ==> final(db).session.sessions@ == old(db).session.sessions@,
        // What each outcome tells about the input.
        r is Err && is_validation_error(r->Err_0.0, "email"@) <==> !valid_email(payload.email@),
        r is Err && r->Err_0.0 is InvalidCredentials ==> valid_email(payload.email@) && (
        !has_email(old(db).user.users@, payload.email@) || {
            let u = user_for_email(old(db).user.users@, payload.email@);
            phc_parses(u.password_hash@) && !password_verifies(payload.password@, u.password_hash@)
        }),
        r is Err && r->Err_0.0 is AccountNotVerified ==> valid_email(payload.email@) && has_email(
            old(db).user.users@,
            payload.email@,
        ) && {
            let u = user_for_email(old(db).user.users@, payload.email@);
            password_verifies(payload.password@, u.password_hash@) && !u.email_verified
        },
        r is Err ==> r->Err_0.0 is InvalidCredentials || r->Err_0.0 is AccountNotVerified || (
        r->Err_0.0 is Common && (r->Err_0.0->Common_0 is Validation
            || r->Err_0.0->Common_0 is Hashing)),
        // The internal hashing fault comes only where the primitive owes no
        // answer: never for a parseable hash the password verifies against,
        // nor for an evaluable hash and an admissibly short password.
        r is Err && r->Err_0.0 is Common && r->Err_0.0->Common_0 is Hashing ==> valid_email(
            payload.email@,
        ) && has_email(old(db).user.users@, payload.email@) && !password_check_decided(
            payload.password@,
            user_for_email(old(db).user.users@, payload.email@).password_hash@,
        ),
        // Definite outcomes.
        valid_email(payload.email@) && !has_email(old(db).user.users@, payload.email@) ==> r is Err
            && r->Err_0.0 is InvalidCredentials,
        valid_email(payload.email@) && has_email(old(db).user.users@, payload.email@)
            && !phc_parses(
            user_for_email(old(db).user.users@, payload.email@).password_hash@,
        ) ==> r is Err && r->Err_0.0 is Common && r->Err_0.0->Common_0 is Hashing,
        valid_email(payload.email@) && has_email(old(db).user.users@, payload.email@) && {
            let u = user_for_email(old(db).user.users@, payload.email@);
            password_check_decided(payload.password@, u.password_hash@) && !password_verifies(
                payload.password@,
                u.password_hash@,
            )
        } ==> r is Err && r->Err_0.0 is InvalidCredentials,
        valid_email(payload.email@) && has_email(old(db).user.users@, payload.email@) && {
            let u = user_for_email(old(db).user.users@, payload.email@);
            phc_parses(u.password_hash@) && password_verifies(payload.password@, u.password_hash@)
                && !u.email_verified
        } ==> r is Err && r->Err_0.0 is AccountNotVerified,
        valid_email(payload.email@) && has_email(old(db).user.users@, payload.email@) && {
            let u = user_for_email(old(db).user.users@, payload.email@);
            phc_parses(u.password_hash@) && password_verifies(payload.password@, u.password_hash@)
                && u.email_verified
        } ==> r is Ok,
        // Success: the right password on a verified account.
        r is Ok ==> valid_email(payload.email@) && has_email(old(db).user.users@, payload.email@)
            && {
            let u = user_for_email(old(db).user.users@, payload.email@);
            password_verifies(payload.password@, u.password_hash@) && u.email_verified
        },
        r is Ok ==> {
            let last = final(db).session.sessions@.last();
            &&& final(db).session.sessions@ == old(db).session.sessions@.push(last)
            &&& last.user_id@ == user_for_email(old(db).user.users@, payload.email@).id@
            &&& last.authorized
            &&& last.expires_at == now + SESSION_AUTHORIZED_TTL_SECONDS
            &&& last.id@ == sha256_hex_of(r->Ok_0.1.value@)
            &&& last.id@ != r->Ok_0.1.value@
            &&& r->Ok_0.1.name@ == "session_id"@
            &&& r->Ok_0.1.http_only && r->Ok_0.1.secure && r->Ok_0.1.same_site_lax
            &&& r->Ok_0.1.expires_at == now + SESSION_AUTHORIZED_TTL_SECONDS
            &&& r->Ok_0.0.message@ == "Signin completed successfully!"@
        },
{
    // 1. Validate the payload input.
    if !validate_email_address(payload.email.as_str()) {
        return Err(
            ApiError(
                SigninError::Common(
                    CommonError::Validation(
                        FieldError {
                            field: String::from_str("email"),
                            message: String::from_str("The email address is not valid"),
                        },
                    ),
                ),
            ),
        );
    }

    // 2. Retrieve the account; its absence is reported exactly like a
    // wrong password.
    let user = match db.user.get(payload.email.clone()) {
        Ok(u) => u,
        Err(_) => {
            return Err(ApiError(SigninError::InvalidCredentials));
        },
    };
    proof {
        let users = db.user.users@;
        assert(users.contains(user));
        let j = choose|j: int| 0 <= j < users.len() && (#[trigger] users[j]) == user;
        let k = choose|i: int| 0 <= i < users.len() && (#[trigger] users[i].email@)
            == payload.email@;
        assert(users[j].email@ == payload.email@);
        assert(users[k].email@ == payload.email@);
        assert(j == k);
        assert(user == user_for_email(users, payload.email@));
    }

    // 3. Check the password.
    let password_matches = match verify_password_hash(payload.password.clone(), user.password_hash)
    {
        Ok(m) => m,
        Err(_) => {
            return Err(ApiError(SigninError::Common(CommonError::Hashing)));
        },
    };
    if !password_matches {
        return Err(ApiError(SigninError::InvalidCredentials));
    }

    // 4. Refuse to issue a full session before the email is verified.
    if !user.email_verified {
        return Err(ApiError(SigninError::AccountNotVerified));
    }

    // 5. Create the authorized session and its cookie.
    let (_, token) = match db.session.create(user.id, true, now) {
        Ok(pair) => pair,
        Err(_) => {
            proof {
                assert(false);
            }
            vstd::pervasive::unreached()
        },
    };
    let cookie = set_session_cookie(token, true, now);
    let output = RouteOutput { message: String::from_str("Signin completed successfully!") };
    Ok((output, cookie))
}

} // verus!
