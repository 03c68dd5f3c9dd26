//! Signup: validate the payload, claim the email, hash the password, create
//! the unverified user with its verification challenge, and hand the
//! boundary layer the activation mail; once that mail is away, an
//! unauthorized session is issued.

use vstd::prelude::*;
use vstd::string::StringExecFns;

use crate::cookies::SessionCookie;
use crate::cookies::set_session_cookie;
use crate::crypto::all_decimal_digits;
use crate::crypto::fresh_hash_for;
use crate::crypto::generate_random_code;
use crate::crypto::hash_password;
use crate::crypto::hash_string;
use crate::crypto::sha256_hex_of;
use crate::database::DatabaseLayer;
use crate::database::email_verification::EMAIL_VERIFICATION_TTL_SECONDS;
use crate::database::email_verification::EmailVerification;
use crate::database::lemma_no_verification_without_user;
use crate::database::lemma_refs_preserved_on_user_push;
use crate::database::session::SESSION_AUTHORIZED_TTL_SECONDS;
use crate::database::session::SESSION_UNAUTHORIZED_TTL_SECONDS;
use crate::database::user::User;
use crate::database::user::has_email;
use crate::database::user_with_id_and_email;
use crate::email::EmailContent;
use crate::email::EmailMessage;
use crate::errors::ApiError;
use crate::errors::CommonError;
use crate::errors::FieldError;
use crate::errors::SignupError;
use crate::validation::VERIFICATION_CODE_LEN;
use crate::validation::valid_email;
use crate::validation::validate_email_address;

verus! {

/// What a signup request carries.
pub struct RoutePayload {
    pub email: String,
    pub password: String,
}

/// What a completed signup answers.
pub struct RouteOutput {
    pub message: String,
}

/// A signup that persisted its records and now waits for the activation
/// mail to be away before a session is issued.
pub struct PendingSignup {
    pub user: User,
    pub verification: EmailVerification,
    pub email: EmailMessage,
}

/// A signup error carrying the field that failed validation.
pub open spec fn is_validation_error(e: SignupError, field: Seq<char>) -> bool {
    &&& e is Common
    &&& e->Common_0 is Validation
    &&& e->Common_0->Validation_0.field@ == field
}

/// First phase of signup. On success the store holds a new unverified user
/// for the email and exactly one live verification challenge, whose stored
/// code is the one-way hash of the six-digit code in the returned
/// activation mail. A taken email is refused without touching the store,
/// so no second user for an email can ever be created.
pub fn signup(db: &mut DatabaseLayer, payload: RoutePayload, now: u64) -> (r: Result<
    PendingSignup,
    ApiError<SignupError>,
>)
    requires
        old(db).wf(),
        now + EMAIL_VERIFICATION_TTL_SECONDS <= u64::MAX,
    ensures
        final(db).wf(),
        final(db).session.sessions@ == old(db).session.sessions@,
        final(db).password_reset_request.records@ == old(db).password_reset_request.records@,
        !valid_email(payload.email@) ==> r is Err && is_validation_error(r->Err_0.0, "email"@)
            && *final(db) == *old(db),
        valid_email(payload.email@) && has_email(old(db).user.users@, payload.email@) ==> r is Err
            && r->Err_0.0 is EmailAlreadyExists && *final(db) == *old(db),
        r is Ok ==> valid_email(payload.email@) && !has_email(old(db).user.users@, payload.email@),
        r is Ok ==> {
            let p = r->Ok_0;
            &&& final(db).user.users@ == old(db).user.users@.push(p.user)
            &&& p.user.email@ == payload.email@
            &&& !p.user.email_verified
            &&& p.user.created_at == now
            &&& fresh_hash_for(payload.password@, p.user.password_hash@)
            &&& final(db).email_verification.records@ == old(
                db,
            ).email_verification.records@.push(p.verification)
            &&& p.verification.user_id@ == p.user.id@
            &&& p.verification.email@ == payload.email@
            &&& p.verification.created_at == now
            &&& p.verification.expires_at == now + EMAIL_VERIFICATION_TTL_SECONDS
            &&& p.email.to@ == payload.email@
            &&& (p.email.content matches EmailContent::Verification {
                code,
                verification_id_hash,
            } && code@.len() == VERIFICATION_CODE_LEN && all_decimal_digits(code@)
                && p.verification.code@ == sha256_hex_of(code@) && verification_id_hash@
                == sha256_hex_of(p.verification.id@))
        },
        r is Err ==> final(db).email_verification.records@ == old(
            db,
        ).email_verification.records@,
        // The storage fault leaves the user table unchanged, or with just
        // the new unverified user for this email appended.
        r is Err && r->Err_0.0 is Common && r->Err_0.0->Common_0 is Database
            ==> final(db).user.users@ == old(db).user.users@ || (final(db).user.users@ == old(
            db,
        ).user.users@.push(final(db).user.users@.last()) && final(db).user.users@.last().email@
            == payload.email@ && !final(db).user.users@.last().email_verified),
        r is Err && valid_email(payload.email@) && !has_email(old(db).user.users@, payload.email@)
            ==> r->Err_0.0 is Common && (r->Err_0.0->Common_0 is Hashing
            || r->Err_0.0->Common_0 is Database),
        r is Err && r->Err_0.0 is Common && r->Err_0.0->Common_0 is Hashing ==> *final(db) == *old(
            db,
        ),
{
    // 1. Validate the payload input.
    if !validate_email_address(payload.email.as_str()) {
        return Err(
            ApiError(
                SignupError::Common(
                    CommonError::Validation(
                        FieldError {
                            field: String::from_str("email"),
                            message: String::from_str("The email address is not valid"),
                        },
                    ),
                ),
            ),
        );
    }

    // 2. Check that the email is available.
    let user_exists = db.user.check_if_exists(payload.email.clone());
    if user_exists {
        return Err(ApiError(SignupError::EmailAlreadyExists));
    }

    // 3. Hash the password.
    let password_hash = match hash_password(payload.password.clone()) {
        Ok(h) => h,
        Err(_) => {
            return Err(ApiError(SignupError::Common(CommonError::Hashing)));
        },
    };

    // 4. Create the user.
    let user = match db.user.create(payload.email.clone(), password_hash, now) {
        Ok(u) => u,
        Err(_) => {
            return Err(ApiError(SignupError::Common(CommonError::Database)));
        },
    };
    proof {
        lemma_refs_preserved_on_user_push(
            db.email_verification.records@,
            db.password_reset_request.records@,
            old(db).user.users@,
            db.user.users@.last(),
        );
        lemma_no_verification_without_user(*old(db), payload.email@);
    }

    // 5. Create the verification challenge: the store keeps only the hash
    // of the code.
    let verification_code = generate_random_code(6);
    let verification_code_hash = hash_string(verification_code.clone());
    let verification = match db.email_verification.create(
        verification_code_hash,
        payload.email.clone(),
        user.id.clone(),
        now,
    ) {
        Ok(v) => v,
        Err(_) => {
            return Err(ApiError(SignupError::Common(CommonError::Database)));
        },
    };
    proof {
        assert(db.user.users@.last() == user);
        assert(user_with_id_and_email(db.user.users@, verification.user_id@, verification.email@));
        assert forall|i: int| 0 <= i < db.email_verification.records@.len()
            implies user_with_id_and_email(
            db.user.users@,
            (#[trigger] db.email_verification.records@[i]).user_id@,
            db.email_verification.records@[i].email@,
        ) by {
            if i < db.email_verification.records@.len() - 1 {
                assert(db.email_verification.records@[i] == old(
                    db,
                ).email_verification.records@[i]);
            }
        }
    }

    // 6. Hand the boundary layer the activation mail, carrying the
    // plaintext code and the hash of the challenge identifier.
    let verification_id_hash = hash_string(verification.id.clone());
    let email = EmailMessage {
        to: payload.email,
        content: EmailContent::Verification {
            code: verification_code,
            verification_id_hash,
        },
    };
    Ok(PendingSignup { user, verification, email })
}

/// Second phase of signup, once the activation mail is away: issues the
/// unauthorized, pending-verification session and the cookie carrying its
/// bearer token. The stored session identifier is the token's one-way
/// hash, never the token itself.
pub fn signup_complete(db: &mut DatabaseLayer, user_id: String, now: u64) -> (r: (
    RouteOutput,
    SessionCookie,
))
    requires
        old(db).wf(),
        now + SESSION_AUTHORIZED_TTL_SECONDS <= u64::MAX,
    ensures
        final(db).wf(),
        final(db).user.users@ == old(db).user.users@,
        final(db).email_verification.records@ == old(db).email_verification.records@,
        final(db).password_reset_request.records@ == old(db).password_reset_request.records@,
        final(db).session.sessions@ == old(db).session.sessions@.push(
            final(db).session.sessions@.last(),
        ),
        final(db).session.sessions@.last().user_id@ == user_id@,
        !final(db).session.sessions@.last().authorized,
        final(db).session.sessions@.last().expires_at == now + SESSION_UNAUTHORIZED_TTL_SECONDS,
        final(db).session.sessions@.last().id@ == sha256_hex_of(r.1.value@),
        final(db).session.sessions@.last().id@ != r.1.value@,
        r.1.name@ == "session_id"@,
        r.1.http_only && r.1.secure && r.1.same_site_lax,
        r.1.expires_at == now + SESSION_UNAUTHORIZED_TTL_SECONDS,
        r.0.message@ == "Signup completed successfully!"@,
{
    let (_, token) = match db.session.create(user_id, false, now) {
        Ok(pair) => pair,
        Err(_) => {
            proof {
                assert(false);
            }
            vstd::pervasive::unreached()
        },
    };
    let cookie = set_session_cookie(token, false, now);
    let output = RouteOutput { message: String::from_str("Signup completed successfully!") };
    (output, cookie)
}

} // verus!
