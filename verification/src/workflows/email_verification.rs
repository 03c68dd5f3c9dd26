//! Email verification: validate the code's shape, find the user's live
//! challenge, refuse it when absent, expired, mismatched or replayed, and
//! on success mark the user verified, consume the challenge, and force
//! re-authentication by dropping every session of the user.

use vstd::prelude::*;
use vstd::string::StringExecFns;

use crate::crypto::all_decimal_digits;
use crate::crypto::sha256_hex_of;
use crate::crypto::verify_string_hash;
use crate::database::DatabaseLayer;
use crate::database::email_verification::has_verification_for_user;
use crate::database::email_verification::verification_for_user;
use crate::database::lemma_one_verification_per_user;
use crate::database::lemma_refs_preserved_on_user_update;
use crate::database::lemma_refs_preserved_on_verification_remove;
use crate::database::session::sessions_without_user;
use crate::database::user::has_user_id;
use crate::database::user::mark_verified;
use crate::database::user::user_for_id;
use crate::database::user_with_id_and_email;
use crate::email::EmailContent;
use crate::email::EmailMessage;
use crate::errors::ApiError;
use crate::errors::CommonError;
use crate::errors::EmailVerificationError;
use crate::errors::FieldError;
use crate::validation::VERIFICATION_CODE_LEN;
use crate::validation::validate_email_verification_code_format;
use crate::validation::validate_email_verification_code_length;

verus! {

/// What a verification request carries: the typed code, the user it is
/// for, and the challenge-identifier hash from the activation mail.
pub struct RoutePayload {
    pub code: String,
    pub user_id: String,
    pub email_verification_id_hash: String,
}

/// What a completed verification answers.
pub struct RouteOutput {
    pub message: String,
}

/// The shape a one-time code must have: exactly six decimal digits.
pub open spec fn code_shape_ok(code: Seq<char>) -> bool {
    code.len() == VERIFICATION_CODE_LEN && all_decimal_digits(code)
}

/// A verification error carrying the field that failed validation.
pub open spec fn is_validation_error(e: EmailVerificationError, field: Seq<char>) -> bool {
    &&& e is Common
    &&& e->Common_0 is Validation
    &&& e->Common_0->Validation_0.field@ == field
}

/// Email verification by one-time code. The challenge must exist for the
/// user, be unexpired — presence alone is not enough — carry the
/// identifier hash from the activation mail, and match the typed code by
/// one-way hash. Exactly then the user is marked verified, the challenge
/// is deleted in the same step (single use: a replay finds nothing), and
/// every session of the user is dropped. On any refusal the store is
/// untouched. The returned mail is the best-effort confirmation note.
pub fn email_verification(db: &mut DatabaseLayer, payload: RoutePayload, now: u64) -> (r: Result<
    (RouteOutput, EmailMessage),
    ApiError<EmailVerificationError>,
>)
    requires
        old(db).wf(),
    ensures
        final(db).wf(),
        final(db).password_reset_request.records@ == old(db).password_reset_request.records@,
        r is Err ==> final(db).user.users@ == old(db).user.users@
            && final(db).email_verification.records@ == old(db).email_verification.records@
            && final(db).session.sessions@ == old(db).session.sessions@,
        // Each refusal, exactly when it comes. The checks gate each other
        // in this order: shape, presence, expiry, identifier hash, code.
        (r is Err && is_validation_error(r->Err_0.0, "code"@)) <==> !code_shape_ok(payload.code@),
        code_shape_ok(payload.code@) && !has_verification_for_user(
            old(db).email_verification.records@,
            payload.user_id@,
        ) ==> r is Err && r->Err_0.0 is InvalidCode,
        code_shape_ok(payload.code@) && has_verification_for_user(
            old(db).email_verification.records@,
            payload.user_id@,
        ) ==> {
            let v = verification_for_user(old(db).email_verification.records@, payload.user_id@);
            let u = user_for_id(old(db).user.users@, payload.user_id@);
            &&& v.expires_at <= now ==> r is Err && r->Err_0.0 is InvalidCode
            &&& now < v.expires_at && sha256_hex_of(v.id@) != payload.email_verification_id_hash@
                ==> r is Err && r->Err_0.0 is InvalidToken
            &&& now < v.expires_at && sha256_hex_of(v.id@) == payload.email_verification_id_hash@
                && v.code@ != sha256_hex_of(payload.code@) ==> r is Err
                && r->Err_0.0 is InvalidCode
            &&& now < v.expires_at && sha256_hex_of(v.id@) == payload.email_verification_id_hash@
                && v.code@ == sha256_hex_of(payload.code@) && u.email_verified ==> r is Err
                && r->Err_0.0 is EmailAlreadyVerified
            &&& now < v.expires_at && sha256_hex_of(v.id@) == payload.email_verification_id_hash@
                && v.code@ == sha256_hex_of(payload.code@) && !u.email_verified ==> r is Ok
        },
        r is Err ==> r->Err_0.0 is InvalidCode || r->Err_0.0 is InvalidToken
            || r->Err_0.0 is EmailAlreadyVerified || (r->Err_0.0 is Common
            && r->Err_0.0->Common_0 is Validation),
        // Success: verified user, consumed challenge, dropped sessions.
        r is Ok ==> {
            let v = verification_for_user(old(db).email_verification.records@, payload.user_id@);
            let u = user_for_id(old(db).user.users@, payload.user_id@);
            &&& code_shape_ok(payload.code@)
            &&& has_verification_for_user(
                old(db).email_verification.records@,
                payload.user_id@,
            )
            &&& now < v.expires_at
            &&& v.code@ == sha256_hex_of(payload.code@)
            &&& !u.email_verified
            &&& exists|ui: int|
                0 <= ui < old(db).user.users@.len() && (#[trigger] old(db).user.users@[ui].id@)
                    == payload.user_id@ && final(db).user.users@
                    == old(db).user.users@.update(ui, mark_verified(old(db).user.users@[ui]))
            &&& exists|vi: int|
                0 <= vi < old(db).email_verification.records@.len()
                    && (#[trigger] old(db).email_verification.records@[vi].user_id@)
                    == payload.user_id@ && final(db).email_verification.records@
                    == old(db).email_verification.records@.remove(vi)
            &&& !has_verification_for_user(final(db).email_verification.records@, payload.user_id@)
            &&& final(db).session.sessions@ == sessions_without_user(
                old(db).session.sessions@,
                payload.user_id@,
            )
            &&& r->Ok_0.0.message@ == "Email verified successfully"@
            &&& r->Ok_0.1.to@ == u.email@
            &&& r->Ok_0.1.content is VerificationConfirmation
        },
{
    // 1. Validate the shape of the code.
    if let Err(issue) = validate_email_verification_code_length(payload.code.as_str()) {
        return Err(
            ApiError(
                EmailVerificationError::Common(
                    CommonError::Validation(
                        FieldError { field: String::from_str("code"), message: issue.message },
                    ),
                ),
            ),
        );
    }
    if let Err(issue) = validate_email_verification_code_format(payload.code.as_str()) {
        return Err(
            ApiError(
                EmailVerificationError::Common(
                    CommonError::Validation(
                        FieldError { field: String::from_str("code"), message: issue.message },
                    ),
                ),
            ),
        );
    }

    // 2. Find the live challenge of the user; absence means the code
    // cannot be right.
    let verification = match db.email_verification.get(payload.user_id.clone()) {
        Ok(v) => v,
        Err(_) => {
            return Err(ApiError(EmailVerificationError::InvalidCode));
        },
    };
    proof {
        let records = db.email_verification.records@;
        assert(records.contains(verification));
        let j = choose|j: int| 0 <= j < records.len() && (#[trigger] records[j]) == verification;
        let k = choose|i: int|
            0 <= i < records.len() && (#[trigger] records[i].user_id@) == payload.user_id@;
        lemma_one_verification_per_user(*db, j, k);
        assert(verification == verification_for_user(records, payload.user_id@));
    }

    // 3. Expiry is a timestamp comparison, not mere record presence.
    if verification.expires_at <= now {
        return Err(ApiError(EmailVerificationError::InvalidCode));
    }

    // 4. The caller must hold the challenge-identifier hash from the
    // activation mail.
    let id_matches = verify_string_hash(
        verification.id.clone(),
        payload.email_verification_id_hash.clone(),
    );
    if !id_matches {
        return Err(ApiError(EmailVerificationError::InvalidToken));
    }

    // 5. Compare the typed code against the stored one-way hash.
    let code_matches = verify_string_hash(payload.code.clone(), verification.code.clone());
    if !code_matches {
        return Err(ApiError(EmailVerificationError::InvalidCode));
    }

    // 6. Mark the user verified; a user that is already verified is a
    // conflict, not a second success.
    proof {
        let records = db.email_verification.records@;
        let vj = choose|j: int|
            0 <= j < records.len() && (#[trigger] records[j]) == verification;
        assert(user_with_id_and_email(db.user.users@, verification.user_id@, verification.email@));
        assert(has_user_id(db.user.users@, payload.user_id@));
    }
    let user = match db.user.verify_user(payload.user_id.clone()) {
        Ok(u) => u,
        Err(e) => {
            proof {
                let users = old(db).user.users@;
                let uk = choose|i: int|
                    0 <= i < users.len() && (#[trigger] users[i].id@) == payload.user_id@;
                assert(users[uk] == user_for_id(users, payload.user_id@));
                if !user_for_id(users, payload.user_id@).email_verified {
                    assert(false);
                }
            }
            return Err(ApiError(EmailVerificationError::EmailAlreadyVerified));
        },
    };
    proof {
        let users = old(db).user.users@;
        let ui = choose|i: int|
            0 <= i < users.len() && (#[trigger] users[i].id@) == payload.user_id@
                && !users[i].email_verified && user == mark_verified(users[i]) && db.user.users@
                == users.update(i, user);
        lemma_refs_preserved_on_user_update(
            db.email_verification.records@,
            db.password_reset_request.records@,
            users,
            ui,
            user,
        );
        let uk = choose|i: int|
            0 <= i < users.len() && (#[trigger] users[i].id@) == payload.user_id@;
        assert(uk == ui);
        assert(user_for_id(users, payload.user_id@) == users[ui]);
    }

    // 7. Consume the challenge in the same step: a replay of the same code
    // will find nothing.
    let removal = db.email_verification.remove(verification.id.clone());
    proof {
        let records = old(db).email_verification.records@;
        assert(records.contains(verification));
        let vj = choose|j: int|
            0 <= j < records.len() && (#[trigger] records[j]) == verification;
        assert(records[vj].id@ == verification.id@);
        assert(removal is Ok);
        let vi = choose|i: int|
            0 <= i < records.len() && (#[trigger] records[i].id@) == verification.id@
                && db.email_verification.records@ == records.remove(i);
        assert(vi == vj || records[vi].id@ == records[vj].id@);
        if vi != vj {
            assert(false);
        }
        records.remove_ensures(vi);
        assert forall|j: int| 0 <= j < db.email_verification.records@.len() implies (
        #[trigger] db.email_verification.records@[j].user_id@) != payload.user_id@ by {
            let p: int = if j < vi {
                j
            } else {
                j + 1
            };
            assert(db.email_verification.records@[j] == records[p]);
            if records[p].user_id@ == payload.user_id@ {
                lemma_one_verification_per_user(*old(db), p, vj);
            }
        }
        lemma_refs_preserved_on_verification_remove(records, db.user.users@, vi);
    }
    match removal {
        Ok(_) => {},
        Err(_) => {
            proof {
                assert(false);
            }
            vstd::pervasive::unreached()
        },
    }

    // 8. Force re-authentication: drop every session of the user.
    db.session.invalidate_all(payload.user_id.clone());

    // 9. Report success and hand back the best-effort confirmation note.
    let message = EmailMessage { to: user.email, content: EmailContent::VerificationConfirmation };
    let output = RouteOutput { message: String::from_str("Email verified successfully") };
    Ok((output, message))
}

} // verus!
