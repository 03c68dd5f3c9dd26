use orvane_auth::crypto::hash_string;
use orvane_auth::crypto::hash_token;
use orvane_auth::crypto::verify_password_hash;
use orvane_auth::database::DatabaseLayer;
use orvane_auth::email::EmailContent;
use orvane_auth::errors::CommonError;
use orvane_auth::errors::EmailVerificationError;
use orvane_auth::errors::ErrorResponse;
use orvane_auth::errors::PasswordResetError;
use orvane_auth::errors::PasswordResetRequestError;
use orvane_auth::errors::SigninError;
use orvane_auth::errors::SignupError;
use orvane_auth::workflows::email_verification::email_verification;
use orvane_auth::workflows::password_reset::password_reset;
use orvane_auth::workflows::password_reset_request::password_reset_request;
use orvane_auth::workflows::signin::signin;
use orvane_auth::workflows::signup::signup;
use orvane_auth::workflows::signup::signup_complete;

const NOW: u64 = 1_700_000_000;

fn signup_payload(email: &str, password: &str) -> orvane_auth::workflows::signup::RoutePayload {
    orvane_auth::workflows::signup::RoutePayload {
        email: String::from(email),
        password: String::from(password),
    }
}

fn signin_payload(email: &str, password: &str) -> orvane_auth::workflows::signin::RoutePayload {
    orvane_auth::workflows::signin::RoutePayload {
        email: String::from(email),
        password: String::from(password),
    }
}

/// Runs a full signup and returns the plaintext code, the identifier hash
/// from the activation mail, and the user id.
fn complete_signup(db: &mut DatabaseLayer, email: &str, password: &str) -> (String, String, String) {
    let pending = signup(db, signup_payload(email, password), NOW).unwrap();
    let user_id = pending.user.id.clone();
    let (code, id_hash) = match pending.email.content {
        EmailContent::Verification { code, verification_id_hash } => (code, verification_id_hash),
        _ => panic!("signup must hand back an activation mail"),
    };
    signup_complete(db, user_id.clone(), NOW);
    (code, id_hash, user_id)
}

fn verify_payload(
    code: &str,
    user_id: &str,
    id_hash: &str,
) -> orvane_auth::workflows::email_verification::RoutePayload {
    orvane_auth::workflows::email_verification::RoutePayload {
        code: String::from(code),
        user_id: String::from(user_id),
        email_verification_id_hash: String::from(id_hash),
    }
}

fn wrong_code(actual: &str) -> String {
    if actual == "000000" {
        String::from("000001")
    } else {
        String::from("000000")
    }
}

#[test]
fn signup_then_verify() {
    let mut db = DatabaseLayer::new();
    let pending = signup(&mut db, signup_payload("a@b.com", "Secr3t!23"), NOW).unwrap();
    assert_eq!(db.user.users.len(), 1);
    assert!(!db.user.users[0].email_verified);
    assert_eq!(db.email_verification.records.len(), 1);
    let code = match &pending.email.content {
        EmailContent::Verification { code, .. } => code.clone(),
        _ => panic!("expected an activation mail"),
    };
    assert_eq!(code.len(), 6);
    assert!(code.chars().all(|c| c.is_ascii_digit()));
    assert_eq!(pending.email.to, "a@b.com");
    assert_eq!(db.email_verification.records[0].code, hash_string(code.clone()));

    let (output, cookie) = signup_complete(&mut db, pending.user.id.clone(), NOW);
    assert_eq!(output.message, "Signup completed successfully!");
    assert_eq!(cookie.name, "session_id");
    assert!(cookie.http_only && cookie.secure && cookie.same_site_lax);
    assert_eq!(db.session.sessions.len(), 1);

    let id_hash = match pending.email.content {
        EmailContent::Verification { verification_id_hash, .. } => verification_id_hash,
        _ => unreachable!(),
    };
    let (out, note) = email_verification(
        &mut db,
        verify_payload(&code, &pending.user.id, &id_hash),
        NOW + 60,
    )
    .unwrap();
    assert_eq!(out.message, "Email verified successfully");
    assert_eq!(note.to, "a@b.com");
    assert!(matches!(note.content, EmailContent::VerificationConfirmation));
    assert!(db.user.users[0].email_verified);
    assert_eq!(db.email_verification.records.len(), 0);
    assert_eq!(db.session.sessions.len(), 0);
}

#[test]
fn second_signup_with_same_email_is_refused() {
    let mut db = DatabaseLayer::new();
    signup(&mut db, signup_payload("a@b.com", "Secr3t!23"), NOW).unwrap();
    let second = signup(&mut db, signup_payload("a@b.com", "0ther!Pw9"), NOW);
    let err = second.err().expect("the email is taken").0;
    assert!(matches!(err, SignupError::EmailAlreadyExists));
    assert_eq!(err.status_code(), 409);
    assert_eq!(err.error_name(), "Email Already Exists");
    assert_eq!(db.user.users.len(), 1);
}

#[test]
fn signup_refuses_malformed_email() {
    let mut db = DatabaseLayer::new();
    let r = signup(&mut db, signup_payload("not-an-email", "Secr3t!23"), NOW);
    let err = r.err().expect("the email is malformed").0;
    assert_eq!(err.status_code(), 400);
    assert_eq!(err.error_name(), "Validation Error");
    assert!(matches!(err, SignupError::Common(CommonError::Validation(_))));
    assert_eq!(db.user.users.len(), 0);
}

#[test]
fn wrong_code_leaves_everything_in_place() {
    let mut db = DatabaseLayer::new();
    let (code, id_hash, user_id) = complete_signup(&mut db, "a@b.com", "Secr3t!23");
    let r = email_verification(
        &mut db,
        verify_payload(&wrong_code(&code), &user_id, &id_hash),
        NOW + 60,
    );
    let err = r.err().expect("the code is wrong").0;
    assert!(matches!(err, EmailVerificationError::InvalidCode));
    assert_eq!(err.status_code(), 400);
    assert_eq!(db.email_verification.records.len(), 1);
    assert!(!db.user.users[0].email_verified);
    assert_eq!(db.session.sessions.len(), 1);
}

#[test]
fn expired_code_is_refused_though_the_record_exists() {
    let mut db = DatabaseLayer::new();
    let (code, id_hash, user_id) = complete_signup(&mut db, "a@b.com", "Secr3t!23");
    let r = email_verification(
        &mut db,
        verify_payload(&code, &user_id, &id_hash),
        NOW + 301,
    );
    let err = r.err().expect("the challenge has expired").0;
    assert!(matches!(err, EmailVerificationError::InvalidCode));
    assert_eq!(db.email_verification.records.len(), 1);
    assert!(!db.user.users[0].email_verified);
}

#[test]
fn verification_code_shape_is_checked() {
    let mut db = DatabaseLayer::new();
    let (_, id_hash, user_id) = complete_signup(&mut db, "a@b.com", "Secr3t!23");
    let short = email_verification(&mut db, verify_payload("12345", &user_id, &id_hash), NOW);
    let err = short.err().expect("five digits are too few").0;
    assert_eq!(err.error_message(), "The code must be exactly 6 digits long");
    assert_eq!(err.status_code(), 400);
    let letters = email_verification(&mut db, verify_payload("12a456", &user_id, &id_hash), NOW);
    let err = letters.err().expect("letters are not digits").0;
    assert_eq!(err.error_message(), "The code must contain only numbers");
}

#[test]
fn mismatched_identifier_hash_is_an_invalid_token() {
    let mut db = DatabaseLayer::new();
    let (code, _, user_id) = complete_signup(&mut db, "a@b.com", "Secr3t!23");
    let r = email_verification(
        &mut db,
        verify_payload(&code, &user_id, "0000000000"),
        NOW + 60,
    );
    let err = r.err().expect("the identifier hash is wrong").0;
    assert!(matches!(err, EmailVerificationError::InvalidToken));
    assert!(!db.user.users[0].email_verified);
}

#[test]
fn replaying_a_consumed_code_finds_nothing() {
    let mut db = DatabaseLayer::new();
    let (code, id_hash, user_id) = complete_signup(&mut db, "a@b.com", "Secr3t!23");
    email_verification(&mut db, verify_payload(&code, &user_id, &id_hash), NOW + 60).unwrap();
    assert!(db.user.users[0].email_verified);
    let replay = email_verification(&mut db, verify_payload(&code, &user_id, &id_hash), NOW + 61);
    let err = replay.err().expect("the challenge was consumed").0;
    assert!(matches!(err, EmailVerificationError::InvalidCode));
    // The user stays verified: the end state is idempotent even though the
    // operation is not.
    assert!(db.user.users[0].email_verified);
}

#[test]
fn signin_before_verification_is_refused_without_a_session() {
    let mut db = DatabaseLayer::new();
    complete_signup(&mut db, "a@b.com", "Secr3t!23");
    let sessions_before = db.session.sessions.len();
    let r = signin(&mut db, signin_payload("a@b.com", "Secr3t!23"), NOW);
    let err = r.err().expect("the account is not verified").0;
    assert!(matches!(err, SigninError::AccountNotVerified));
    assert_eq!(err.status_code(), 403);
    assert_eq!(db.session.sessions.len(), sessions_before);
}

#[test]
fn signin_with_wrong_password_or_unknown_email_is_undifferentiated() {
    let mut db = DatabaseLayer::new();
    let (code, id_hash, user_id) = complete_signup(&mut db, "a@b.com", "Secr3t!23");
    email_verification(&mut db, verify_payload(&code, &user_id, &id_hash), NOW + 60).unwrap();
    let wrong = signin(&mut db, signin_payload("a@b.com", "WrongPw!1"), NOW);
    let err = wrong.err().expect("the password is wrong").0;
    assert!(matches!(err, SigninError::InvalidCredentials));
    assert_eq!(err.status_code(), 401);
    let unknown = signin(&mut db, signin_payload("b@b.com", "Secr3t!23"), NOW);
    let err = unknown.err().expect("the account does not exist").0;
    assert!(matches!(err, SigninError::InvalidCredentials));
    assert_eq!(err.error_message(), "The provided credentials are invalid");
    assert_eq!(db.session.sessions.len(), 0);
}

#[test]
fn signin_issues_an_authorized_session() {
    let mut db = DatabaseLayer::new();
    let (code, id_hash, user_id) = complete_signup(&mut db, "a@b.com", "Secr3t!23");
    email_verification(&mut db, verify_payload(&code, &user_id, &id_hash), NOW + 60).unwrap();
    let (output, cookie) = signin(&mut db, signin_payload("a@b.com", "Secr3t!23"), NOW).unwrap();
    assert_eq!(output.message, "Signin completed successfully!");
    assert_eq!(cookie.name, "session_id");
    assert_eq!(cookie.expires_at, NOW + 2_592_000);
    assert_eq!(db.session.sessions.len(), 1);
    let session = &db.session.sessions[0];
    assert!(session.authorized);
    assert_eq!(session.user_id, user_id);
    // The stored identifier is the hash of the cookie's bearer token, and
    // never the token itself.
    assert_ne!(session.id, cookie.value);
    assert_eq!(session.id, hash_token(&cookie.value));
}

#[test]
fn reset_cycle() {
    let mut db = DatabaseLayer::new();
    let (code, id_hash, user_id) = complete_signup(&mut db, "a@b.com", "Secr3t!23");
    email_verification(&mut db, verify_payload(&code, &user_id, &id_hash), NOW + 60).unwrap();
    signin(&mut db, signin_payload("a@b.com", "Secr3t!23"), NOW).unwrap();
    assert_eq!(db.session.sessions.len(), 1);

    let request_payload = orvane_auth::workflows::password_reset_request::RoutePayload {
        email: String::from("a@b.com"),
    };
    let (output, mail) = password_reset_request(&mut db, request_payload, NOW).unwrap();
    assert_eq!(output.message, "Password reset request created successfully");
    assert_eq!(db.password_reset_request.records.len(), 1);
    let mail = mail.expect("a registered email gets a reset mail");
    assert_eq!(mail.to, "a@b.com");
    let reference = match mail.content {
        EmailContent::PasswordReset { reset_reference } => reset_reference,
        _ => panic!("expected a reset mail"),
    };
    assert_eq!(
        reference,
        hash_string(db.password_reset_request.records[0].id.clone())
    );

    let old_hash = db.user.users[0].password_hash.clone();
    let reset_payload = orvane_auth::workflows::password_reset::RoutePayload {
        password_reset_request_id: reference,
        new_password: String::from("N3wSecr3t!"),
    };
    let output = password_reset(&mut db, reset_payload, NOW + 10).unwrap();
    assert_eq!(output.message, "Password reset completed successfully");
    assert_eq!(db.password_reset_request.records.len(), 0);
    assert_eq!(db.session.sessions.len(), 0);
    let new_hash = db.user.users[0].password_hash.clone();
    assert_ne!(old_hash, new_hash);
    assert!(matches!(
        verify_password_hash(String::from("Secr3t!23"), new_hash.clone()),
        Ok(false)
    ));
    assert!(matches!(
        verify_password_hash(String::from("N3wSecr3t!"), new_hash),
        Ok(true)
    ));
}

#[test]
fn reset_request_for_unknown_email_reveals_nothing() {
    let mut db = DatabaseLayer::new();
    let payload = orvane_auth::workflows::password_reset_request::RoutePayload {
        email: String::from("nobody@b.com"),
    };
    let (output, mail) = password_reset_request(&mut db, payload, NOW).unwrap();
    assert_eq!(output.message, "Password reset request created successfully");
    assert!(mail.is_none());
    assert_eq!(db.password_reset_request.records.len(), 0);
}

#[test]
fn reset_request_supersedes_the_prior_one() {
    let mut db = DatabaseLayer::new();
    complete_signup(&mut db, "a@b.com", "Secr3t!23");
    let payload = |email: &str| orvane_auth::workflows::password_reset_request::RoutePayload {
        email: String::from(email),
    };
    let (_, first) = password_reset_request(&mut db, payload("a@b.com"), NOW).unwrap();
    let (_, second) = password_reset_request(&mut db, payload("a@b.com"), NOW + 5).unwrap();
    assert_eq!(db.password_reset_request.records.len(), 1);
    let first_ref = match first.unwrap().content {
        EmailContent::PasswordReset { reset_reference } => reset_reference,
        _ => panic!("expected a reset mail"),
    };
    let second_ref = match second.unwrap().content {
        EmailContent::PasswordReset { reset_reference } => reset_reference,
        _ => panic!("expected a reset mail"),
    };
    // Only the later reference still resolves.
    let stale = password_reset(
        &mut db,
        orvane_auth::workflows::password_reset::RoutePayload {
            password_reset_request_id: first_ref,
            new_password: String::from("N3wSecr3t!"),
        },
        NOW + 10,
    );
    let err = stale.err().expect("the first request was superseded").0;
    assert!(matches!(err, PasswordResetError::InvalidToken));
    assert_eq!(
        second_ref,
        hash_string(db.password_reset_request.records[0].id.clone())
    );
}

#[test]
fn reset_completion_refuses_bad_or_expired_references() {
    let mut db = DatabaseLayer::new();
    complete_signup(&mut db, "a@b.com", "Secr3t!23");
    let bogus = password_reset(
        &mut db,
        orvane_auth::workflows::password_reset::RoutePayload {
            password_reset_request_id: String::from("no-such-reference"),
            new_password: String::from("N3wSecr3t!"),
        },
        NOW,
    );
    let err = bogus.err().expect("the reference is unknown").0;
    assert!(matches!(err, PasswordResetError::InvalidToken));
    assert_eq!(err.status_code(), 400);

    let (_, mail) = password_reset_request(
        &mut db,
        orvane_auth::workflows::password_reset_request::RoutePayload {
            email: String::from("a@b.com"),
        },
        NOW,
    )
    .unwrap();
    let reference = match mail.unwrap().content {
        EmailContent::PasswordReset { reset_reference } => reset_reference,
        _ => panic!("expected a reset mail"),
    };
    let late = password_reset(
        &mut db,
        orvane_auth::workflows::password_reset::RoutePayload {
            password_reset_request_id: reference,
            new_password: String::from("N3wSecr3t!"),
        },
        NOW + 3601,
    );
    let err = late.err().expect("the request has expired").0;
    assert!(matches!(err, PasswordResetError::TokenExpired));
    assert_eq!(err.error_message(), "The password reset token has expired");
    assert_eq!(db.password_reset_request.records.len(), 1);
}

#[test]
fn reset_request_refuses_malformed_email() {
    let mut db = DatabaseLayer::new();
    let r = password_reset_request(
        &mut db,
        orvane_auth::workflows::password_reset_request::RoutePayload {
            email: String::from("not-an-email"),
        },
        NOW,
    );
    let err = r.err().expect("the email is malformed").0;
    assert!(matches!(
        err,
        PasswordResetRequestError::Common(CommonError::Validation(_))
    ));
    assert_eq!(err.status_code(), 400);
}
