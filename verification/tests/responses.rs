use orvane_auth::cookies::set_session_cookie;
use orvane_auth::email::EmailLayer;
use orvane_auth::errors::ApiError;
use orvane_auth::errors::CommonError;
use orvane_auth::errors::EmailVerificationError;
use orvane_auth::errors::ErrorResponse;
use orvane_auth::errors::SigninError;
use orvane_auth::errors::SignupError;
use orvane_auth::validation::validate_email_verification_code_format;
use orvane_auth::validation::validate_email_verification_code_length;

const NOW: u64 = 1_700_000_000;

#[test]
fn session_cookie_attributes() {
    let authorized = set_session_cookie(String::from("token-value"), true, NOW);
    assert_eq!(authorized.name, "session_id");
    assert_eq!(authorized.value, "token-value");
    assert_eq!(authorized.path, "/");
    assert!(authorized.http_only);
    assert!(authorized.secure);
    assert!(authorized.same_site_lax);
    assert_eq!(authorized.expires_at, NOW + 2_592_000);

    let unauthorized = set_session_cookie(String::from("t"), false, NOW);
    assert_eq!(unauthorized.expires_at, NOW + 43_200);
}

#[test]
fn email_layer_keeps_its_configuration() {
    let layer = EmailLayer::new(String::from("key"), String::from("example.org"));
    assert_eq!(layer.domain, "example.org");
    assert_eq!(layer.api_key(), "key");
}

#[test]
fn code_validators_report_shape_failures() {
    assert!(validate_email_verification_code_length("123456").is_ok());
    assert!(validate_email_verification_code_length("12345").is_err());
    assert!(validate_email_verification_code_length("1234567").is_err());
    assert!(validate_email_verification_code_format("123456").is_ok());
    assert!(validate_email_verification_code_format("").is_ok());
    let issue = validate_email_verification_code_format("12a456").err().unwrap();
    assert_eq!(issue.message, "The code must contain only numbers");
}

#[test]
fn common_error_response_shape() {
    assert_eq!(CommonError::Database.error_name(), "Database Error");
    assert_eq!(CommonError::Database.status_code(), 500);
    assert_eq!(CommonError::Email.error_name(), "Email Service Error");
    assert_eq!(CommonError::Email.status_code(), 500);
    assert_eq!(CommonError::Hashing.error_name(), "Hashing Error");
    assert_eq!(
        CommonError::Hashing.error_message(),
        "An error occurred while processing credentials"
    );
}

#[test]
fn workflow_error_response_shapes() {
    assert_eq!(SignupError::EmailAlreadyExists.status_code(), 409);
    assert_eq!(
        SignupError::EmailAlreadyExists.error_message(),
        "An account with this email already exists"
    );
    assert_eq!(SigninError::InvalidCredentials.status_code(), 401);
    assert_eq!(SigninError::AccountNotVerified.status_code(), 403);
    assert_eq!(SigninError::AccountNotVerified.error_name(), "Account Not Verified");
    assert_eq!(EmailVerificationError::InvalidCode.status_code(), 400);
    assert_eq!(
        EmailVerificationError::InvalidCode.error_message(),
        "The verification code is invalid"
    );
    assert_eq!(EmailVerificationError::EmailAlreadyVerified.status_code(), 409);
    let wrapped = ApiError(SignupError::Common(CommonError::Hashing));
    assert_eq!(wrapped.0.status_code(), 500);
}
