//! Failures of the email verification workflow.

use vstd::prelude::*;
use vstd::string::StringExecFns;

use crate::errors::common::CommonError;
use crate::errors::response::ErrorResponse;

verus! {

#[derive(Debug)]
pub enum EmailVerificationError {
    Common(CommonError),
    TokenExpired,
    InvalidToken,
    EmailAlreadyVerified,
    InvalidCode,
    ExpiredCode,
    CodeAlreadyUsed,
}

impl ErrorResponse for EmailVerificationError {
    open spec fn spec_error_name(&self) -> Seq<char> {
        match self {
            EmailVerificationError::Common(e) => e.spec_error_name(),
            EmailVerificationError::TokenExpired => "Token Expired"@,
            EmailVerificationError::InvalidToken => "Invalid Token"@,
            EmailVerificationError::EmailAlreadyVerified => "Email Already Verified"@,
            EmailVerificationError::InvalidCode => "Invalid Code"@,
            EmailVerificationError::ExpiredCode => "Expired Code"@,
            EmailVerificationError::CodeAlreadyUsed => "Code Already Used"@,
        }
    }

    open spec fn spec_error_message(&self) -> Seq<char> {
        match self {
            EmailVerificationError::Common(e) => e.spec_error_message(),
            EmailVerificationError::TokenExpired => "The verification token has expired"@,
            EmailVerificationError::InvalidToken => "The verification token is invalid"@,
            EmailVerificationError::EmailAlreadyVerified => "The email is already verified"@,
            EmailVerificationError::InvalidCode => "The verification code is invalid"@,
            EmailVerificationError::ExpiredCode => "The verification code has expired"@,
            EmailVerificationError::CodeAlreadyUsed => "The verification code has already been used"@,
        }
    }

    open spec fn spec_status_code(&self) -> u16 {
        match self {
            EmailVerificationError::Common(e) => e.spec_status_code(),
            EmailVerificationError::TokenExpired => 400u16,
            EmailVerificationError::InvalidToken => 400u16,
            EmailVerificationError::EmailAlreadyVerified => 409u16,
            EmailVerificationError::InvalidCode => 400u16,
            EmailVerificationError::ExpiredCode => 400u16,
            EmailVerificationError::CodeAlreadyUsed => 400u16,
        }
    }

    fn error_name(&self) -> (r: &'static str) {
        match self {
            EmailVerificationError::Common(e) => e.error_name(),
            EmailVerificationError::TokenExpired => "Token Expired",
            EmailVerificationError::InvalidToken => "Invalid Token",
            EmailVerificationError::EmailAlreadyVerified => "Email Already Verified",
            EmailVerificationError::InvalidCode => "Invalid Code",
            EmailVerificationError::ExpiredCode => "Expired Code",
            EmailVerificationError::CodeAlreadyUsed => "Code Already Used",
        }
    }

    fn error_message(&self) -> (r: String) {
        match self {
            EmailVerificationError::Common(e) => e.error_message(),
            EmailVerificationError::TokenExpired => String::from_str(
                "The verification token has expired",
            ),
            EmailVerificationError::InvalidToken => String::from_str(
                "The verification token is invalid",
            ),
            EmailVerificationError::EmailAlreadyVerified => String::from_str(
                "The email is already verified",
            ),
            EmailVerificationError::InvalidCode => String::from_str(
                "The verification code is invalid",
            ),
            EmailVerificationError::ExpiredCode => String::from_str(
                "The verification code has expired",
            ),
            EmailVerificationError::CodeAlreadyUsed => String::from_str(
                "The verification code has already been used",
            ),
        }
    }

    fn status_code(&self) -> (r: u16) {
        match self {
            EmailVerificationError::Common(e) => e.status_code(),
            EmailVerificationError::TokenExpired => 400,
            EmailVerificationError::InvalidToken => 400,
            EmailVerificationError::EmailAlreadyVerified => 409,
            EmailVerificationError::InvalidCode => 400,
            EmailVerificationError::ExpiredCode => 400,
            EmailVerificationError::CodeAlreadyUsed => 400,
        }
    }
}

} // verus!
