//! Failures of the password reset request workflow.

use vstd::prelude::*;
use vstd::string::StringExecFns;

use crate::errors::common::CommonError;
use crate::errors::response::ErrorResponse;

verus! {

#[derive(Debug)]
pub enum PasswordResetRequestError {
    Common(CommonError),
    TokenExpired,
    InvalidToken,
    InvalidEmail,
}

impl ErrorResponse for PasswordResetRequestError {
    open spec fn spec_error_name(&self) -> Seq<char> {
        match self {
            PasswordResetRequestError::Common(e) => e.spec_error_name(),
            PasswordResetRequestError::TokenExpired => "Token Expired"@,
            PasswordResetRequestError::InvalidToken => "Invalid Token"@,
            PasswordResetRequestError::InvalidEmail => "Invalid Email"@,
        }
    }

    open spec fn spec_error_message(&self) -> Seq<char> {
        match self {
            PasswordResetRequestError::Common(e) => e.spec_error_message(),
            PasswordResetRequestError::TokenExpired => "The password reset token has expired"@,
            PasswordResetRequestError::InvalidToken => "The password reset token is invalid"@,
            PasswordResetRequestError::InvalidEmail => "The provided email is invalid"@,
        }
    }

    open spec fn spec_status_code(&self) -> u16 {
        match self {
            PasswordResetRequestError::Common(e) => e.spec_status_code(),
            PasswordResetRequestError::TokenExpired => 400u16,
            PasswordResetRequestError::InvalidToken => 400u16,
            PasswordResetRequestError::InvalidEmail => 400u16,
        }
    }

    fn error_name(&self) -> (r: &'static str) {
        match self {
            PasswordResetRequestError::Common(e) => e.error_name(),
            PasswordResetRequestError::TokenExpired => "Token Expired",
            PasswordResetRequestError::InvalidToken => "Invalid Token",
            PasswordResetRequestError::InvalidEmail => "Invalid Email",
        }
    }

    fn error_message(&self) -> (r: String) {
        match self {
            PasswordResetRequestError::Common(e) => e.error_message(),
            PasswordResetRequestError::TokenExpired => String::from_str(
                "The password reset token has expired",
            ),
            PasswordResetRequestError::InvalidToken => String::from_str(
                "The password reset token is invalid",
            ),
            PasswordResetRequestError::InvalidEmail => String::from_str(
                "The provided email is invalid",
            ),
        }
    }

    fn status_code(&self) -> (r: u16) {
        match self {
            PasswordResetRequestError::Common(e) => e.status_code(),
            PasswordResetRequestError::TokenExpired => 400,
            PasswordResetRequestError::InvalidToken => 400,
            PasswordResetRequestError::InvalidEmail => 400,
        }
    }
}

} // verus!
