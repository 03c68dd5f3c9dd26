//! Failures of the password reset completion workflow.

use vstd::prelude::*;
use vstd::string::StringExecFns;

use crate::errors::common::CommonError;
use crate::errors::response::ErrorResponse;

verus! {

#[derive(Debug)]
pub enum PasswordResetError {
    Common(CommonError),
    TokenExpired,
    InvalidToken,
    InvalidEmail,
}

impl ErrorResponse for PasswordResetError {
    open spec fn spec_error_name(&self) -> Seq<char> {
        match self {
            PasswordResetError::Common(e) => e.spec_error_name(),
            PasswordResetError::TokenExpired => "Token Expired"@,
            PasswordResetError::InvalidToken => "Invalid Token"@,
            PasswordResetError::InvalidEmail => "Invalid Email"@,
        }
    }

    open spec fn spec_error_message(&self) -> Seq<char> {
        match self {
            PasswordResetError::Common(e) => e.spec_error_message(),
            PasswordResetError::TokenExpired => "The password reset token has expired"@,
            PasswordResetError::InvalidToken => "The password reset token is invalid"@,
            PasswordResetError::InvalidEmail => "The provided email is invalid"@,
        }
    }

    open spec fn spec_status_code(&self) -> u16 {
        match self {
            PasswordResetError::Common(e) => e.spec_status_code(),
            PasswordResetError::TokenExpired => 400u16,
            PasswordResetError::InvalidToken => 400u16,
            PasswordResetError::InvalidEmail => 400u16,
        }
    }

    fn error_name(&self) -> (r: &'static str) {
        match self {
            PasswordResetError::Common(e) => e.error_name(),
            PasswordResetError::TokenExpired => "Token Expired",
            PasswordResetError::InvalidToken => "Invalid Token",
            PasswordResetError::InvalidEmail => "Invalid Email",
        }
    }

    fn error_message(&self) -> (r: String) {
        match self {
            PasswordResetError::Common(e) => e.error_message(),
            PasswordResetError::TokenExpired => String::from_str(
                "The password reset token has expired",
            ),
            PasswordResetError::InvalidToken => String::from_str(
                "The password reset token is invalid",
            ),
            PasswordResetError::InvalidEmail => String::from_str("The provided email is invalid"),
        }
    }

    fn status_code(&self) -> (r: u16) {
        match self {
            PasswordResetError::Common(e) => e.status_code(),
            PasswordResetError::TokenExpired => 400,
            PasswordResetError::InvalidToken => 400,
            PasswordResetError::InvalidEmail => 400,
        }
    }
}

} // verus!
