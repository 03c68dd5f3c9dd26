//! Failures of the signin workflow.

use vstd::prelude::*;
use vstd::string::StringExecFns;

use crate::errors::common::CommonError;
use crate::errors::response::ErrorResponse;

verus! {

#[derive(Debug)]
pub enum SigninError {
    Common(CommonError),
    InvalidCredentials,
    AccountLocked,
    AccountNotVerified,
}

impl ErrorResponse for SigninError {
    open spec fn spec_error_name(&self) -> Seq<char> {
        match self {
            SigninError::Common(e) => e.spec_error_name(),
            SigninError::InvalidCredentials => "Invalid Credentials"@,
            SigninError::AccountLocked => "Account Locked"@,
            SigninError::AccountNotVerified => "Account Not Verified"@,
        }
    }

    open spec fn spec_error_message(&self) -> Seq<char> {
        match self {
            SigninError::Common(e) => e.spec_error_message(),
            SigninError::InvalidCredentials => "The provided credentials are invalid"@,
            SigninError::AccountLocked => "The account is locked"@,
            SigninError::AccountNotVerified => "The account is not verified"@,
        }
    }

    open spec fn spec_status_code(&self) -> u16 {
        match self {
            SigninError::Common(e) => e.spec_status_code(),
            SigninError::InvalidCredentials => 401u16,
            SigninError::AccountLocked => 403u16,
            SigninError::AccountNotVerified => 403u16,
        }
    }

    fn error_name(&self) -> (r: &'static str) {
        match self {
            SigninError::Common(e) => e.error_name(),
            SigninError::InvalidCredentials => "Invalid Credentials",
            SigninError::AccountLocked => "Account Locked",
            SigninError::AccountNotVerified => "Account Not Verified",
        }
    }

    fn error_message(&self) -> (r: String) {
        match self {
            SigninError::Common(e) => e.error_message(),
            SigninError::InvalidCredentials => String::from_str(
                "The provided credentials are invalid",
            ),
            SigninError::AccountLocked => String::from_str("The account is locked"),
            SigninError::AccountNotVerified => String::from_str("The account is not verified"),
        }
    }

    fn status_code(&self) -> (r: u16) {
        match self {
            SigninError::Common(e) => e.status_code(),
            SigninError::InvalidCredentials => 401,
            SigninError::AccountLocked => 403,
            SigninError::AccountNotVerified => 403,
        }
    }
}

} // verus!
