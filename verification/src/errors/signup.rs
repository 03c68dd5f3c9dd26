//! Failures of the signup workflow.

use vstd::prelude::*;
use vstd::string::StringExecFns;

use crate::errors::common::CommonError;
use crate::errors::response::ErrorResponse;

verus! {

#[derive(Debug)]
pub enum SignupError {
    Common(CommonError),
    EmailAlreadyExists,
    WeakPassword,
    InvalidReferralCode,
    RegistrationClosed,
}

impl ErrorResponse for SignupError {
    open spec fn spec_error_name(&self) -> Seq<char> {
        match self {
            SignupError::Common(e) => e.spec_error_name(),
            SignupError::EmailAlreadyExists => "Email Already Exists"@,
            SignupError::WeakPassword => "Weak Password"@,
            SignupError::InvalidReferralCode => "Invalid Referral Code"@,
            SignupError::RegistrationClosed => "Registration Closed"@,
        }
    }

    open spec fn spec_error_message(&self) -> Seq<char> {
        match self {
            SignupError::Common(e) => e.spec_error_message(),
            SignupError::EmailAlreadyExists => "An account with this email already exists"@,
            SignupError::WeakPassword => "Password does not meet the minimum strength requirements"@,
            SignupError::InvalidReferralCode => "The provided referral code is invalid"@,
            SignupError::RegistrationClosed => "Registration is currently closed for new users"@,
        }
    }

    open spec fn spec_status_code(&self) -> u16 {
        match self {
            SignupError::Common(e) => e.spec_status_code(),
            SignupError::EmailAlreadyExists => 409u16,
            SignupError::WeakPassword => 400u16,
            SignupError::InvalidReferralCode => 400u16,
            SignupError::RegistrationClosed => 403u16,
        }
    }

    fn error_name(&self) -> (r: &'static str) {
        match self {
            SignupError::Common(e) => e.error_name(),
            SignupError::EmailAlreadyExists => "Email Already Exists",
            SignupError::WeakPassword => "Weak Password",
            SignupError::InvalidReferralCode => "Invalid Referral Code",
            SignupError::RegistrationClosed => "Registration Closed",
        }
    }

    fn error_message(&self) -> (r: String) {
        match self {
            SignupError::Common(e) => e.error_message(),
            SignupError::EmailAlreadyExists => String::from_str(
                "An account with this email already exists",
            ),
            SignupError::WeakPassword => String::from_str(
                "Password does not meet the minimum strength requirements",
            ),
            SignupError::InvalidReferralCode => String::from_str(
                "The provided referral code is invalid",
            ),
            SignupError::RegistrationClosed => String::from_str(
                "Registration is currently closed for new users",
            ),
        }
    }

    fn status_code(&self) -> (r: u16) {
        match self {
            SignupError::Common(e) => e.status_code(),
            SignupError::EmailAlreadyExists => 409,
            SignupError::WeakPassword => 400,
            SignupError::InvalidReferralCode => 400,
            SignupError::RegistrationClosed => 403,
        }
    }
}

} // verus!
