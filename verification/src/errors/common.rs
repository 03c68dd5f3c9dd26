//! Failures shared by every workflow: bad input shape, storage faults,
//! notifier faults, and hashing faults.

use vstd::prelude::*;
use vstd::string::StringExecFns;

use crate::errors::response::ErrorResponse;

verus! {

/// A field that failed validation, and why.
#[derive(Debug)]
pub struct FieldError {
    pub field: String,
    pub message: String,
}

/// The failures every workflow can report.
#[derive(Debug)]
pub enum CommonError {
    /// Malformed input; carries the first field that failed and why.
    Validation(FieldError),
    /// The identity store failed.
    Database,
    /// The notifier failed to send.
    Email,
    /// The password hashing primitive failed internally.
    Hashing,
}

impl ErrorResponse for CommonError {
    open spec fn spec_error_name(&self) -> Seq<char> {
        match self {
            CommonError::Validation(_) => "Validation Error"@,
            CommonError::Database => "Database Error"@,
            CommonError::Email => "Email Service Error"@,
            CommonError::Hashing => "Hashing Error"@,
        }
    }

    open spec fn spec_error_message(&self) -> Seq<char> {
        match self {
            CommonError::Validation(f) => f.message@,
            CommonError::Database => "An error occurred while accessing database"@,
            CommonError::Email => "An error occurred while sending email"@,
            CommonError::Hashing => "An error occurred while processing credentials"@,
        }
    }

    open spec fn spec_status_code(&self) -> u16 {
        match self {
            CommonError::Validation(_) => 400u16,
            CommonError::Database => 500u16,
            CommonError::Email => 500u16,
            CommonError::Hashing => 500u16,
        }
    }

    fn error_name(&self) -> (r: &'static str) {
        match self {
            CommonError::Validation(_) => "Validation Error",
            CommonError::Database => "Database Error",
            CommonError::Email => "Email Service Error",
            CommonError::Hashing => "Hashing Error",
        }
    }

    fn error_message(&self) -> (r: String) {
        match self {
            CommonError::Validation(f) => f.message.clone(),
            CommonError::Database => String::from_str("An error occurred while accessing database"),
            CommonError::Email => String::from_str("An error occurred while sending email"),
            CommonError::Hashing => String::from_str("An error occurred while processing credentials"),
        }
    }

    fn status_code(&self) -> (r: u16) {
        match self {
            CommonError::Validation(_) => 400,
            CommonError::Database => 500,
            CommonError::Email => 500,
            CommonError::Hashing => 500,
        }
    }
}

} // verus!
