//! Input-shape checks: e-mail addresses and numeric verification codes.

use vstd::prelude::*;
use vstd::string::{StrSliceExecFns, StringExecFns};

use validator::ValidateEmail;

use crate::crypto::all_decimal_digits;

verus! {

/// Length in digits of an email verification code.
pub const VERIFICATION_CODE_LEN: usize = 6;

/// Whether a string has the shape of an e-mail address, as the HTML5
/// specification defines it.
pub uninterp spec fn valid_email(s: Seq<char>) -> bool;

/// Relies on validator's ValidateEmail for &str: the HTML5-specification
/// e-mail shape check, determined by the characters alone.
#[verifier::external_body]
pub(crate) fn validate_email_address(email: &str) -> (r: bool)
    ensures
        r == valid_email(email@),
{
    email.validate_email()
}

/// Why an input failed a shape check, in the words shown to the caller.
pub struct ValidationIssue {
    pub message: String,
}

/// Checks that a verification code has exactly the expected number of
/// characters.
pub fn validate_email_verification_code_length(code: &str) -> (r: Result<(), ValidationIssue>)
    ensures
        r is Ok <==> code@.len() == VERIFICATION_CODE_LEN,
        r is Err ==> r->Err_0.message@ == "The code must be exactly 6 digits long"@,
{
    if code.unicode_len() != VERIFICATION_CODE_LEN {
        return Err(ValidationIssue { message: String::from_str("The code must be exactly 6 digits long") });
    }
    Ok(())
}

/// Checks that a verification code consists of decimal digits only.
pub fn validate_email_verification_code_format(code: &str) -> (r: Result<(), ValidationIssue>)
    ensures
        r is Ok <==> all_decimal_digits(code@),
        r is Err ==> r->Err_0.message@ == "The code must contain only numbers"@,
{
    let len = code.unicode_len();
    let mut i: usize = 0;
    while i < len
        invariant
            i <= len,
            len == code@.len(),
            forall|j: int| 0 <= j < i ==> crate::crypto::is_decimal_digit(#[trigger] code@[j]),
        decreases len - i,
    {
        let c = code.get_char(i);
        let v = c as u32;
        if v < 48 || v > 57 {
            return Err(ValidationIssue { message: String::from_str("The code must contain only numbers") });
        }
        i = i + 1;
    }
    Ok(())
}

} // verus!
