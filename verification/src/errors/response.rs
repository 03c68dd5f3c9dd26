//! Response shaping: every workflow error exposes a name, a human-readable
//! message, and an HTTP status code, implemented once per error type.

use vstd::prelude::*;

verus! {

/// The response-shaping capability of a workflow error: a stable name, a
/// static human-readable message, and the HTTP status class it maps to.
pub trait ErrorResponse {
    spec fn spec_error_name(&self) -> Seq<char>;

    spec fn spec_error_message(&self) -> Seq<char>;

    spec fn spec_status_code(&self) -> u16;

    fn error_name(&self) -> (r: &'static str)
        ensures
            r@ == self.spec_error_name(),
    ;

    fn error_message(&self) -> (r: String)
        ensures
            r@ == self.spec_error_message(),
    ;

    fn status_code(&self) -> (r: u16)
        ensures
            r == self.spec_status_code(),
    ;
}

/// A workflow error on its way out to the boundary layer.
#[derive(Debug)]
pub struct ApiError<T>(pub T);

} // verus!
