//! The public failure taxonomy: one error type per workflow, a shared set of
//! common failures, and the response-shaping capability over any of them.

pub mod common;
pub mod email_verification;
pub mod password_reset;
pub mod password_reset_request;
pub mod response;
pub mod signin;
pub mod signup;

pub use common::CommonError;
pub use common::FieldError;
pub use email_verification::EmailVerificationError;
pub use password_reset::PasswordResetError;
pub use password_reset_request::PasswordResetRequestError;
pub use response::ApiError;
pub use response::ErrorResponse;
pub use signin::SigninError;
pub use signup::SignupError;
