//! The verification and reset workflows: each one turns a request payload
//! and the current time into store mutations, an outcome, and the emails to
//! send, with every rule of the lifecycle stated in its contract.

pub mod email_verification;
pub mod password_reset;
pub mod password_reset_request;
pub mod signin;
pub mod signup;
