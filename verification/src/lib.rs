//! Identity and verification lifecycle engine: signup, signin, email
//! verification, password reset, and session issuance, with the credential
//! handling primitives they depend on.

pub mod cookies;
pub mod crypto;
pub mod database;
pub mod email;
pub mod errors;
pub mod validation;
pub mod workflows;
