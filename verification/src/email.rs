//! The notifier boundary: the configuration of the outbound email provider
//! and the messages the workflows ask it to send. Actually sending is the
//! boundary layer's work; the workflows only decide what goes out.

use vstd::prelude::*;

verus! {

/// Configuration of the transactional email provider: a credential and the
/// sending domain, held as given, with no I/O of its own.
pub struct EmailLayer {
    pub api_key: String,
    pub domain: String,
}

impl EmailLayer {
    pub fn new(api_key: String, domain: String) -> (r: Self)
        ensures
            r.api_key@ == api_key@,
            r.domain@ == domain@,
    {
        EmailLayer { api_key, domain }
    }

    /// The provider credential, for the boundary layer that does the
    /// sending.
    pub fn api_key(&self) -> (r: &String)
        ensures
            r@ == self.api_key@,
    {
        &self.api_key
    }
}

/// What a transactional email carries.
pub enum EmailContent {
    /// An account activation mail: the plaintext one-time code and the
    /// one-way hash of the challenge identifier.
    Verification { code: String, verification_id_hash: String },
    /// A confirmation that the account was verified.
    VerificationConfirmation,
    /// A password reset mail: the one-way hash of the reset request
    /// identifier, never the identifier itself.
    PasswordReset { reset_reference: String },
}

/// A transactional email the boundary layer is asked to send.
pub struct EmailMessage {
    pub to: String,
    pub content: EmailContent,
}

} // verus!
