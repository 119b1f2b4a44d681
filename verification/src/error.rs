//! Why a claim could not be verified.

use vstd::prelude::*;

verus! {

/// A refusal that is not a verdict on the credential: the claim could not be
/// read, or the host could not be asked, with the reason in words.
#[derive(Clone, Debug)]
pub struct AuthenticateError {
    /// The reason, as an operator reads it.
    pub message: String,
}

impl AuthenticateError {
    /// A refusal for `message`.
    pub fn new(message: String) -> (e: Self)
        ensures
            e.message@ == message@,
    {
        AuthenticateError { message }
    }
}

} // verus!
