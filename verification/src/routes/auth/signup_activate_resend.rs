use vstd::prelude::*;

verus! {

/// A request to send the activation email again.
#[derive(Debug)]
pub struct ActivateResendRequest {
    pub email: String,
}

/// Why sending the activation email again failed; carries the message of
/// what failed.
#[derive(Debug)]
pub enum ActivationError {
    UnexpectedError(String),
}

impl ActivationError {
    /// The error's text, which is also the message of the answer.
    pub fn to_string(&self) -> (r: String)
        ensures
            r@ == "Something went wrong."@,
    {
        match self {
            ActivationError::UnexpectedError(_) => "Something went wrong.".to_owned(),
        }
    }

    /// The status of the answer: 500.
    pub fn status_code(&self) -> (r: u16)
        ensures
            r == 500,
    {
        match self {
            ActivationError::UnexpectedError(_) => 500,
        }
    }
}

} // verus!
