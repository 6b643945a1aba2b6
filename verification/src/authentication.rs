use vstd::prelude::*;

verus! {

/// Why credentials were not accepted: they do not match an account, the
/// account is not activated yet, or checking them failed. Each carries the
/// message of its cause.
#[derive(Debug)]
pub enum AuthError {
    InvalidCredentials(String),
    UnexpectedError(String),
    InactiveAccount(String),
}

} // verus!
