use crate::authentication::AuthError;
use vstd::prelude::*;

verus! {

/// The credentials a user logs in with.
#[derive(Debug)]
pub struct LoginRequest {
    pub username: String,
    pub password: String,
}

/// The body of an answer to a failed login.
#[derive(Debug)]
pub struct LoginErrorResponse {
    pub status: String,
    pub message: String,
}

/// Why a login failed: wrong credentials, an account not yet activated, or
/// an unexpected failure. Each carries the message of its cause.
#[derive(Debug)]
pub enum LoginError {
    AuthError(String),
    ForbiddenError(String),
    UnexpectedError(String),
}

/// Which kind of body answers a failed login: a `fail` body blames the
/// request, an `error` body the service.
#[derive(Debug, Clone, Copy, PartialEq, Eq, Structural)]
pub enum ResponseKind {
    Fail,
    Error,
}

/// The login error a failed credential check becomes.
pub open spec fn login_error_of(e: AuthError) -> LoginError {
    match e {
        AuthError::InvalidCredentials(m) => LoginError::AuthError(m),
        AuthError::UnexpectedError(m) => LoginError::UnexpectedError(m),
        AuthError::InactiveAccount(m) => LoginError::ForbiddenError(m),
    }
}

/// The text of a login error.
pub open spec fn login_error_text(e: LoginError) -> Seq<char> {
    match e {
        LoginError::AuthError(_) => "Authentication failed."@,
        LoginError::ForbiddenError(_) => "Account is inactive."@,
        LoginError::UnexpectedError(_) => "Something went wrong."@,
    }
}

/// The message of the answer to a failed login.
pub open spec fn login_answer_message(e: LoginError) -> Seq<char> {
    match e {
        LoginError::AuthError(_) => "Authentication failed."@,
        LoginError::ForbiddenError(_) => "Account is not activated."@,
        LoginError::UnexpectedError(_) => "Something went wrong."@,
    }
}

impl LoginError {
    /// The login error for a failed credential check: wrong credentials are an
    /// authentication error, an inactive account is forbidden, anything else
    /// is unexpected; the cause is kept.
    pub fn from_auth_error(e: AuthError) -> (r: LoginError)
        ensures
            r == login_error_of(e),
            e matches AuthError::InvalidCredentials(m) ==> r == LoginError::AuthError(m),
            e matches AuthError::UnexpectedError(m) ==> r == LoginError::UnexpectedError(m),
            e matches AuthError::InactiveAccount(m) ==> r == LoginError::ForbiddenError(m),
    {
        match e {
            AuthError::InvalidCredentials(m) => LoginError::AuthError(m),
            AuthError::UnexpectedError(m) => LoginError::UnexpectedError(m),
            AuthError::InactiveAccount(m) => LoginError::ForbiddenError(m),
        }
    }

    /// The error's text.
    pub fn to_string(&self) -> (r: String)
        ensures
            r@ == login_error_text(*self),
            *self is AuthError ==> r@ == "Authentication failed."@,
            *self is ForbiddenError ==> r@ == "Account is inactive."@,
            *self is UnexpectedError ==> r@ == "Something went wrong."@,
    {
        match self {
            LoginError::AuthError(_) => "Authentication failed.".to_owned(),
            LoginError::ForbiddenError(_) => "Account is inactive.".to_owned(),
            LoginError::UnexpectedError(_) => "Something went wrong.".to_owned(),
        }
    }

    /// The status the error itself reports: 400, 403 or 500.
    pub fn status_code(&self) -> (r: u16)
        ensures
            r == match *self {
                LoginError::AuthError(_) => 400u16,
                LoginError::ForbiddenError(_) => 403u16,
                LoginError::UnexpectedError(_) => 500u16,
            },
    {
        match self {
            LoginError::AuthError(_) => 400,
            LoginError::UnexpectedError(_) => 500,
            LoginError::ForbiddenError(_) => 403,
        }
    }

    /// The status of the answer to a failed login: 401 for wrong
    /// credentials, 403 for an inactive account, 500 otherwise.
    pub fn response_status(&self) -> (r: u16)
        ensures
            r == match *self {
                LoginError::AuthError(_) => 401u16,
                LoginError::ForbiddenError(_) => 403u16,
                LoginError::UnexpectedError(_) => 500u16,
            },
    {
        match self {
            LoginError::AuthError(_) => 401,
            LoginError::UnexpectedError(_) => 500,
            LoginError::ForbiddenError(_) => 403,
        }
    }

    /// The kind of body that answers a failed login: `fail` for wrong
    /// credentials and an inactive account, `error` otherwise.
    pub fn response_kind(&self) -> (r: ResponseKind)
        ensures
            r == (if *self is UnexpectedError {
                ResponseKind::Error
            } else {
                ResponseKind::Fail
            }),
    {
        match self {
            LoginError::UnexpectedError(_) => ResponseKind::Error,
            _ => ResponseKind::Fail,
        }
    }

    /// The message of the answer to a failed login.
    pub fn response_message(&self) -> (r: String)
        ensures
            r@ == login_answer_message(*self),
            *self is AuthError ==> r@ == "Authentication failed."@,
            *self is ForbiddenError ==> r@ == "Account is not activated."@,
            *self is UnexpectedError ==> r@ == "Something went wrong."@,
    {
        match self {
            LoginError::AuthError(_) => "Authentication failed.".to_owned(),
            LoginError::ForbiddenError(_) => "Account is not activated.".to_owned(),
            LoginError::UnexpectedError(_) => "Something went wrong.".to_owned(),
        }
    }
}

} // verus!
