use crate::domain::{Device, PatternRequestData};
use vstd::prelude::*;

verus! {

/// A pattern as submitted: its name, its device and its sequencer data.
#[derive(Debug)]
pub struct PatternRequest {
    pub name: String,
    pub device: Device,
    pub data: PatternRequestData,
}

/// The body of an answer to a pattern that was not stored.
#[derive(Debug)]
pub struct PatternErrorResponse {
    pub status: String,
    pub message: String,
}

/// Why a pattern was not stored: the request was invalid, or storing it
/// failed (the message of what failed).
#[derive(Debug)]
pub enum CreatePatternError {
    ValidationError(String),
    UnexpectedError(String),
}

/// The message of an error: what the request got wrong, or what failed.
pub open spec fn create_error_message(e: CreatePatternError) -> Seq<char> {
    match e {
        CreatePatternError::ValidationError(m) => m@,
        CreatePatternError::UnexpectedError(m) => m@,
    }
}

impl CreatePatternError {
    /// The error's message.
    pub fn to_string(&self) -> (r: String)
        ensures
            r@ == create_error_message(*self),
    {
        match self {
            CreatePatternError::ValidationError(m) => m.clone(),
            CreatePatternError::UnexpectedError(m) => m.clone(),
        }
    }

    /// The HTTP status of the answer: 400 for an invalid request, 500 when
    /// storing failed.
    pub fn status_code(&self) -> (r: u16)
        ensures
            r == (if *self is ValidationError {
                400u16
            } else {
                500u16
            }),
    {
        match self {
            CreatePatternError::ValidationError(_) => 400,
            CreatePatternError::UnexpectedError(_) => 500,
        }
    }

    /// The body of the answer: status `error` and the error's message.
    pub fn error_response(&self) -> (r: PatternErrorResponse)
        ensures
            r.status@ == "error"@,
            r.message@ == create_error_message(*self),
    {
        PatternErrorResponse { status: "error".to_owned(), message: self.to_string() }
    }
}

} // verus!
