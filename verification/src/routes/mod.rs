//! The decisions behind the HTTP endpoints: how a request is checked and how
//! each outcome is answered.

pub mod auth;
pub mod patterns;
