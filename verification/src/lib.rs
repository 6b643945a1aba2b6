//! Validation rules of the PatternSaver service: the domain values that a
//! TB-303 pattern is made of, how a submitted request becomes a pattern, and
//! how errors become HTTP answers.

pub mod text;
pub mod domain;
pub mod routes;
pub mod authentication;
pub mod startup;
