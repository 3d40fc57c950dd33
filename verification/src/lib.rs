//! Client-side model of a plain-text paste service: resolving what a user
//! typed into a paste reference, describing the two exchanges with the
//! service, and interpreting what the service answered.

pub mod api;
pub mod cli;
pub mod error;
pub mod laws;
pub mod text;
