//! The error taxonomy of the library.
//!
//! `ValidationError` reports malformed input, `NotFound` a missing task,
//! `ParseError` a stored row that violates an invariant, and `Storage` a
//! failed backend call.  `Config` and `ServerError` belong to startup and
//! serving, which callers outside the library perform.

use vstd::prelude::*;

verus! {

#[derive(Debug, Clone, PartialEq, Eq)]
pub enum AppError {
    Config(String),
    Storage(String),
    ValidationError(String),
    NotFound,
    ServerError(String),
    ParseError(String),
}

} // verus!
