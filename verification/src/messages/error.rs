//! Errors of the messages service's application layer.
use vstd::prelude::*;

verus! {

/// An application error, with a stable machine-readable `code`.
#[derive(Debug)]
pub enum AppError {
    Validation { code: &'static str, message: Option<String> },
    NotFound { code: &'static str, message: Option<String> },
    Internal { code: &'static str, message: Option<String>, source: Option<String> },
}

impl AppError {
    /// Whether `self` is a validation error with this code and message.
    pub open spec fn is_validation(&self, code: Seq<char>, message: Seq<char>) -> bool {
        &&& self matches AppError::Validation { code: c, message: Some(m) }
        &&& c@ == code
        &&& m@ == message
    }

    /// Whether `self` is a not-found error with this code and message.
    pub open spec fn is_not_found(&self, code: Seq<char>, message: Seq<char>) -> bool {
        &&& self matches AppError::NotFound { code: c, message: Some(m) }
        &&& c@ == code
        &&& m@ == message
    }

    /// Whether `self` is an internal error with this code and source, and no message.
    pub open spec fn is_internal(&self, code: Seq<char>, source: Seq<char>) -> bool {
        &&& self matches AppError::Internal { code: c, message: None, source: Some(s) }
        &&& c@ == code
        &&& s@ == source
    }

    /// A validation error.
    pub fn validation(code: &'static str, message: &str) -> (r: Self)
        ensures
            r.is_validation(code@, message@),
    {
        AppError::Validation { code, message: Some(String::from_str(message)) }
    }

    /// A not-found error.
    pub fn not_found(code: &'static str, message: &str) -> (r: Self)
        ensures
            r.is_not_found(code@, message@),
    {
        AppError::NotFound { code, message: Some(String::from_str(message)) }
    }

    /// An internal error that keeps the text of its cause.
    pub fn internal_with_source(code: &'static str, source: &str) -> (r: Self)
        ensures
            r.is_internal(code@, source@),
    {
        AppError::Internal { code, message: None, source: Some(String::from_str(source)) }
    }
}

} // verus!
