//! Types the HTTP front-end renders: the shared application state and
//! the wire shape of a failed request.

use crate::errors::spec_core_error_message;
use crate::errors::ToonCoreError;
use vstd::prelude::*;
use vstd::string::StringExecFns;

verus! {

/// Application state shared across HTTP handlers.
#[derive(Clone, Debug)]
pub struct AppState {
    /// Service version reported by the health endpoint.
    pub version: String,
}

impl Default for AppState {
    /// The crate's own version.
    fn default() -> (r: Self)
        ensures
            r.version@ == "0.1.0"@,
    {
        AppState { version: String::from_str("0.1.0") }
    }
}

/// Error body of a failed HTTP request.
#[derive(Clone, Debug, PartialEq, Eq)]
pub struct ApiError {
    /// The error message.
    pub error: String,
    /// Position details, present for positioned parse errors.
    pub details: Option<ErrorDetails>,
}

/// Position details of a parse error.
#[derive(Clone, Debug, PartialEq, Eq)]
pub struct ErrorDetails {
    /// Line where the error occurred.
    pub line: Option<usize>,
    /// Column where the error occurred.
    pub column: Option<usize>,
    /// A suggestion to fix the error, when one is available.
    pub suggestion: Option<String>,
}

impl ApiError {
    /// Render a classified error as an HTTP error body: a parse error
    /// keeps its bare message and carries its position as details; every
    /// other variant is the rendered message with no details.
    pub fn from_core_error(e: ToonCoreError) -> (r: ApiError)
        ensures
            match e {
                ToonCoreError::ParseError { message, line, column, suggestion } => {
                    &&& r.error == message
                    &&& r.details == Some(
                        ErrorDetails { line: Some(line), column: Some(column), suggestion },
                    )
                },
                _ => {
                    &&& r.error@ == spec_core_error_message(e)
                    &&& r.details is None
                },
            },
    {
        match e {
            ToonCoreError::ParseError { message, line, column, suggestion } => ApiError {
                error: message,
                details: Some(ErrorDetails { line: Some(line), column: Some(column), suggestion }),
            },
            other => ApiError { error: other.message(), details: None },
        }
    }
}

} // verus!
