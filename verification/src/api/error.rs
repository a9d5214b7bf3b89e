//! Errors of the metrics query API.

use vstd::prelude::*;
use crate::text::{copy_str, push_str};

verus! {

/// Why a metrics request failed.
#[derive(Debug)]
pub enum ApiError {
    MissingEnv(&'static str),
    InvalidQuery(&'static str),
    DuckDb(String),
    /// The system clock reads before 1970 (or past the last instant
    /// `chrono` represents).
    Clock,
}

/// The text an error is reported with.
pub open spec fn api_error_message(e: ApiError) -> Seq<char> {
    match e {
        ApiError::MissingEnv(k) => "missing required environment variable: "@ + k@,
        ApiError::InvalidQuery(m) => "invalid query parameter: "@ + m@,
        ApiError::DuckDb(m) => "duckdb query failed: "@ + m@,
        ApiError::Clock => "system clock is out of range"@,
    }
}

impl ApiError {
    /// The message of this error.
    pub fn message(&self) -> (r: String)
        ensures
            r@ == api_error_message(*self),
    {
        match self {
            ApiError::MissingEnv(k) => {
                let mut r = copy_str("missing required environment variable: ");
                push_str(&mut r, k);
                r
            },
            ApiError::InvalidQuery(m) => {
                let mut r = copy_str("invalid query parameter: ");
                push_str(&mut r, m);
                r
            },
            ApiError::DuckDb(m) => {
                let mut r = copy_str("duckdb query failed: ");
                push_str(&mut r, m.as_str());
                r
            },
            ApiError::Clock => copy_str("system clock is out of range"),
        }
    }

    /// The HTTP status the error is answered with: 400 for an invalid
    /// query, 500 otherwise.
    pub fn status_code(&self) -> (r: u16)
        ensures
            r == (if *self is InvalidQuery { 400u16 } else { 500u16 }),
    {
        match self {
            ApiError::InvalidQuery(_) => 400,
            ApiError::MissingEnv(_) | ApiError::DuckDb(_) | ApiError::Clock => 500,
        }
    }

    /// Whether an MCP tool reports the error as invalid parameters (an
    /// invalid query) rather than an internal error.
    pub fn is_invalid_params(&self) -> (r: bool)
        ensures
            r == (*self is InvalidQuery),
    {
        match self {
            ApiError::InvalidQuery(_) => true,
            _ => false,
        }
    }
}

} // verus!
