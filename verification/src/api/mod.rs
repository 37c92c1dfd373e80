//! The decisions behind the HTTP service: configuration, request validation,
//! certificates and responses.

pub mod certify;
pub mod config;
pub mod score;
pub mod stress_test;

use vstd::prelude::*;

verus! {

/// A request that the service refuses, with the message it answers.
#[derive(Debug, Clone)]
pub enum ApiError {
    BadRequest(String),
    NotFound(String),
    Internal(String),
}

/// The view of an optional string slice.
pub open spec fn opt_text(o: Option<&str>) -> Option<Seq<char>> {
    match o {
        Some(s) => Some(s@),
        None => None,
    }
}

/// The view of an optional string.
pub open spec fn opt_string(o: Option<String>) -> Option<Seq<char>> {
    match o {
        Some(s) => Some(s@),
        None => None,
    }
}

} // verus!
