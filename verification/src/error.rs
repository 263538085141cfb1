//! The library's error type: a transport failure, a decode failure, or a
//! descriptive domain error.

use vstd::prelude::*;
use vstd::string::*;

verus! {

#[verifier::external_type_specification]
#[verifier::external_body]
pub struct ExReqwestError(reqwest::Error);

#[verifier::external_type_specification]
#[verifier::external_body]
pub struct ExJsonError(serde_json::Error);

/// What a terminal execute can fail with: the transport failed, the
/// response body did not decode, or a domain rule was broken.
#[derive(Debug)]
pub enum SupabasicError {
    Http(reqwest::Error),
    Json(serde_json::Error),
    Other(String),
}

impl SupabasicError {
    /// Wraps a transport failure.
    pub fn from_http(e: reqwest::Error) -> (r: SupabasicError)
        ensures
            r == SupabasicError::Http(e),
    {
        SupabasicError::Http(e)
    }

    /// Wraps a decode failure.
    pub fn from_json(e: serde_json::Error) -> (r: SupabasicError)
        ensures
            r == SupabasicError::Json(e),
    {
        SupabasicError::Json(e)
    }

    /// Wraps a descriptive domain error.
    pub fn other(msg: &str) -> (r: SupabasicError)
        ensures
            r matches SupabasicError::Other(m) && m@ == msg@,
    {
        SupabasicError::Other(msg.to_owned())
    }

    /// Whether this is a transport error.
    pub fn is_http(&self) -> (r: bool)
        ensures
            r == (self is Http),
    {
        match self {
            SupabasicError::Http(_) => true,
            _ => false,
        }
    }

    /// Whether this is a decode error.
    pub fn is_json(&self) -> (r: bool)
        ensures
            r == (self is Json),
    {
        match self {
            SupabasicError::Json(_) => true,
            _ => false,
        }
    }

    /// Whether this is a domain error.
    pub fn is_other(&self) -> (r: bool)
        ensures
            r == (self is Other),
    {
        match self {
            SupabasicError::Other(_) => true,
            _ => false,
        }
    }
}

} // verus!
