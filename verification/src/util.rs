//! The error type of the WebDAV endpoints and the status codes it maps to.

use vstd::prelude::*;

use vstd::string::*;

use crate::http::{
    status_display, status_text, valid_status, DepthError, IntErrorKind, BAD_REQUEST, FORBIDDEN,
    INTERNAL_SERVER_ERROR,
};
use crate::text::{nat_decimal, u64_decimal};

verus! {

/// Why an endpoint failed.
#[derive(Debug)]
pub enum EndpointError {
    Report(String),
    StatusCode(u16),
    DatabaseError(String),
    InvalidLength,
    JwtError(String),
    PasswordHashError(String),
    ParseIntError(IntErrorKind),
    ToStrError,
}

/// An error that answers with the given status code.
pub fn status_error(code: u16) -> (e: EndpointError)
    ensures
        e == EndpointError::StatusCode(code),
{
    EndpointError::StatusCode(code)
}

impl EndpointError {
    /// The status code of the response an error becomes.
    pub open spec fn spec_status_code(self) -> u16 {
        match self {
            EndpointError::InvalidLength => BAD_REQUEST,
            EndpointError::StatusCode(code) => code,
            _ => INTERNAL_SERVER_ERROR,
        }
    }

    /// The status code of the response: 400 for a key of invalid length,
    /// the carried code for a status error, 500 otherwise.
    pub fn status_code(&self) -> (c: u16)
        ensures
            c == self.spec_status_code(),
    {
        match self {
            EndpointError::InvalidLength => BAD_REQUEST,
            EndpointError::StatusCode(code) => *code,
            _ => INTERNAL_SERVER_ERROR,
        }
    }

    /// The message of the error: the carried text, the status line of a
    /// status error (its number alone when it is no status code), or the
    /// message of the header or integer error.
    pub open spec fn text(self) -> Seq<char> {
        match self {
            EndpointError::Report(m) => m@,
            EndpointError::StatusCode(code) => if valid_status(code as int) {
                status_display(code as int)
            } else {
                nat_decimal(code as nat)
            },
            EndpointError::DatabaseError(m) => m@,
            EndpointError::InvalidLength => "Invalid Length"@,
            EndpointError::JwtError(m) => m@,
            EndpointError::PasswordHashError(m) => m@,
            EndpointError::ParseIntError(k) => k.message(),
            EndpointError::ToStrError => "failed to convert header to a str"@,
        }
    }

    /// The message of the error, as its `Display` writes it.
    pub fn to_string(&self) -> (s: String)
        ensures
            s@ == self.text(),
    {
        match self {
            EndpointError::Report(m) => m.clone(),
            EndpointError::StatusCode(code) => if 100 <= *code && *code <= 999 {
                status_text(*code)
            } else {
                u64_decimal(*code as u64)
            },
            EndpointError::DatabaseError(m) => m.clone(),
            EndpointError::InvalidLength => "Invalid Length".to_owned(),
            EndpointError::JwtError(m) => m.clone(),
            EndpointError::PasswordHashError(m) => m.clone(),
            EndpointError::ParseIntError(k) => k.to_string(),
            EndpointError::ToStrError => "failed to convert header to a str".to_owned(),
        }
    }
}

/// The error an unreadable `Depth` header raises: 403 when it is missing,
/// the header-text or integer-parse error otherwise.
pub open spec fn spec_depth_error(e: DepthError) -> EndpointError {
    match e {
        DepthError::Missing => EndpointError::StatusCode(FORBIDDEN),
        DepthError::NotText => EndpointError::ToStrError,
        DepthError::NotNumber(k) => EndpointError::ParseIntError(k),
    }
}

/// The error an unreadable `Depth` header raises.
pub fn depth_error(e: DepthError) -> (r: EndpointError)
    ensures
        r == spec_depth_error(e),
{
    match e {
        DepthError::Missing => status_error(FORBIDDEN),
        DepthError::NotText => EndpointError::ToStrError,
        DepthError::NotNumber(k) => EndpointError::ParseIntError(k),
    }
}

} // verus!
