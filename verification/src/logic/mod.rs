//! Errors and WebDAV responses of the HTTP endpoints.

pub mod error;
pub mod response;
