//! The CalDAV tree behind authentication.

pub mod middleware;
pub mod principals;
